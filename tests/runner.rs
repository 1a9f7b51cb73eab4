use rustlings_runner::batch::{Action, Batch, RunResult, Stage};
use rustlings_runner::command::{compile_exercise, compile_invocation, run_invocation, ProcessExit};
use rustlings_runner::exercise::{CatalogError, Exercise, ExerciseList, ExerciseOutput, LookupError, Mode};
use rustlings_runner::naming::artifact_path;

fn exercise(name: &str, path: &str, mode: Mode) -> Exercise {
    Exercise { name: name.to_string(), path: path.to_string(), mode, hint: String::new() }
}

fn output(stdout: &str, stderr: &str) -> ExerciseOutput {
    ExerciseOutput { stdout: stdout.to_string(), stderr: stderr.to_string() }
}

fn exit(success: bool, stdout: &str, stderr: &str) -> ProcessExit {
    ProcessExit { success, output: output(stdout, stderr) }
}

fn catalog() -> ExerciseList {
    ExerciseList::new(vec![
        exercise("variables1", "exercises/variables/variables1.rs", Mode::Compile),
        exercise("functions1", "exercises/functions/functions1.rs", Mode::Compile),
        exercise("variables2", "exercises/variables/variables2.rs", Mode::Test),
        exercise("lint1", "exercises/clippy/lint1.rs", Mode::Clippy),
    ])
    .unwrap()
}

fn strings(v: &[String]) -> Vec<&str> {
    v.iter().map(|s| s.as_str()).collect()
}

#[test]
fn artifact_path_joins_process_and_token() {
    assert_eq!(artifact_path(1234, 7), "./temp_1234_7");
    assert_eq!(artifact_path(0, 0), "./temp_0_0");
    assert_eq!(artifact_path(u32::MAX, u64::MAX), "./temp_4294967295_18446744073709551615");
}

#[test]
fn artifact_paths_of_distinct_identities_differ() {
    assert_ne!(artifact_path(12, 3), artifact_path(1, 23));
    assert_ne!(artifact_path(1, 2), artifact_path(1, 3));
    assert_ne!(artifact_path(1, 2), artifact_path(2, 2));
    assert_eq!(artifact_path(5, 9), artifact_path(5, 9));
}

#[test]
fn find_by_name_returns_manifest_entry() {
    let list = catalog();
    let e = list.find_by_name("variables2").unwrap();
    assert_eq!(e.path, "exercises/variables/variables2.rs");
    assert_eq!(e.mode, Mode::Test);
    assert_eq!(list.find_by_name("variables3").unwrap_err(), LookupError::NotFound);
    assert_eq!(list.find_by_name("").unwrap_err(), LookupError::NotFound);
    assert_eq!(list.find_by_name("Variables1").unwrap_err(), LookupError::NotFound);
}

#[test]
fn find_by_folder_keeps_manifest_order() {
    let list = catalog();
    assert_eq!(list.find_by_folder("variables").unwrap(), vec![0, 2]);
    assert_eq!(list.find_by_folder("functions").unwrap(), vec![1]);
    assert_eq!(list.find_by_folder("exercises").unwrap_err(), LookupError::NotFound);
    assert_eq!(list.find_by_folder("variables1.rs").unwrap_err(), LookupError::NotFound);
    assert_eq!(list.find_by_folder("nothing").unwrap_err(), LookupError::NotFound);
}

#[test]
fn find_by_folder_ignores_single_segment_paths() {
    let list = ExerciseList::new(vec![
        exercise("a", "a.rs", Mode::Compile),
        exercise("b", "root/b/b.rs", Mode::Compile),
        exercise("c", "root/b", Mode::Compile),
    ])
    .unwrap();
    assert_eq!(list.find_by_folder("b").unwrap(), vec![1, 2]);
    assert_eq!(list.find_by_folder("a.rs").unwrap_err(), LookupError::NotFound);
}

#[test]
fn duplicate_names_are_refused() {
    let r = ExerciseList::new(vec![
        exercise("a", "x/y/a.rs", Mode::Compile),
        exercise("b", "x/y/b.rs", Mode::Compile),
        exercise("a", "x/z/a.rs", Mode::Test),
    ]);
    assert_eq!(r.err(), Some(CatalogError::DuplicateName(0, 2)));
    assert!(ExerciseList::new(Vec::new()).is_ok());
}

#[test]
fn mode_names_ignore_case() {
    assert_eq!(Mode::from_name("compile"), Some(Mode::Compile));
    assert_eq!(Mode::from_name("Test"), Some(Mode::Test));
    assert_eq!(Mode::from_name("CLIPPY"), Some(Mode::Clippy));
    assert_eq!(Mode::from_name("compiles"), None);
    assert_eq!(Mode::from_name(""), None);
}

#[test]
fn compile_invocation_depends_on_mode() {
    let bin = exercise("a", "ex/f/a.rs", Mode::Compile);
    let inv = compile_invocation(&bin, "./temp_1_2");
    assert_eq!(inv.program, "rustc");
    assert_eq!(strings(&inv.args), vec!["ex/f/a.rs", "-o", "./temp_1_2", "--color", "always"]);

    let test = exercise("b", "ex/f/b.rs", Mode::Test);
    let inv = compile_invocation(&test, "./temp_1_2");
    assert_eq!(inv.program, "rustc");
    assert_eq!(strings(&inv.args), vec!["--test", "ex/f/b.rs", "-o", "./temp_1_2", "--color", "always"]);

    let lint = exercise("c", "ex/f/c.rs", Mode::Clippy);
    let inv = compile_invocation(&lint, "./temp_1_2");
    assert_eq!(inv.program, "clippy-driver");
    assert_eq!(strings(&inv.args), vec!["ex/f/c.rs", "--emit=metadata", "--color", "always"]);
}

#[test]
fn run_invocation_depends_on_mode() {
    let inv = run_invocation(Mode::Test, "./temp_3_4").unwrap();
    assert_eq!(inv.program, "./temp_3_4");
    assert_eq!(strings(&inv.args), vec!["--show-output"]);
    let inv = run_invocation(Mode::Compile, "./temp_3_4").unwrap();
    assert_eq!(inv.program, "./temp_3_4");
    assert!(inv.args.is_empty());
    assert!(run_invocation(Mode::Clippy, "./temp_3_4").is_none());
}

#[test]
fn compile_and_run_outcomes_carry_captured_text() {
    let e = exercise("a", "ex/f/a.rs", Mode::Test);
    let failed = compile_exercise(&e, "./temp_1_1".to_string(), exit(false, "", "error[E0308]"));
    let o = failed.unwrap_err();
    assert_eq!(o.stdout, "");
    assert_eq!(o.stderr, "error[E0308]");

    let compiled = compile_exercise(&e, "./temp_1_1".to_string(), exit(true, "", "")).unwrap();
    assert_eq!(compiled.artifact(), "./temp_1_1");
    assert_eq!(compiled.exercise().name, "a");
    let inv = compiled.run_invocation().unwrap();
    assert_eq!(strings(&inv.args), vec!["--show-output"]);

    let ok = compiled.run(exit(true, "test result: ok", "")).unwrap();
    assert_eq!(ok.stdout, "test result: ok");
    assert_eq!(ok.stderr, "");
    let err = compiled.run(exit(false, "out", "panicked")).unwrap_err();
    assert_eq!(err.stdout, "out");
    assert_eq!(err.stderr, "panicked");
}

fn expect_launch(b: &Batch, list: &ExerciseList, program: &str) {
    match b.next_action(list) {
        Action::Launch(inv) => assert_eq!(inv.program, program),
        other => panic!("expected a launch, got {:?}", other),
    }
}

fn finish_exercise(b: &mut Batch, list: &ExerciseList) {
    assert!(matches!(b.next_action(list), Action::Report(_)));
    assert!(b.on_done(list));
    match b.next_action(list) {
        Action::Remove(path) => assert_eq!(path, "./temp_9_1"),
        other => panic!("expected a removal, got {:?}", other),
    }
    assert!(b.on_done(list));
}

#[test]
fn run_all_reports_success_and_compile_failure() {
    let list = ExerciseList::new(vec![
        exercise("a", "exercises/x/a.rs", Mode::Compile),
        exercise("b", "exercises/x/b.rs", Mode::Compile),
    ])
    .unwrap();
    let mut b = Batch::all(&list, artifact_path(9, 1));
    expect_launch(&b, &list, "rustc");
    assert!(b.on_exit(&list, exit(true, "", "")));
    expect_launch(&b, &list, "./temp_9_1");
    assert!(b.on_exit(&list, exit(true, "hello", "")));
    finish_exercise(&mut b, &list);
    expect_launch(&b, &list, "rustc");
    assert!(b.on_exit(&list, exit(false, "", "expected `;`")));
    finish_exercise(&mut b, &list);
    assert_eq!(b.stage, Stage::Finished);
    assert!(matches!(b.next_action(&list), Action::Finish));
    assert_eq!(b.cleanups, 2);
    assert!(matches!(&b.results[0], RunResult::RunSucceeded(o) if o.stdout == "hello"));
    assert!(matches!(&b.results[1], RunResult::CompileFailed(o) if o.stderr == "expected `;`"));
}

#[test]
fn batch_continues_past_every_failure() {
    let list = ExerciseList::new(vec![
        exercise("a", "e/x/a.rs", Mode::Compile),
        exercise("b", "e/x/b.rs", Mode::Test),
        exercise("c", "e/x/c.rs", Mode::Clippy),
        exercise("d", "e/x/d.rs", Mode::Compile),
        exercise("e", "e/x/e.rs", Mode::Test),
    ])
    .unwrap();
    let mut b = Batch::all(&list, artifact_path(9, 1));
    // a: compile fails
    assert!(b.on_exit(&list, exit(false, "", "e1")));
    finish_exercise(&mut b, &list);
    // b: runs and fails
    assert!(b.on_exit(&list, exit(true, "", "")));
    assert!(b.on_exit(&list, exit(false, "", "assertion failed")));
    finish_exercise(&mut b, &list);
    // c: lint passes, nothing runs
    expect_launch(&b, &list, "clippy-driver");
    assert!(b.on_exit(&list, exit(true, "", "")));
    assert_eq!(b.stage, Stage::Reporting);
    finish_exercise(&mut b, &list);
    // d: compile fails
    assert!(b.on_exit(&list, exit(false, "", "e2")));
    finish_exercise(&mut b, &list);
    // e: runs and succeeds
    assert!(b.on_exit(&list, exit(true, "", "")));
    assert!(b.on_exit(&list, exit(true, "ok", "")));
    finish_exercise(&mut b, &list);
    assert_eq!(b.stage, Stage::Finished);
    assert_eq!(b.results.len(), 5);
    assert_eq!(b.cleanups, 5);
    assert!(matches!(b.results[0], RunResult::CompileFailed(_)));
    assert!(matches!(b.results[1], RunResult::RunFailed(_)));
    assert!(matches!(b.results[2], RunResult::RunSucceeded(_)));
    assert!(matches!(b.results[3], RunResult::CompileFailed(_)));
    assert!(matches!(b.results[4], RunResult::RunSucceeded(_)));
}

#[test]
fn events_out_of_turn_are_refused() {
    let list = catalog();
    let mut b = Batch::for_name(&list, "functions1", artifact_path(9, 1)).unwrap();
    assert!(!b.on_done(&list));
    assert_eq!(b.stage, Stage::Compiling);
    assert!(b.on_exit(&list, exit(false, "", "")));
    assert!(!b.on_exit(&list, exit(true, "", "")));
    assert_eq!(b.stage, Stage::Reporting);
    assert_eq!(b.results.len(), 1);
}

#[test]
fn empty_selection_is_finished_at_once() {
    let list = ExerciseList::new(Vec::new()).unwrap();
    let b = Batch::all(&list, artifact_path(1, 1));
    assert_eq!(b.stage, Stage::Finished);
    assert!(matches!(b.next_action(&list), Action::Finish));
}

#[test]
fn unknown_folder_gives_no_batch() {
    let list = catalog();
    assert_eq!(Batch::for_folder(&list, "structs", artifact_path(1, 1)).err(), Some(LookupError::NotFound));
    let b = Batch::for_folder(&list, "variables", artifact_path(1, 1)).unwrap();
    assert_eq!(b.selection, vec![0, 2]);
}

#[test]
fn unknown_name_gives_no_batch() {
    let list = catalog();
    assert_eq!(Batch::for_name(&list, "structs1", artifact_path(1, 1)).err(), Some(LookupError::NotFound));
    let b = Batch::for_name(&list, "lint1", artifact_path(1, 1)).unwrap();
    assert_eq!(b.selection, vec![3]);
}
