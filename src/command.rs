use vstd::prelude::*;

use crate::exercise::{Exercise, ExerciseOutput, Mode};

verus! {

/// An external program to launch, with its arguments.
#[derive(Debug)]
pub struct Invocation {
    pub program: String,
    pub args: Vec<String>,
}

/// What a launched process reported when it exited.
#[derive(Debug)]
pub struct ProcessExit {
    /// The exit status was zero.
    pub success: bool,
    /// Its captured standard output and standard error.
    pub output: ExerciseOutput,
}

/// The texts of a list of strings.
pub open spec fn texts(v: Seq<String>) -> Seq<Seq<char>> {
    v.map_values(|s: String| s@)
}

/// The program that compiles or lints an exercise in mode `mode`.
pub open spec fn compiler_of(mode: Mode) -> Seq<char> {
    match mode {
        Mode::Clippy => "clippy-driver"@,
        _ => "rustc"@,
    }
}

/// The compiler's arguments for the source `path` of an exercise in mode `mode`,
/// with the artifact written to `artifact`; diagnostics are always colored.
pub open spec fn compile_args(mode: Mode, path: Seq<char>, artifact: Seq<char>) -> Seq<Seq<char>> {
    match mode {
        Mode::Compile => seq![path, "-o"@, artifact, "--color"@, "always"@],
        Mode::Test => seq!["--test"@, path, "-o"@, artifact, "--color"@, "always"@],
        Mode::Clippy => seq![path, "--emit=metadata"@, "--color"@, "always"@],
    }
}

/// The runtime arguments of a compiled artifact in mode `mode`.
pub open spec fn run_args(mode: Mode) -> Seq<Seq<char>> {
    match mode {
        Mode::Test => seq!["--show-output"@],
        _ => seq![],
    }
}

fn owned(s: &str) -> (r: String)
    ensures
        r@ == s@,
{
    String::from_str(s)
}

/// The compiler invocation for `exercise`, writing its artifact to `artifact`.
pub fn compile_invocation(exercise: &Exercise, artifact: &str) -> (r: Invocation)
    ensures
        r.program@ == compiler_of(exercise.mode),
        texts(r.args@) == compile_args(exercise.mode, exercise.path@, artifact@),
{
    let mut args: Vec<String> = Vec::new();
    let program = match exercise.mode {
        Mode::Compile => {
            args.push(exercise.path.clone());
            args.push(owned("-o"));
            args.push(owned(artifact));
            owned("rustc")
        },
        Mode::Test => {
            args.push(owned("--test"));
            args.push(exercise.path.clone());
            args.push(owned("-o"));
            args.push(owned(artifact));
            owned("rustc")
        },
        Mode::Clippy => {
            args.push(exercise.path.clone());
            args.push(owned("--emit=metadata"));
            owned("clippy-driver")
        },
    };
    args.push(owned("--color"));
    args.push(owned("always"));
    assert(texts(args@) =~= compile_args(exercise.mode, exercise.path@, artifact@));
    Invocation { program, args }
}

/// The invocation that runs the artifact at `artifact` of an exercise in mode `mode`;
/// none for a lint-only exercise, which has nothing to run.
pub fn run_invocation(mode: Mode, artifact: &str) -> (r: Option<Invocation>)
    ensures
        r is None <==> mode == Mode::Clippy,
        r matches Some(inv) ==> inv.program@ == artifact@ && texts(inv.args@) == run_args(mode),
{
    let mut args: Vec<String> = Vec::new();
    match mode {
        Mode::Clippy => {
            return None;
        },
        Mode::Test => {
            args.push(owned("--show-output"));
        },
        Mode::Compile => {},
    }
    assert(texts(args@) =~= run_args(mode));
    Some(Invocation { program: owned(artifact), args })
}

/// An exercise whose compilation succeeded, with the path of its artifact.
#[derive(Debug)]
pub struct CompiledExercise<'a> {
    exercise: &'a Exercise,
    artifact: String,
}

impl<'a> CompiledExercise<'a> {
    /// The exercise that was compiled.
    pub closed spec fn exercise_spec(&self) -> Exercise {
        *self.exercise
    }

    /// Where its artifact was written.
    pub closed spec fn artifact_spec(&self) -> Seq<char> {
        self.artifact@
    }

    /// The exercise that was compiled.
    pub fn exercise(&self) -> (r: &'a Exercise)
        ensures
            *r == self.exercise_spec(),
    {
        self.exercise
    }

    /// Where its artifact was written.
    pub fn artifact(&self) -> (r: &str)
        ensures
            r@ == self.artifact_spec(),
    {
        self.artifact.as_str()
    }

    /// The invocation that runs the artifact; none for a lint-only exercise.
    pub fn run_invocation(&self) -> (r: Option<Invocation>)
        ensures
            r is None <==> self.exercise_spec().mode == Mode::Clippy,
            r matches Some(inv) ==> inv.program@ == self.artifact_spec()
                && texts(inv.args@) == run_args(self.exercise_spec().mode),
    {
        run_invocation(self.exercise.mode, self.artifact.as_str())
    }

    /// The outcome of running the artifact, from what its process reported: success when
    /// it exited with status zero, failure otherwise, both carrying the captured text.
    pub fn run(&self, exit: ProcessExit) -> (r: Result<ExerciseOutput, ExerciseOutput>)
        ensures
            r is Ok <==> exit.success,
            r matches Ok(o) ==> o == exit.output,
            r matches Err(o) ==> o == exit.output,
    {
        if exit.success {
            Ok(exit.output)
        } else {
            Err(exit.output)
        }
    }
}

/// The outcome of compiling `exercise` to `artifact`, from what the compiler reported:
/// the compiled exercise when it exited with status zero, its captured text otherwise.
pub fn compile_exercise<'a>(exercise: &'a Exercise, artifact: String, exit: ProcessExit) -> (r:
    Result<CompiledExercise<'a>, ExerciseOutput>)
    ensures
        r is Ok <==> exit.success,
        r matches Ok(c) ==> c.exercise_spec() == *exercise && c.artifact_spec() == artifact@,
        r matches Err(o) ==> o == exit.output,
{
    if exit.success {
        Ok(CompiledExercise { exercise, artifact })
    } else {
        Err(exit.output)
    }
}

} // verus!
