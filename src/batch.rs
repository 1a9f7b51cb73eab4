use vstd::prelude::*;

use crate::command::{
    compile_args, compile_invocation, compiler_of, run_args, run_invocation, texts, Invocation,
    ProcessExit,
};
use crate::exercise::{Exercise, ExerciseList, ExerciseOutput, LookupError, Mode};

verus! {

/// The outcome of one exercise's whole pipeline.
#[derive(Debug)]
pub enum RunResult {
    CompileFailed(ExerciseOutput),
    RunSucceeded(ExerciseOutput),
    RunFailed(ExerciseOutput),
}

/// Where a batch stands with its current exercise.
#[derive(Clone, Copy, Debug, PartialEq, Eq, Structural)]
pub enum Stage {
    /// The compiler is to be launched.
    Compiling,
    /// The compiled artifact is to be launched.
    Running,
    /// The outcome is to be reported.
    Reporting,
    /// The temporary artifact is to be removed.
    Cleaning,
    /// Every selected exercise has been processed.
    Finished,
}

/// What the caller is to do next for a batch.
#[derive(Debug)]
pub enum Action {
    /// Launch this process, wait for it, and hand back its exit.
    Launch(Invocation),
    /// Report the result at this position of the batch's results.
    Report(usize),
    /// Try to remove this file; a failure to remove it is of no consequence.
    Remove(String),
    /// Nothing is left to do.
    Finish,
}

/// A sequential run over selected exercises of a catalog, one at a time, each
/// compiled, run where its mode asks for it, reported and cleaned up.
pub struct Batch {
    /// Positions in the catalog of the exercises to process, in order.
    pub selection: Vec<usize>,
    /// The temporary artifact path, reused by one exercise after another.
    pub artifact: String,
    /// Position in `selection` of the exercise in progress.
    pub current: usize,
    pub stage: Stage,
    /// One outcome per exercise that got one, in order.
    pub results: Vec<RunResult>,
    /// Number of removals of the artifact that were attempted.
    pub cleanups: usize,
}

/// The outcome of a run that exited as `exit` says.
pub open spec fn run_outcome(exit: ProcessExit) -> RunResult {
    if exit.success {
        RunResult::RunSucceeded(exit.output)
    } else {
        RunResult::RunFailed(exit.output)
    }
}

impl Batch {
    /// The batch refers to exercises of `list`, and its counters agree with its stage.
    pub open spec fn wf(&self, list: &ExerciseList) -> bool {
        &&& forall|k: int| 0 <= k < self.selection@.len() ==> self.selection@[k] < list.exercises@.len()
        &&& self.current <= self.selection@.len()
        &&& (self.stage == Stage::Finished <==> self.current == self.selection@.len())
        &&& self.cleanups == self.current
        &&& self.stage == Stage::Running ==> self.exercise_in_progress(list).mode != Mode::Clippy
        &&& self.results@.len() == self.current + match self.stage {
            Stage::Reporting | Stage::Cleaning => 1int,
            _ => 0int,
        }
    }

    /// The exercise in progress.
    pub open spec fn exercise_in_progress(&self, list: &ExerciseList) -> Exercise {
        list.exercises@[self.selection@[self.current as int] as int]
    }

    /// Steps left before the batch is finished.
    pub open spec fn steps_left(&self) -> nat {
        let per_stage: nat = match self.stage {
            Stage::Compiling => 4,
            Stage::Running => 3,
            Stage::Reporting => 2,
            Stage::Cleaning => 1,
            Stage::Finished => 0,
        };
        if self.current < self.selection@.len() {
            ((self.selection@.len() - self.current - 1) * 4 + per_stage) as nat
        } else {
            0
        }
    }

    /// A batch over the exercises at `selection`, in that order, using `artifact` as the
    /// temporary artifact path.
    pub fn new(list: &ExerciseList, selection: Vec<usize>, artifact: String) -> (r: Batch)
        requires
            forall|k: int| 0 <= k < selection@.len() ==> selection@[k] < list.exercises@.len(),
        ensures
            r.wf(list),
            r.selection@ == selection@,
            r.artifact == artifact,
            r.current == 0,
            r.stage == (if selection@.len() == 0 { Stage::Finished } else { Stage::Compiling }),
            r.results@.len() == 0,
    {
        let stage = if selection.len() == 0 { Stage::Finished } else { Stage::Compiling };
        Batch { selection, artifact, current: 0, stage, results: Vec::new(), cleanups: 0 }
    }

    /// A batch over every exercise of `list`, in manifest order.
    pub fn all(list: &ExerciseList, artifact: String) -> (r: Batch)
        ensures
            r.wf(list),
            r.selection@ == Seq::new(list.exercises@.len(), |i: int| i as usize),
            r.artifact == artifact,
            r.current == 0,
            r.results@.len() == 0,
    {
        let n = list.exercises.len();
        let mut selection: Vec<usize> = Vec::new();
        let mut i: usize = 0;
        while i < n
            invariant
                n == list.exercises@.len(),
                i <= n,
                selection@ == Seq::new(i as nat, |j: int| j as usize),
            decreases n - i,
        {
            selection.push(i);
            assert(selection@ =~= Seq::new((i + 1) as nat, |j: int| j as usize));
            i = i + 1;
        }
        Batch::new(list, selection, artifact)
    }

    /// A batch over the one exercise named `name`; `NotFound` when none is.
    pub fn for_name(list: &ExerciseList, name: &str, artifact: String) -> (r: Result<Batch, LookupError>)
        ensures
            r is Ok <==> list.has_name(name@),
            r matches Ok(b) ==> b.wf(list) && b.selection@.len() == 1
                && list.first_named(name@, b.selection@[0] as int) && b.artifact == artifact
                && b.current == 0 && b.stage == Stage::Compiling && b.results@.len() == 0,
    {
        match list.position_of(name) {
            Some(i) => {
                let mut selection: Vec<usize> = Vec::new();
                selection.push(i);
                Ok(Batch::new(list, selection, artifact))
            },
            None => Err(LookupError::NotFound),
        }
    }

    /// A batch over the exercises of the folder `folder`, in manifest order; `NotFound`
    /// when there are none.
    pub fn for_folder(list: &ExerciseList, folder: &str, artifact: String) -> (r: Result<Batch, LookupError>)
        ensures
            r is Ok <==> list.has_folder(folder@),
            r matches Ok(b) ==> b.wf(list) && list.folder_positions(folder@, b.selection@)
                && b.artifact == artifact && b.current == 0 && b.stage == Stage::Compiling
                && b.results@.len() == 0,
    {
        match list.find_by_folder(folder) {
            Ok(selection) => Ok(Batch::new(list, selection, artifact)),
            Err(e) => Err(e),
        }
    }

    /// What is to be done next: launch the compiler, then the artifact, report the
    /// outcome, remove the artifact, and so on with the next exercise.
    pub fn next_action(&self, list: &ExerciseList) -> (r: Action)
        requires
            self.wf(list),
        ensures
            self.stage == Stage::Compiling ==> (r matches Action::Launch(inv)
                && inv.program@ == compiler_of(self.exercise_in_progress(list).mode)
                && texts(inv.args@) == compile_args(
                    self.exercise_in_progress(list).mode,
                    self.exercise_in_progress(list).path@,
                    self.artifact@,
                )),
            self.stage == Stage::Running ==> (r matches Action::Launch(inv)
                && inv.program@ == self.artifact@
                && texts(inv.args@) == run_args(self.exercise_in_progress(list).mode)),
            self.stage == Stage::Reporting ==> r == Action::Report(self.current),
            self.stage == Stage::Cleaning ==> r == Action::Remove(self.artifact),
            self.stage == Stage::Finished ==> r == Action::Finish,
    {
        match self.stage {
            Stage::Compiling => {
                let e = &list.exercises[self.selection[self.current]];
                Action::Launch(compile_invocation(e, self.artifact.as_str()))
            },
            Stage::Running => {
                let e = &list.exercises[self.selection[self.current]];
                match run_invocation(e.mode, self.artifact.as_str()) {
                    Some(inv) => Action::Launch(inv),
                    None => Action::Finish,
                }
            },
            Stage::Reporting => Action::Report(self.current),
            Stage::Cleaning => Action::Remove(self.artifact.clone()),
            Stage::Finished => Action::Finish,
        }
    }

    /// Hands back the exit of the process that the last `Launch` asked for. Accepted only
    /// while compiling or running; the batch is left as it was otherwise.
    pub fn on_exit(&mut self, list: &ExerciseList, exit: ProcessExit) -> (accepted: bool)
        requires
            old(self).wf(list),
        ensures
            final(self).wf(list),
            accepted <==> (old(self).stage == Stage::Compiling || old(self).stage == Stage::Running),
            !accepted ==> *final(self) == *old(self),
            accepted ==> final(self).steps_left() < old(self).steps_left(),
            final(self).selection == old(self).selection,
            final(self).artifact == old(self).artifact,
            final(self).current == old(self).current,
            final(self).cleanups == old(self).cleanups,
            old(self).stage == Stage::Compiling && !exit.success ==> final(self).stage
                == Stage::Reporting && final(self).results@ == old(self).results@.push(
                RunResult::CompileFailed(exit.output),
            ),
            old(self).stage == Stage::Compiling && exit.success && old(self).exercise_in_progress(
                list,
            ).mode == Mode::Clippy ==> final(self).stage == Stage::Reporting
                && final(self).results@ == old(self).results@.push(
                RunResult::RunSucceeded(exit.output),
            ),
            old(self).stage == Stage::Compiling && exit.success && old(self).exercise_in_progress(
                list,
            ).mode != Mode::Clippy ==> final(self).stage == Stage::Running
                && final(self).results@ == old(self).results@,
            old(self).stage == Stage::Running ==> final(self).stage == Stage::Reporting
                && final(self).results@ == old(self).results@.push(run_outcome(exit)),
    {
        match self.stage {
            Stage::Compiling => {
                let mode = list.exercises[self.selection[self.current]].mode;
                if !exit.success {
                    self.results.push(RunResult::CompileFailed(exit.output));
                    self.stage = Stage::Reporting;
                } else if mode == Mode::Clippy {
                    self.results.push(RunResult::RunSucceeded(exit.output));
                    self.stage = Stage::Reporting;
                } else {
                    self.stage = Stage::Running;
                }
                true
            },
            Stage::Running => {
                let outcome = if exit.success {
                    RunResult::RunSucceeded(exit.output)
                } else {
                    RunResult::RunFailed(exit.output)
                };
                self.results.push(outcome);
                self.stage = Stage::Reporting;
                true
            },
            _ => false,
        }
    }

    /// Signals that the last `Report` or `Remove` was carried out (a removal that failed
    /// counts as carried out). Accepted only while reporting or cleaning; the batch is left
    /// as it was otherwise. After the removal the batch moves on to the next exercise.
    pub fn on_done(&mut self, list: &ExerciseList) -> (accepted: bool)
        requires
            old(self).wf(list),
        ensures
            final(self).wf(list),
            accepted <==> (old(self).stage == Stage::Reporting || old(self).stage == Stage::Cleaning),
            !accepted ==> *final(self) == *old(self),
            accepted ==> final(self).steps_left() < old(self).steps_left(),
            final(self).selection == old(self).selection,
            final(self).artifact == old(self).artifact,
            final(self).results == old(self).results,
            old(self).stage == Stage::Reporting ==> final(self).stage == Stage::Cleaning
                && final(self).current == old(self).current,
            old(self).stage == Stage::Cleaning ==> final(self).current == old(self).current + 1
                && final(self).cleanups == old(self).cleanups + 1 && final(self).stage == (
                if final(self).current < final(self).selection@.len() {
                    Stage::Compiling
                } else {
                    Stage::Finished
                }),
    {
        match self.stage {
            Stage::Reporting => {
                self.stage = Stage::Cleaning;
                true
            },
            Stage::Cleaning => {
                let n = self.selection.len();
                assert(self.current < n);
                self.current = self.current + 1;
                self.cleanups = self.cleanups + 1;
                self.stage = if self.current < n {
                    Stage::Compiling
                } else {
                    Stage::Finished
                };
                true
            },
            _ => false,
        }
    }
}

/// A batch that is finished has processed every selected exercise, whatever failed on
/// the way: one outcome per exercise and one removal attempt per exercise.
pub proof fn lemma_finished_batch_complete(b: Batch, list: &ExerciseList)
    requires
        b.wf(list),
        b.stage == Stage::Finished,
    ensures
        b.results@.len() == b.selection@.len(),
        b.cleanups == b.selection@.len(),
        b.steps_left() == 0,
{
}

/// A batch that is not finished has steps left: it never stops before every selected
/// exercise has its outcome and its removal attempt.
pub proof fn lemma_unfinished_batch_continues(b: Batch, list: &ExerciseList)
    requires
        b.wf(list),
        b.stage != Stage::Finished,
    ensures
        b.current < b.selection@.len(),
        b.steps_left() > 0,
        b.cleanups < b.selection@.len(),
{
}

} // verus!
