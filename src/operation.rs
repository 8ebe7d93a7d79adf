use vstd::prelude::*;
use crate::catalog::{catalog, steps_for, OperationId, Step, StepSpec};
use crate::error::UpdateError;
use crate::runner::{step_verdict, verdict_spec, StepVerdict};

verus! {

/// How an operation ended.
#[derive(Debug)]
pub enum OperationResult {
    /// Every step went through, or the tool said there was nothing to do
    /// (`updated` is then false).
    Completed { updated: bool },
    /// The operation's tool is not installed; nothing was run.
    Skipped,
    /// The first failing step's error; later steps were not attempted.
    Failed(UpdateError),
}

/// One operation being carried out step by step. The caller asks for the
/// next step, runs it, and hands its result back, until an outcome is set.
#[derive(Debug)]
pub struct OperationRun {
    pub op: OperationId,
    pub steps: Vec<Step>,
    pub next: usize,
    pub outcome: Option<OperationResult>,
}

/// An operation run as plain values.
pub ghost struct RunView {
    pub op: OperationId,
    pub steps: Seq<StepSpec>,
    pub next: nat,
    pub outcome: Option<OperationResult>,
}

impl View for OperationRun {
    type V = RunView;

    open spec fn view(&self) -> RunView {
        RunView {
            op: self.op,
            steps: self.steps@.map_values(|s: Step| s@),
            next: self.next as nat,
            outcome: self.outcome,
        }
    }
}

impl RunView {
    /// The steps are the operation's catalog entry, and an unfinished run
    /// points at a step that exists.
    pub open spec fn wf(self) -> bool {
        &&& self.steps == catalog(self.op)
        &&& self.next <= self.steps.len()
        &&& self.outcome is None ==> self.next < self.steps.len()
    }

    /// The run after the current step gave `result`.
    pub open spec fn record(self, result: Result<Vec<String>, UpdateError>) -> RunView {
        match verdict_spec(self.steps[self.next as int], result) {
            StepVerdict::Proceed => RunView {
                next: self.next + 1,
                outcome: if self.next + 1 == self.steps.len() {
                    Some(OperationResult::Completed { updated: true })
                } else {
                    None
                },
                ..self
            },
            StepVerdict::NothingToDo => RunView {
                outcome: Some(OperationResult::Completed { updated: false }),
                ..self
            },
            StepVerdict::Fail(e) => RunView { outcome: Some(OperationResult::Failed(e)), ..self },
        }
    }
}

impl OperationRun {
    /// Starts an operation. Without its tool it is skipped at once and no
    /// step is ever offered.
    pub fn new(op: OperationId, tool_present: bool) -> (r: OperationRun)
        ensures
            r@.wf(),
            r@.op == op,
            r@.next == 0,
            r@.outcome == (if tool_present {
                None
            } else {
                Some(OperationResult::Skipped)
            }),
    {
        let steps = steps_for(op);
        OperationRun {
            op,
            steps,
            next: 0,
            outcome: if tool_present {
                None
            } else {
                Some(OperationResult::Skipped)
            },
        }
    }

    /// The step to run next, if the operation has not ended.
    pub fn next_step(&self) -> (r: Option<&Step>)
        requires
            self@.wf(),
        ensures
            r is None <==> self@.outcome is Some,
            r matches Some(s) ==> s@ == self@.steps[self@.next as int],
    {
        if self.outcome.is_some() {
            None
        } else {
            Some(&self.steps[self.next])
        }
    }

    /// Takes in the result of the step that `next_step` offered.
    pub fn record(&mut self, result: Result<Vec<String>, UpdateError>)
        requires
            old(self)@.wf(),
            old(self)@.outcome is None,
        ensures
            final(self)@ == old(self)@.record(result),
            final(self)@.wf(),
    {
        let ghost before = self@;
        assert(self.steps@[self.next as int]@ == before.steps[self.next as int]);
        let verdict = step_verdict(&self.steps[self.next], result);
        match verdict {
            StepVerdict::Proceed => {
                self.next = self.next + 1;
                if self.next == self.steps.len() {
                    self.outcome = Some(OperationResult::Completed { updated: true });
                }
            },
            StepVerdict::NothingToDo => {
                self.outcome = Some(OperationResult::Completed { updated: false });
            },
            StepVerdict::Fail(e) => {
                self.outcome = Some(OperationResult::Failed(e));
            },
        }
    }

    /// The outcome of a run that has ended.
    pub fn into_result(self) -> (r: OperationResult)
        requires
            self@.outcome is Some,
        ensures
            self@.outcome == Some(r),
    {
        match self.outcome {
            Some(r) => r,
            None => {
                assert(false);
                OperationResult::Skipped
            },
        }
    }
}

/// The firmware update step exiting with its declared "nothing to do" code
/// completes the operation without an update rather than failing it.
pub proof fn nothing_to_do_completes(run: RunView, cmd: String, details: String)
    requires
        run.wf(),
        run.op == OperationId::Firmware,
        run.next == 1,
        run.outcome is None,
    ensures
        run.record(Err(UpdateError::CommandFailed { cmd, code: 2, details })).outcome == Some(
            OperationResult::Completed { updated: false },
        ),
{
}

/// An operation whose steps all report success, as every simulated step of
/// a dry run does, completes with an update after its last step.
pub proof fn successful_steps_complete(run: RunView, first: Vec<String>, second: Vec<String>)
    requires
        run.wf(),
        run.next == 0,
        run.outcome is None,
    ensures
        run.record(Ok(first)).outcome is None,
        run.record(Ok(first)).record(Ok(second)).outcome == Some(
            OperationResult::Completed { updated: true },
        ),
{
}

/// A failing firmware metadata refresh is ignored: the update step comes next.
pub proof fn ignored_refresh_proceeds(run: RunView, result: Result<Vec<String>, UpdateError>)
    requires
        run.wf(),
        run.op == OperationId::Firmware,
        run.next == 0,
        run.outcome is None,
    ensures
        run.record(result).next == 1,
        run.record(result).outcome is None,
{
}

} // verus!
