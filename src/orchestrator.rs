use vstd::prelude::*;
use crate::catalog::OperationId;
use crate::cli::Args;
use crate::operation::OperationResult;
use crate::summary::{SummaryView, UpdateSummary};

verus! {

/// How the selected operations are run.
#[derive(Debug, Clone, Copy, PartialEq, Eq, Structural)]
pub enum Mode {
    /// One after another, in priority order, checking for cancellation
    /// before each.
    Sequential,
    /// All at once; cancellation is not consulted.
    Concurrent,
}

/// The selected operations in priority order: packages, applications,
/// firmware.
pub open spec fn plan_spec(system: bool, flatpak: bool, firmware: bool) -> Seq<OperationId> {
    (if system { seq![OperationId::System] } else { Seq::empty() })
        + (if flatpak { seq![OperationId::Flatpak] } else { Seq::empty() })
        + (if firmware { seq![OperationId::Firmware] } else { Seq::empty() })
}

/// Lists the selected operations in priority order.
pub fn plan_for(system: bool, flatpak: bool, firmware: bool) -> (r: Vec<OperationId>)
    ensures
        r@ == plan_spec(system, flatpak, firmware),
        r@.no_duplicates(),
{
    let mut r: Vec<OperationId> = Vec::new();
    if system {
        r.push(OperationId::System);
    }
    if flatpak {
        r.push(OperationId::Flatpak);
    }
    if firmware {
        r.push(OperationId::Firmware);
    }
    assert(r@ =~= plan_spec(system, flatpak, firmware));
    assert(r@.no_duplicates());
    r
}

/// The operations that the command line selects: `update_all` takes
/// packages and applications, and firmware only together with `firmware`.
pub open spec fn selection_spec(args: &Args) -> Seq<OperationId> {
    plan_spec(
        args.update_all || args.update_system,
        args.update_all || args.update_flatpak,
        args.update_firmware || (args.update_all && args.firmware),
    )
}

/// The operations that the command line selects, in priority order.
pub fn selected_operations(args: &Args) -> (r: Vec<OperationId>)
    ensures
        r@ == selection_spec(args),
        r@.no_duplicates(),
{
    plan_for(
        args.update_all || args.update_system,
        args.update_all || args.update_flatpak,
        args.update_firmware || (args.update_all && args.firmware),
    )
}

/// The mode of a run: side by side only when asked for and something is
/// selected.
pub fn mode_of(args: &Args) -> (r: Mode)
    ensures
        r == (if args.parallel && selection_spec(args).len() > 0 {
            Mode::Concurrent
        } else {
            Mode::Sequential
        }),
{
    let plan = selected_operations(args);
    if args.parallel && plan.len() > 0 {
        Mode::Concurrent
    } else {
        Mode::Sequential
    }
}

/// What a sequential run does next.
#[derive(Debug, Clone, Copy, PartialEq, Eq, Structural)]
pub enum Next {
    /// Run this operation, then report its result.
    Start(OperationId),
    /// Stop: cancellation was requested before the next operation.
    Cancelled,
    /// Every selected operation has been run.
    Finished,
}

/// A sequential run: the plan, how far it has come, whether an operation
/// is under way, whether it was cancelled, and the summary so far.
#[derive(Debug)]
pub struct Sequence {
    pub plan: Vec<OperationId>,
    pub next: usize,
    pub running: bool,
    pub cancelled: bool,
    pub summary: UpdateSummary,
}

/// A sequential run as plain values.
pub ghost struct SequenceView {
    pub plan: Seq<OperationId>,
    pub next: nat,
    pub running: bool,
    pub cancelled: bool,
    pub summary: SummaryView,
}

impl View for Sequence {
    type V = SequenceView;

    open spec fn view(&self) -> SequenceView {
        SequenceView {
            plan: self.plan@,
            next: self.next as nat,
            running: self.running,
            cancelled: self.cancelled,
            summary: self.summary@,
        }
    }
}

impl SequenceView {
    pub open spec fn wf(self) -> bool {
        &&& self.next <= self.plan.len()
        &&& self.running ==> self.next < self.plan.len()
    }

    /// The decision taken before the next operation, given whether
    /// cancellation has been requested: none left means finished; a
    /// cancellation, now or earlier, stops the run; otherwise the next
    /// operation starts.
    pub open spec fn advance(self, cancel_requested: bool) -> (SequenceView, Next) {
        if self.next >= self.plan.len() {
            (self, Next::Finished)
        } else if self.cancelled || cancel_requested {
            (SequenceView { cancelled: true, ..self }, Next::Cancelled)
        } else {
            (SequenceView { running: true, ..self }, Next::Start(self.plan[self.next as int]))
        }
    }

    /// The run once the operation under way has ended with `result`.
    pub open spec fn finish(self, result: OperationResult) -> SequenceView {
        SequenceView {
            next: self.next + 1,
            running: false,
            summary: self.summary.apply(self.plan[self.next as int], result),
            ..self
        }
    }
}

impl Sequence {
    /// A run of the given operations, in the given order, with nothing done.
    pub fn new(plan: Vec<OperationId>) -> (r: Sequence)
        ensures
            r@.wf(),
            r@.plan == plan@,
            r@.next == 0,
            !r@.running,
            !r@.cancelled,
            r@.summary == SummaryView::empty(),
    {
        Sequence { plan, next: 0, running: false, cancelled: false, summary: UpdateSummary::new() }
    }

    /// Decides what comes next; `cancel_requested` is the cancellation
    /// flag as read just now.
    pub fn advance(&mut self, cancel_requested: bool) -> (r: Next)
        requires
            old(self)@.wf(),
            !old(self)@.running,
        ensures
            (final(self)@, r) == old(self)@.advance(cancel_requested),
            final(self)@.wf(),
    {
        if self.next >= self.plan.len() {
            Next::Finished
        } else if self.cancelled || cancel_requested {
            self.cancelled = true;
            Next::Cancelled
        } else {
            self.running = true;
            Next::Start(self.plan[self.next])
        }
    }

    /// Takes in the result of the operation that `advance` started.
    pub fn finish(&mut self, result: &OperationResult)
        requires
            old(self)@.wf(),
            old(self)@.running,
        ensures
            final(self)@ == old(self)@.finish(*result),
            final(self)@.wf(),
    {
        if self.next < self.plan.len() {
            let op = self.plan[self.next];
            self.summary.record(op, result);
            self.next = self.next + 1;
        }
        self.running = false;
    }
}

/// Once cancellation has been requested before an operation would start,
/// that operation does not start, whatever the earlier operations did, and
/// neither does any later one.
pub proof fn cancellation_stops_sequence(s: SequenceView, later: bool)
    requires
        s.wf(),
        !s.running,
    ensures
        !(s.advance(true).1 is Start),
        !(s.advance(true).0.advance(later).1 is Start),
        s.advance(true).0.summary == s.summary,
        s.advance(true).0.next == s.next,
{
}

} // verus!
