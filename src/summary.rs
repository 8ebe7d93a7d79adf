use vstd::prelude::*;
use crate::catalog::OperationId;
use crate::error::UpdateError;
use crate::operation::OperationResult;
use crate::text::views;

verus! {

/// What a run did: whether each operation applied an update, and one
/// message for each operation that failed, in the order they were recorded.
#[derive(Debug)]
pub struct UpdateSummary {
    pub system_updated: bool,
    pub flatpak_updated: bool,
    pub firmware_updated: bool,
    pub errors: Vec<String>,
}

/// A summary as plain values.
pub ghost struct SummaryView {
    pub system: bool,
    pub flatpak: bool,
    pub firmware: bool,
    pub errors: Seq<Seq<char>>,
}

impl View for UpdateSummary {
    type V = SummaryView;

    open spec fn view(&self) -> SummaryView {
        SummaryView {
            system: self.system_updated,
            flatpak: self.flatpak_updated,
            firmware: self.firmware_updated,
            errors: views(self.errors@),
        }
    }
}

impl SummaryView {
    /// The summary of a run in which nothing has happened yet.
    pub open spec fn empty() -> SummaryView {
        SummaryView { system: false, flatpak: false, firmware: false, errors: Seq::empty() }
    }

    /// Whether the operation applied an update.
    pub open spec fn updated(self, op: OperationId) -> bool {
        match op {
            OperationId::System => self.system,
            OperationId::Flatpak => self.flatpak,
            OperationId::Firmware => self.firmware,
        }
    }

    /// The summary with the operation's flag raised.
    pub open spec fn mark(self, op: OperationId) -> SummaryView {
        match op {
            OperationId::System => SummaryView { system: true, ..self },
            OperationId::Flatpak => SummaryView { flatpak: true, ..self },
            OperationId::Firmware => SummaryView { firmware: true, ..self },
        }
    }

    /// The summary once the operation's result is folded in: an update
    /// raises its flag, a failure adds its message, anything else leaves
    /// the summary as it was.
    pub open spec fn apply(self, op: OperationId, result: OperationResult) -> SummaryView {
        match result {
            OperationResult::Completed { updated } => if updated {
                self.mark(op)
            } else {
                self
            },
            OperationResult::Skipped => self,
            OperationResult::Failed(e) => SummaryView { errors: self.errors.push(e.message_spec()), ..self },
        }
    }
}

/// The summary of the results of `ops`, folded in order from an empty one.
pub open spec fn fold_results(ops: Seq<OperationId>, results: Seq<OperationResult>) -> SummaryView
    decreases ops.len(),
{
    if ops.len() == 0 || results.len() == 0 {
        SummaryView::empty()
    } else {
        fold_results(ops.drop_last(), results.drop_last()).apply(ops.last(), results.last())
    }
}

impl UpdateSummary {
    /// A summary with no update and no error.
    pub fn new() -> (r: UpdateSummary)
        ensures
            r@ == SummaryView::empty(),
    {
        let r = UpdateSummary {
            system_updated: false,
            flatpak_updated: false,
            firmware_updated: false,
            errors: Vec::new(),
        };
        assert(r@.errors =~= Seq::<Seq<char>>::empty());
        r
    }

    /// Whether the operation applied an update.
    pub fn updated(&self, op: OperationId) -> (r: bool)
        ensures
            r == self@.updated(op),
    {
        match op {
            OperationId::System => self.system_updated,
            OperationId::Flatpak => self.flatpak_updated,
            OperationId::Firmware => self.firmware_updated,
        }
    }

    /// Folds one operation's result in.
    pub fn record(&mut self, op: OperationId, result: &OperationResult)
        ensures
            final(self)@ == old(self)@.apply(op, *result),
    {
        match result {
            OperationResult::Completed { updated } => {
                if *updated {
                    match op {
                        OperationId::System => self.system_updated = true,
                        OperationId::Flatpak => self.flatpak_updated = true,
                        OperationId::Firmware => self.firmware_updated = true,
                    }
                }
            },
            OperationResult::Skipped => {},
            OperationResult::Failed(e) => {
                let m = e.message();
                let ghost before = self.errors@;
                self.errors.push(m);
                assert(views(self.errors@) =~= views(before).push(e.message_spec()));
            },
        }
    }
}

impl Default for UpdateSummary {
    fn default() -> (r: UpdateSummary)
        ensures
            r@ == SummaryView::empty(),
    {
        UpdateSummary::new()
    }
}

/// Folds the results of operations that ran side by side, after all of
/// them have finished: each result is taken in, whatever the others were.
pub fn fold_concurrent(ops: &Vec<OperationId>, results: &Vec<OperationResult>) -> (r: UpdateSummary)
    requires
        ops@.len() == results@.len(),
    ensures
        r@ == fold_results(ops@, results@),
{
    let mut s = UpdateSummary::new();
    let mut i: usize = 0;
    while i < ops.len()
        invariant
            i <= ops@.len(),
            ops@.len() == results@.len(),
            s@ == fold_results(ops@.subrange(0, i as int), results@.subrange(0, i as int)),
        decreases ops.len() - i,
    {
        proof {
            let o = ops@.subrange(0, i + 1);
            let rs = results@.subrange(0, i + 1);
            assert(o.drop_last() =~= ops@.subrange(0, i as int));
            assert(rs.drop_last() =~= results@.subrange(0, i as int));
        }
        s.record(ops[i], &results[i]);
        i = i + 1;
    }
    assert(ops@.subrange(0, i as int) =~= ops@);
    assert(results@.subrange(0, i as int) =~= results@);
    s
}

/// A skipped operation leaves the summary exactly as it was: no error is
/// added and its flag is not raised.
pub proof fn skipped_leaves_summary(s: SummaryView, op: OperationId)
    ensures
        s.apply(op, OperationResult::Skipped) == s,
        SummaryView::empty().apply(op, OperationResult::Skipped).updated(op) == false,
        SummaryView::empty().apply(op, OperationResult::Skipped).errors.len() == 0,
{
}

/// When the three operations run side by side and the second one fails,
/// the first and third still have their own outcomes in the summary, and
/// the failure is the one error recorded.
pub proof fn sibling_failure_is_isolated(u1: bool, e: UpdateError, u3: bool)
    ensures
        ({
            let s = fold_results(
                seq![OperationId::System, OperationId::Flatpak, OperationId::Firmware],
                seq![
                    OperationResult::Completed { updated: u1 },
                    OperationResult::Failed(e),
                    OperationResult::Completed { updated: u3 },
                ],
            );
            &&& s.updated(OperationId::System) == u1
            &&& s.updated(OperationId::Flatpak) == false
            &&& s.updated(OperationId::Firmware) == u3
            &&& s.errors == seq![e.message_spec()]
        }),
{
    let ops = seq![OperationId::System, OperationId::Flatpak, OperationId::Firmware];
    let rs = seq![
        OperationResult::Completed { updated: u1 },
        OperationResult::Failed(e),
        OperationResult::Completed { updated: u3 },
    ];
    assert(ops.drop_last() =~= seq![OperationId::System, OperationId::Flatpak]);
    assert(ops.drop_last().drop_last() =~= seq![OperationId::System]);
    assert(ops.drop_last().drop_last().drop_last() =~= Seq::<OperationId>::empty());
    assert(rs.drop_last() =~= seq![
        OperationResult::Completed { updated: u1 },
        OperationResult::Failed(e),
    ]);
    assert(rs.drop_last().drop_last() =~= seq![OperationResult::Completed { updated: u1 }]);
    assert(rs.drop_last().drop_last().drop_last() =~= Seq::<OperationResult>::empty());
    let s0 = SummaryView::empty();
    assert(fold_results(ops.drop_last().drop_last().drop_last(), rs.drop_last().drop_last().drop_last()) == s0);
    let s1 = fold_results(ops.drop_last().drop_last(), rs.drop_last().drop_last());
    assert(s1 == s0.apply(OperationId::System, OperationResult::Completed { updated: u1 }));
    let s2 = fold_results(ops.drop_last(), rs.drop_last());
    assert(s2 == s1.apply(OperationId::Flatpak, OperationResult::Failed(e)));
    assert(s2.errors =~= seq![e.message_spec()]);
}

} // verus!
