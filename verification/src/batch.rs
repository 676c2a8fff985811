//! The parallel task orchestrator's bookkeeping: which work has been handed
//! out, which outcomes have come back, and what the batch as a whole returns.
//!
//! The orchestrator is driven from outside: any number of workers repeatedly
//! ask for the next item, run its invocation, and report the outcome.  The
//! bookkeeping is fail-fast — once a failure is recorded no further item is
//! handed out — but work already handed out may still report its outcome, so
//! in-flight invocations drain naturally instead of being cut short.  Each
//! item is handed out at most once, and exactly one outcome is recorded per
//! handed-out item before the run counts as finished.

use vstd::prelude::*;

use crate::enumerate::WorkItem;
use crate::enumerate::WorkItemView;
use crate::invoke::FailureView;
use crate::invoke::InvocationOutcome;
use crate::invoke::ItemFailure;
use crate::invoke::OutcomeView;
use crate::naming::clone_bytes;

verus! {

/// The first failure among recorded outcomes, earlier outcomes taking
/// precedence, or nothing when every outcome succeeded.
pub open spec fn first_failure(h: Seq<OutcomeView>) -> Option<FailureView>
    decreases h.len(),
{
    if h.len() == 0 {
        None
    } else {
        match first_failure(h.drop_last()) {
            Some(f) => Some(f),
            None => match h.last() {
                OutcomeView::Success => None,
                OutcomeView::Failure(f) => Some(f),
            },
        }
    }
}

/// What a whole run returns: success, or the first observed failure with
/// the failing item's base name and failure kind.
pub enum BatchResult {
    Success,
    Failed(ItemFailure),
}

/// The mathematical content of a batch result.
pub ghost enum BatchView {
    Success,
    Failed(FailureView),
}

impl View for BatchResult {
    type V = BatchView;

    open spec fn view(&self) -> BatchView {
        match self {
            BatchResult::Success => BatchView::Success,
            BatchResult::Failed(f) => BatchView::Failed(f@),
        }
    }
}

/// The batch result determined by a history of recorded outcomes.
pub open spec fn batch_of(h: Seq<OutcomeView>) -> BatchView {
    match first_failure(h) {
        None => BatchView::Success,
        Some(f) => BatchView::Failed(f),
    }
}

/// One run's bookkeeping: the backlog of work, how much of it has been
/// handed out and completed, the first failure if one was recorded, and —
/// as ghost state — every recorded outcome in observation order.
pub struct BatchRun {
    pub items: Vec<WorkItem>,
    pub next: usize,
    pub completed: usize,
    pub failure: Option<ItemFailure>,
    pub history: Ghost<Seq<OutcomeView>>,
}

impl BatchRun {
    /// The whole backlog.
    pub open spec fn backlog(self) -> Seq<WorkItemView> {
        self.items@.map_values(|w: WorkItem| w@)
    }

    /// The items handed out so far, in hand-out order.
    pub open spec fn dispatched(self) -> Seq<WorkItemView> {
        self.backlog().take(self.next as int)
    }

    /// The bookkeeping's invariant: hand-outs never outrun the backlog,
    /// outcomes never outrun hand-outs, exactly one outcome stands in the
    /// history per completed item, and the latched failure is exactly the
    /// first failure of the history.
    pub open spec fn wf(self) -> bool {
        &&& self.completed <= self.next
        &&& self.next <= self.items@.len()
        &&& self.history@.len() == self.completed
        &&& match self.failure {
            Some(f) => first_failure(self.history@) == Some(f@),
            None => first_failure(self.history@) is None,
        }
        &&& forall|i: int| 0 <= i < self.items@.len() ==> (#[trigger] self.items@[i]).wf()
    }

    /// A run is finished when every handed-out item has reported back and
    /// either a failure is latched or the backlog is exhausted.
    pub open spec fn finished(self) -> bool {
        &&& self.completed == self.next
        &&& (self.failure is Some || self.next == self.items@.len())
    }

    /// Opens a run over a backlog of work items.  Nothing is handed out or
    /// recorded yet; an empty backlog makes the run finished — and
    /// successful — at once.
    pub fn start(items: Vec<WorkItem>) -> (b: BatchRun)
        requires
            forall|i: int| 0 <= i < items@.len() ==> (#[trigger] items@[i]).wf(),
        ensures
            b.wf(),
            b.items == items,
            b.backlog() == items@.map_values(|w: WorkItem| w@),
            b.next == 0,
            b.completed == 0,
            b.failure is None,
            b.history@ == Seq::<OutcomeView>::empty(),
    {
        BatchRun {
            items,
            next: 0,
            completed: 0,
            failure: None,
            history: Ghost(Seq::empty()),
        }
    }

    /// Hands out the next unit of work, or nothing when a failure has been
    /// latched or the backlog is exhausted.  Every call that hands out an
    /// item hands out the backlog's next one exactly once: the dispatched
    /// sequence grows by that item and by nothing else.
    pub fn take_next(&mut self) -> (r: Option<WorkItem>)
        requires
            old(self).wf(),
        ensures
            final(self).wf(),
            final(self).items == old(self).items,
            final(self).completed == old(self).completed,
            final(self).failure == old(self).failure,
            final(self).history == old(self).history,
            match r {
                Some(item) => {
                    &&& old(self).failure is None
                    &&& old(self).next < old(self).items@.len()
                    &&& item@ == old(self).backlog()[old(self).next as int]
                    &&& item.wf()
                    &&& final(self).next == old(self).next + 1
                    &&& final(self).dispatched() == old(self).dispatched().push(item@)
                },
                None => {
                    &&& (old(self).failure is Some || old(self).next == old(self).items@.len())
                    &&& final(self).next == old(self).next
                },
            },
    {
        if self.failure.is_some() {
            return None;
        }
        if self.next >= self.items.len() {
            return None;
        }
        let i: usize = self.next;
        self.next = i + 1;
        let item = WorkItem {
            file_name: clone_bytes(&self.items[i].file_name),
            base_name: clone_bytes(&self.items[i].base_name),
        };
        proof {
            assert(self.backlog().take(i as int).push(self.backlog()[i as int]) =~= self
                .backlog().take(i as int + 1));
        }
        Some(item)
    }

    /// Records the outcome of one handed-out invocation.  An outcome is owed
    /// for every handed-out item and for nothing else, so recording requires
    /// an item to be in flight.  The first failing outcome is latched and
    /// becomes the run's terminating cause; later outcomes still drain into
    /// the history but cannot displace it.
    pub fn record(&mut self, outcome: InvocationOutcome)
        requires
            old(self).wf(),
            old(self).completed < old(self).next,
        ensures
            final(self).wf(),
            final(self).items == old(self).items,
            final(self).next == old(self).next,
            final(self).completed == old(self).completed + 1,
            final(self).history@ == old(self).history@.push(outcome@),
            match old(self).failure {
                Some(_) => final(self).failure == old(self).failure,
                None => match outcome@ {
                    OutcomeView::Success => final(self).failure is None,
                    OutcomeView::Failure(f) => final(self).failure matches Some(g) && g@ == f,
                },
            },
    {
        proof {
            assert(old(self).history@.push(outcome@).drop_last() =~= old(self).history@);
        }
        let ghost h = self.history@.push(outcome@);
        self.completed = self.completed + 1;
        self.history = Ghost(h);
        if self.failure.is_none() {
            match outcome {
                InvocationOutcome::Success => {},
                InvocationOutcome::Failure(f) => {
                    self.failure = Some(f);
                },
            }
        }
    }

    /// Whether the run is finished: all handed-out work has reported back
    /// and no more will be handed out.
    pub fn is_finished(&self) -> (r: bool)
        ensures
            r == self.finished(),
    {
        self.completed == self.next && (self.failure.is_some() || self.next == self.items.len())
    }

    /// The finished run's aggregate: success exactly when no recorded
    /// outcome failed, and otherwise the first observed failure, naming the
    /// failing item.
    pub fn result(&self) -> (r: BatchResult)
        requires
            self.wf(),
            self.finished(),
        ensures
            r@ == batch_of(self.history@),
            r is Success <==> self.failure is None,
    {
        match &self.failure {
            None => BatchResult::Success,
            Some(f) => BatchResult::Failed(
                ItemFailure { base_name: clone_bytes(&f.base_name), kind: f.kind },
            ),
        }
    }
}

/// A batch over an empty backlog is finished before any work is handed out,
/// and it succeeds: nothing was run, nothing failed, and no artifact is owed.
pub proof fn lemma_empty_batch_succeeds(b: BatchRun)
    requires
        b.wf(),
        b.backlog().len() == 0,
    ensures
        b.finished(),
        b.failure is None,
        batch_of(b.history@) == BatchView::Success,
        b.dispatched().len() == 0,
{
}

/// A history in which every outcome succeeded holds no failure.
pub proof fn lemma_all_success_no_failure(h: Seq<OutcomeView>)
    requires
        forall|k: int| 0 <= k < h.len() ==> h[k] is Success,
    ensures
        first_failure(h) is None,
    decreases h.len(),
{
    if h.len() > 0 {
        assert forall|k: int| 0 <= k < h.drop_last().len() implies h.drop_last()[k]
            is Success by {
            assert(h.drop_last()[k] == h[k]);
        }
        lemma_all_success_no_failure(h.drop_last());
        assert(h.last() == h[h.len() - 1]);
    }
}

/// When every recorded outcome succeeded, a finished run's result is
/// success, every item of the backlog was handed out exactly once, and
/// exactly one outcome was recorded per item.
pub proof fn lemma_all_success_batch(b: BatchRun)
    requires
        b.wf(),
        b.finished(),
        forall|k: int| 0 <= k < b.history@.len() ==> b.history@[k] is Success,
    ensures
        batch_of(b.history@) == BatchView::Success,
        b.failure is None,
        b.dispatched() =~= b.backlog(),
        b.history@.len() == b.backlog().len(),
{
    lemma_all_success_no_failure(b.history@);
}

/// When exactly one recorded outcome failed, the batch's result is failure,
/// and it identifies exactly that outcome's item and failure kind.
pub proof fn lemma_single_failure_identified(h: Seq<OutcomeView>, k: int)
    requires
        0 <= k < h.len(),
        h[k] is Failure,
        forall|j: int| 0 <= j < h.len() && j != k ==> h[j] is Success,
    ensures
        h[k] matches OutcomeView::Failure(f) && batch_of(h) == BatchView::Failed(f),
    decreases h.len(),
{
    if k == h.len() - 1 {
        assert forall|j: int| 0 <= j < h.drop_last().len() implies h.drop_last()[j]
            is Success by {
            assert(h.drop_last()[j] == h[j]);
        }
        lemma_all_success_no_failure(h.drop_last());
        assert(h.last() == h[k]);
    } else {
        assert(h.drop_last()[k] == h[k]);
        assert forall|j: int| 0 <= j < h.drop_last().len() && j != k implies h.drop_last()[j]
            is Success by {
            assert(h.drop_last()[j] == h[j]);
        }
        lemma_single_failure_identified(h.drop_last(), k);
        assert(h.last() == h[h.len() - 1]);
    }
}

/// A finished run that latched no failure has handed out the whole backlog —
/// each item exactly once, in backlog order — and collected exactly one
/// outcome per item: no item is skipped, none is processed twice.
pub proof fn lemma_finished_run_covers_backlog(b: BatchRun)
    requires
        b.wf(),
        b.finished(),
        b.failure is None,
    ensures
        b.dispatched() =~= b.backlog(),
        b.history@.len() == b.backlog().len(),
{
}

} // verus!
