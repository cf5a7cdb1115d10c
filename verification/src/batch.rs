//! The dispatcher of a phase: it hands out the units of work of a phase in
//! order, never more at once than the phase allows, and knows when the phase
//! is over.

use vstd::prelude::*;

use crate::komga::Series;
use crate::sync::{is_queue_of, Phase};

verus! {

/// What the caller of a batch is to do next.
#[derive(Debug, Clone, Copy, PartialEq, Eq, Structural)]
pub enum Dispatch {
    /// Start the unit of work for the series at this position.
    Start(usize),
    /// Wait until a unit in flight has completed, and report it.
    Wait,
    /// Every unit has completed: the phase is over.
    Finished,
}

/// The state of a batch.
pub struct BatchView {
    /// How many units may be in flight at once.
    pub limit: nat,
    /// How many series the phase has read.
    pub total: nat,
    /// The positions of the series to work on, in the order of dispatch.
    pub queue: Seq<usize>,
    /// How many units have been started.
    pub started: nat,
    /// How many of them have completed.
    pub finished: nat,
}

impl BatchView {
    /// What holds of every batch: units complete after they start and start
    /// only from the queue, and no more are in flight than the limit allows.
    pub open spec fn wf(self) -> bool {
        &&& self.limit > 0
        &&& self.finished <= self.started <= self.queue.len() <= self.total
        &&& self.started - self.finished <= self.limit
    }

    /// The state of a batch over `queue` before anything has been started.
    pub open spec fn fresh(limit: nat, total: nat, queue: Seq<usize>) -> BatchView {
        BatchView { limit, total, queue, started: 0, finished: 0 }
    }

    /// How many units are in flight.
    pub open spec fn in_flight(self) -> nat {
        (self.started - self.finished) as nat
    }

    /// How many series are done with: those that the phase does not work on,
    /// and those whose unit has completed, whatever came of it.
    pub open spec fn progress(self) -> nat {
        (self.total - self.queue.len() + self.finished) as nat
    }

    /// Whether every unit of the batch has completed.
    pub open spec fn is_done(self) -> bool {
        self.finished == self.queue.len()
    }

    /// Whether a unit can be started now.
    pub open spec fn can_start(self) -> bool {
        self.started < self.queue.len() && self.in_flight() < self.limit
    }

    /// What the caller is to do next.
    pub open spec fn dispatch(self) -> Dispatch {
        if self.can_start() {
            Dispatch::Start(self.queue[self.started as int])
        } else if self.in_flight() > 0 {
            Dispatch::Wait
        } else {
            Dispatch::Finished
        }
    }

    /// The state after the caller has been told what to do next.
    pub open spec fn after_dispatch(self) -> BatchView {
        if self.can_start() {
            BatchView { started: self.started + 1, ..self }
        } else {
            self
        }
    }

    /// The state after the caller has reported that a unit completed. A
    /// report with nothing in flight changes nothing.
    pub open spec fn after_completion(self) -> BatchView {
        if self.in_flight() > 0 {
            BatchView { finished: self.finished + 1, ..self }
        } else {
            self
        }
    }
}

/// A strictly rising sequence of positions below `bound` is no longer than
/// `bound`.
pub proof fn lemma_rising_is_short(queue: Seq<usize>, bound: nat)
    requires
        forall|k: int| 0 <= k < queue.len() ==> #[trigger] queue[k] < bound,
        forall|a: int, b: int| 0 <= a < b < queue.len() ==> queue[a] < queue[b],
    ensures
        queue.len() <= bound,
        forall|k: int| 0 <= k < queue.len() ==> k <= #[trigger] queue[k],
    decreases queue.len(),
{
    if queue.len() > 0 {
        let front = queue.drop_last();
        lemma_rising_is_short(front, bound);
        let last = queue.len() - 1;
        assert forall|k: int| 0 <= k < queue.len() implies k <= #[trigger] queue[k] by {
            if k < last {
                assert(front[k] == queue[k]);
            } else if last > 0 {
                assert(front[last - 1] == queue[last - 1]);
                assert(queue[last - 1] < queue[last]);
            }
        }
        assert(last <= queue[last]);
    }
}

/// The units of work of one phase over the series that it has read.
pub struct Batch {
    limit: usize,
    total: usize,
    queue: Vec<usize>,
    started: usize,
    finished: usize,
}

impl View for Batch {
    type V = BatchView;

    closed spec fn view(&self) -> BatchView {
        BatchView {
            limit: self.limit as nat,
            total: self.total as nat,
            queue: self.queue@,
            started: self.started as nat,
            finished: self.finished as nat,
        }
    }
}

impl Batch {
    #[verifier::type_invariant]
    spec fn valid(self) -> bool {
        self@.wf()
    }

    /// The batch of `phase` over `series`: nothing started yet, and in the
    /// queue the series that the phase works on.
    pub fn new(phase: Phase, series: &Vec<Series>) -> (batch: Batch)
        ensures
            batch@ == BatchView::fresh(phase.spec_limit(), series@.len(), batch@.queue),
            is_queue_of(batch@.queue, phase, series@),
            batch@.wf(),
    {
        let queue = phase.queue(series);
        proof {
            lemma_rising_is_short(queue@, series@.len());
        }
        Batch { limit: phase.limit(), total: series.len(), queue, started: 0, finished: 0 }
    }

    /// Tells the caller what to do next, and counts a unit as started where
    /// it is told to start one.
    pub fn next(&mut self) -> (dispatch: Dispatch)
        ensures
            old(self)@.wf(),
            dispatch == old(self)@.dispatch(),
            final(self)@ == old(self)@.after_dispatch(),
            final(self)@.wf(),
    {
        proof {
            use_type_invariant(&*self);
        }
        if self.started < self.queue.len() && self.started - self.finished < self.limit {
            let position = self.queue[self.started];
            self.started = self.started + 1;
            Dispatch::Start(position)
        } else if self.started > self.finished {
            Dispatch::Wait
        } else {
            Dispatch::Finished
        }
    }

    /// Counts a unit in flight as completed, whatever came of it. Tells
    /// whether one was in flight.
    pub fn complete(&mut self) -> (counted: bool)
        ensures
            old(self)@.wf(),
            counted == (old(self)@.in_flight() > 0),
            final(self)@ == old(self)@.after_completion(),
            final(self)@.wf(),
    {
        proof {
            use_type_invariant(&*self);
        }
        if self.started > self.finished {
            self.finished = self.finished + 1;
            true
        } else {
            false
        }
    }

    /// How many units are in flight: never more than the limit.
    pub fn in_flight(&self) -> (count: usize)
        ensures
            count == self@.in_flight(),
            count <= self@.limit,
    {
        proof {
            use_type_invariant(self);
        }
        self.started - self.finished
    }

    /// How many series are done with, out of `total`.
    pub fn progress(&self) -> (count: usize)
        ensures
            count == self@.progress(),
            count <= self@.total,
    {
        proof {
            use_type_invariant(self);
        }
        self.total - self.queue.len() + self.finished
    }

    /// How many series the phase has read.
    pub fn total(&self) -> (count: usize)
        ensures
            count == self@.total,
    {
        self.total
    }

    /// Whether every unit of the batch has completed.
    pub fn is_done(&self) -> (done: bool)
        ensures
            done == self@.is_done(),
    {
        self.finished == self.queue.len()
    }
}

/// Each step of a batch keeps it well formed, so that never more units are in
/// flight than the limit allows. The batch is told to finish exactly when
/// every unit has completed, and to wait only while a unit is in flight. A
/// unit that is started is the next of the queue, and each completion moves
/// the progress on by one.
pub proof fn lemma_batch_steps(batch: BatchView)
    requires
        batch.wf(),
    ensures
        batch.after_dispatch().wf(),
        batch.after_completion().wf(),
        batch.in_flight() <= batch.limit,
        batch.dispatch() == Dispatch::Finished <==> batch.is_done(),
        batch.dispatch() == Dispatch::Wait ==> batch.in_flight() > 0,
        batch.dispatch() matches Dispatch::Start(position) ==> position
            == batch.queue[batch.started as int] && batch.after_dispatch().started
            == batch.started + 1,
        batch.after_dispatch().progress() == batch.progress(),
        batch.in_flight() > 0 ==> batch.after_completion().progress() == batch.progress() + 1,
        batch.progress() <= batch.total,
        batch.is_done() <==> batch.progress() == batch.total,
{
}

/// A phase over a catalog without series is over at once: its queue is empty
/// and its batch is told to finish before anything is started.
pub proof fn lemma_empty_catalog_is_finished(phase: Phase, queue: Seq<usize>)
    requires
        is_queue_of(queue, phase, Seq::empty()),
    ensures
        queue.len() == 0,
        BatchView::fresh(phase.spec_limit(), 0, queue).dispatch() == Dispatch::Finished,
        BatchView::fresh(phase.spec_limit(), 0, queue).is_done(),
{
    if queue.len() > 0 {
        assert(queue[0] < 0);
    }
}

/// A phase over series that it does not work on is over at once, and all of
/// them count as done with.
pub proof fn lemma_nothing_eligible_is_finished(phase: Phase, series: Seq<Series>, queue: Seq<usize>)
    requires
        is_queue_of(queue, phase, series),
        forall|p: int| 0 <= p < series.len() ==> !phase.admits((#[trigger] series[p])@.metadata),
    ensures
        queue.len() == 0,
        BatchView::fresh(phase.spec_limit(), series.len(), queue).dispatch() == Dispatch::Finished,
        BatchView::fresh(phase.spec_limit(), series.len(), queue).progress() == series.len(),
{
    if queue.len() > 0 {
        assert(phase.admits(series[queue[0] as int]@.metadata));
    }
}

} // verus!
