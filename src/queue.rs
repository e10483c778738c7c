//! Bounded FIFO of sensor samples with a drop-on-full policy.

use std::collections::VecDeque;
use vstd::prelude::*;

verus! {

/// Number of samples the queue holds at most.
pub const CAPACITY: usize = 10;

/// The state after one insertion attempt: the sample is appended when there is
/// room, otherwise the queue is left as it was.
pub open spec fn enqueue_model(items: Seq<u16>, s: u16) -> Seq<u16> {
    if items.len() < CAPACITY {
        items.push(s)
    } else {
        items
    }
}

/// The state after one removal: the oldest sample leaves, if there is one.
pub open spec fn dequeue_model(items: Seq<u16>) -> Seq<u16> {
    if items.len() > 0 {
        items.drop_first()
    } else {
        items
    }
}

/// What one call of [`SampleQueue::dequeue_within`] asks of its caller.
#[derive(Clone, Copy, Debug, PartialEq, Eq, Structural)]
pub enum WaitStep {
    /// The oldest sample, now removed from the queue.
    Item(u16),
    /// Nothing yet: suspend for at most this many milliseconds, then ask again.
    Wait(u32),
    /// The wait has run out with nothing to take.
    TimedOut,
}

/// A bounded FIFO channel of samples. Attempts to insert into a full queue are
/// refused and counted.
pub struct SampleQueue {
    items: VecDeque<u16>,
    dropped: u64,
}

impl View for SampleQueue {
    type V = Seq<u16>;

    closed spec fn view(&self) -> Seq<u16> {
        self.items@
    }
}

impl SampleQueue {
    /// Number of refused insertions so far (saturating at `u64::MAX`).
    pub closed spec fn drop_count(&self) -> u64 {
        self.dropped
    }

    /// The queue never holds more than its capacity.
    pub open spec fn wf(&self) -> bool {
        self@.len() <= CAPACITY
    }

    /// An empty queue with no drops recorded.
    pub fn new() -> (r: SampleQueue)
        ensures
            r.wf(),
            r@ == Seq::<u16>::empty(),
            r.drop_count() == 0,
    {
        SampleQueue { items: VecDeque::new(), dropped: 0 }
    }

    /// Current occupancy.
    pub fn len(&self) -> (r: usize)
        ensures
            r == self@.len(),
    {
        self.items.len()
    }

    /// True when no sample is waiting.
    pub fn is_empty(&self) -> (r: bool)
        ensures
            r == (self@.len() == 0),
    {
        self.items.len() == 0
    }

    /// True when occupancy has reached capacity.
    pub fn is_full(&self) -> (r: bool)
        requires
            self.wf(),
        ensures
            r == (self@.len() == CAPACITY),
    {
        self.items.len() >= CAPACITY
    }

    /// Number of refused insertions so far.
    pub fn dropped(&self) -> (r: u64)
        ensures
            r == self.drop_count(),
    {
        self.dropped
    }

    /// Inserts `sample` without waiting. Returns false and leaves the contents
    /// unchanged when the queue is full; the refusal is counted.
    pub fn try_enqueue(&mut self, sample: u16) -> (r: bool)
        requires
            old(self).wf(),
        ensures
            final(self).wf(),
            r == (old(self)@.len() < CAPACITY),
            final(self)@ == enqueue_model(old(self)@, sample),
            final(self).drop_count() == if r {
                old(self).drop_count()
            } else {
                old(self).drop_count().saturating_add(1)
            },
    {
        if self.items.len() < CAPACITY {
            self.items.push_back(sample);
            true
        } else {
            self.dropped = self.dropped.saturating_add(1);
            false
        }
    }

    /// Removes and returns the oldest sample, or `None` when the queue is empty.
    pub fn try_dequeue(&mut self) -> (r: Option<u16>)
        requires
            old(self).wf(),
        ensures
            final(self).wf(),
            final(self)@ == dequeue_model(old(self)@),
            final(self).drop_count() == old(self).drop_count(),
            r == if old(self)@.len() > 0 {
                Some(old(self)@[0])
            } else {
                None::<u16>
            },
    {
        self.items.pop_front()
    }

    /// One decision of a dequeue with a bounded wait, `waited_ms` into a wait of
    /// `timeout_ms`. A waiting sample is taken at once; on an empty queue the
    /// caller is told how much of the wait is left, or that it has run out.
    pub fn dequeue_within(&mut self, waited_ms: u32, timeout_ms: u32) -> (r: WaitStep)
        requires
            old(self).wf(),
        ensures
            final(self).wf(),
            final(self)@ == dequeue_model(old(self)@),
            final(self).drop_count() == old(self).drop_count(),
            old(self)@.len() > 0 ==> r == WaitStep::Item(old(self)@[0]),
            old(self)@.len() == 0 && waited_ms >= timeout_ms ==> r == WaitStep::TimedOut,
            old(self)@.len() == 0 && waited_ms < timeout_ms ==> r == WaitStep::Wait(
                (timeout_ms - waited_ms) as u32,
            ),
    {
        match self.try_dequeue() {
            Some(s) => WaitStep::Item(s),
            None => {
                if waited_ms >= timeout_ms {
                    WaitStep::TimedOut
                } else {
                    WaitStep::Wait(timeout_ms - waited_ms)
                }
            },
        }
    }
}

} // verus!
