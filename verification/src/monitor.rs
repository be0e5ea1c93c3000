//! The monitoring queue: a bounded first-in-first-out record of the most
//! recent hardware events, kept for diagnostic consumption. Past the bound
//! the oldest entry is dropped.
use std::collections::VecDeque;
use vstd::prelude::*;

use crate::keys::Event;

verus! {

/// How many events the monitoring queue holds at most.
pub const MONITORING_CAPACITY: usize = 40;

/// A bounded queue of the most recent events, oldest first.
pub struct MonitoringQueue {
    pub queue: VecDeque<Event>,
}

/// A bounded append: the event goes to the back, and when the queue already
/// held the full bound, the front entry leaves.
pub open spec fn spec_monitor_push(q: Seq<Event>, e: Event) -> Seq<Event> {
    if q.len() < MONITORING_CAPACITY {
        q.push(e)
    } else {
        q.push(e).drop_first()
    }
}

impl MonitoringQueue {
    /// The queue never outgrows its bound.
    pub open spec fn wf(&self) -> bool {
        self.queue@.len() <= MONITORING_CAPACITY
    }

    /// An empty queue.
    pub fn new() -> (r: MonitoringQueue)
        ensures
            r.wf(),
            r.queue@ == Seq::<Event>::empty(),
    {
        let r = MonitoringQueue { queue: VecDeque::new() };
        proof {
            assert(r.queue@ =~= Seq::<Event>::empty());
        }
        r
    }

    /// Appends one event, dropping the oldest entry when the bound is
    /// reached.
    pub fn push(&mut self, e: Event)
        requires
            old(self).wf(),
        ensures
            final(self).wf(),
            final(self).queue@ == spec_monitor_push(old(self).queue@, e),
    {
        self.queue.push_back(e);
        if self.queue.len() > MONITORING_CAPACITY {
            self.queue.pop_front();
            proof {
                assert(self.queue@ =~= old(self).queue@.push(e).drop_first());
            }
        }
    }

    /// How many events are recorded.
    pub fn len(&self) -> (r: usize)
        ensures
            r == self.queue@.len(),
    {
        self.queue.len()
    }

    /// A copy of the recorded events, oldest first.
    pub fn snapshot(&self) -> (r: Vec<Event>)
        ensures
            r@ == self.queue@,
    {
        let mut out: Vec<Event> = Vec::new();
        let mut i: usize = 0;
        while i < self.queue.len()
            invariant
                i <= self.queue@.len(),
                out@ == self.queue@.take(i as int),
            decreases self.queue@.len() - i,
        {
            let e = *(&self.queue[i]);
            out.push(e);
            proof {
                assert(out@ =~= self.queue@.take(i + 1));
            }
            i += 1;
        }
        proof {
            assert(self.queue@.take(i as int) =~= self.queue@);
        }
        out
    }
}

} // verus!
