//! The ordered, single-consumer progress stream.
//!
//! The orchestrator emits progress events; the control surface drains them
//! on its own tick, one per poll, and tolerates "no event yet" as a no-op.
//! The queue is unbounded, so the producer never stalls, and events are
//! delivered in emission order with none skipped, duplicated or reordered.

use vstd::prelude::*;

use crate::events::ProgressEvent;

verus! {

/// The event stream of one orchestrator lifetime. The ghost emission and
/// delivery histories make the ordering guarantee a stated invariant.
pub struct Reporter {
    queue: Vec<ProgressEvent>,
    emitted: Ghost<Seq<ProgressEvent>>,
    delivered: Ghost<Seq<ProgressEvent>>,
}

impl Reporter {
    /// Every event emitted so far, in emission order.
    pub closed spec fn emitted(self) -> Seq<ProgressEvent> {
        self.emitted@
    }

    /// Every event the consumer has received so far, in delivery order.
    pub closed spec fn delivered(self) -> Seq<ProgressEvent> {
        self.delivered@
    }

    /// How many events are queued, not yet delivered.
    pub closed spec fn pending(self) -> nat {
        self.queue@.len()
    }

    /// What was emitted is exactly what was delivered followed by what is
    /// still queued: nothing is lost, duplicated or reordered.
    pub closed spec fn wf(self) -> bool {
        self.emitted@ == self.delivered@ + self.queue@
    }

    /// A fresh, empty stream.
    pub fn new() -> (r: Reporter)
        ensures
            r.wf(),
            r.emitted() == Seq::<ProgressEvent>::empty(),
            r.delivered() == Seq::<ProgressEvent>::empty(),
            r.pending() == 0,
    {
        let r = Reporter {
            queue: Vec::new(),
            emitted: Ghost(Seq::empty()),
            delivered: Ghost(Seq::empty()),
        };
        proof {
            assert(r.emitted@ =~= r.delivered@ + r.queue@);
        }
        r
    }

    /// Queues one event; the producer never blocks.
    pub fn emit(&mut self, ev: ProgressEvent)
        requires
            old(self).wf(),
        ensures
            final(self).wf(),
            final(self).emitted() == old(self).emitted().push(ev),
            final(self).delivered() == old(self).delivered(),
            final(self).pending() == old(self).pending() + 1,
    {
        self.queue.push(ev);
        proof {
            self.emitted@ = self.emitted@.push(ev);
            assert(self.emitted@ =~= self.delivered@ + self.queue@);
        }
    }

    /// One consumer poll: the oldest undelivered event, or `None` when the
    /// queue is empty — never an error, never a wait.
    pub fn poll(&mut self) -> (r: Option<ProgressEvent>)
        requires
            old(self).wf(),
        ensures
            final(self).wf(),
            final(self).emitted() == old(self).emitted(),
            old(self).pending() == 0 ==> r is None && *final(self) == *old(self),
            old(self).pending() > 0 ==> {
                &&& r == Some(old(self).emitted()[old(self).delivered().len() as int])
                &&& final(self).delivered() == old(self).delivered().push(r.unwrap())
                &&& final(self).pending() == old(self).pending() - 1
            },
    {
        if self.queue.len() == 0 {
            None
        } else {
            let ev = self.queue.remove(0);
            proof {
                self.delivered@ = self.delivered@.push(ev);
                assert(self.emitted@ =~= self.delivered@ + self.queue@);
            }
            Some(ev)
        }
    }

    /// Delivery order: at every moment, what has been delivered is exactly
    /// the first part of what was emitted, in emission order; once the
    /// queue is drained, the consumer has seen every event.
    pub proof fn lemma_delivery_order(self)
        requires
            self.wf(),
        ensures
            self.delivered() == self.emitted().take(self.delivered().len() as int),
            self.pending() == 0 ==> self.delivered() == self.emitted(),
    {
        assert(self.delivered@ =~= self.emitted@.take(self.delivered@.len() as int));
        if self.queue@.len() == 0 {
            assert(self.delivered@ =~= self.emitted@);
        }
    }
}

} // verus!
