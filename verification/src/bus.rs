//! Event bus: a bounded, ordered queue of domain events with multiple
//! producers and exactly one consumer.
//!
//! This is the bus's state machine: `try_send` and `try_receive` are the
//! decisions taken under the bus's lock. The blocking behaviour — a producer
//! suspending on a full queue until the dispatcher drains a slot, the
//! dispatcher suspending on an empty one — is the surrounding task runtime's
//! loop around these steps: a refused `try_send` hands the event back
//! untouched, so waiting never loses an event.

use vstd::prelude::*;

use crate::event::Event;

verus! {

/// Capacity of the system's event queue.
pub const EVENT_QUEUE_CAPACITY: usize = 32;

/// Bounded FIFO queue of domain events.
pub struct EventBus {
    /// Queued events, oldest first.
    pub queue: Vec<Event>,
    /// How many events the bus holds at most.
    pub capacity: usize,
}

impl EventBus {
    /// Well-formedness: the queue never exceeds its capacity.
    pub open spec fn wf(&self) -> bool {
        self.queue@.len() <= self.capacity
    }

    /// Creates an empty bus with the given capacity.
    pub fn new(capacity: usize) -> (b: Self)
        ensures
            b.wf(),
            b.queue@ == Seq::<Event>::empty(),
            b.capacity == capacity,
    {
        Self { queue: Vec::new(), capacity }
    }

    /// How many events are queued.
    pub fn len(&self) -> (r: usize)
        ensures
            r == self.queue@.len(),
    {
        self.queue.len()
    }

    /// Whether the queue is at capacity.
    pub fn is_full(&self) -> (r: bool)
        ensures
            r == (self.queue@.len() >= self.capacity),
    {
        self.queue.len() >= self.capacity
    }

    /// Enqueues an event at the back when a slot is free; on a full queue
    /// the event is handed back unchanged and nothing is lost — the caller
    /// must wait for the consumer to drain a slot and try again
    /// (backpressure, never silent dropping).
    pub fn try_send(&mut self, event: Event) -> (r: Result<(), Event>)
        requires
            old(self).wf(),
        ensures
            final(self).wf(),
            final(self).capacity == old(self).capacity,
            old(self).queue@.len() < old(self).capacity ==> {
                &&& r == Ok::<(), Event>(())
                &&& final(self).queue@ == old(self).queue@.push(event)
            },
            old(self).queue@.len() >= old(self).capacity ==> {
                &&& r == Err::<(), Event>(event)
                &&& final(self).queue@ == old(self).queue@
            },
    {
        if self.queue.len() >= self.capacity {
            return Err(event);
        }
        self.queue.push(event);
        Ok(())
    }

    /// Dequeues the oldest event, or yields none on an empty queue — the
    /// consumer must wait for a producer and try again.
    pub fn try_receive(&mut self) -> (r: Option<Event>)
        requires
            old(self).wf(),
        ensures
            final(self).wf(),
            final(self).capacity == old(self).capacity,
            old(self).queue@.len() == 0 ==> {
                &&& r is None
                &&& final(self).queue@ == old(self).queue@
            },
            old(self).queue@.len() > 0 ==> {
                &&& r == Some(old(self).queue@[0])
                &&& final(self).queue@ == old(self).queue@.drop_first()
            },
    {
        if self.queue.len() == 0 {
            return None;
        }
        let event = self.queue.remove(0);
        proof {
            assert(self.queue@ =~= old(self).queue@.drop_first());
        }
        Some(event)
    }
}

/// Ordering law: the bus is first-in first-out. Enqueueing `a` then `b`
/// keeps every earlier event in place and queues `a` ahead of `b`, and
/// `try_receive` always yields position `0` — so events leave in exactly the
/// order they were enqueued.
pub proof fn lemma_bus_fifo(q: Seq<Event>, a: Event, b: Event)
    ensures
        q.push(a).push(b).len() == q.len() + 2,
        forall|i: int| 0 <= i < q.len() ==> q.push(a).push(b)[i] == q[i],
        q.push(a).push(b)[q.len() as int] == a,
        q.push(a).push(b)[q.len() as int + 1] == b,
{
}

} // verus!
