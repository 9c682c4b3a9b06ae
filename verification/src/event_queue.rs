use vstd::prelude::*;

use std::collections::VecDeque;

use crate::event::Event;

verus! {

/// A strict FIFO queue of events: enqueue appends at the tail, dequeue
/// removes from the head, and delivery order equals insertion order — no
/// priority, no deduplication.
pub struct EventQueue {
    events: VecDeque<Event>,
}

impl View for EventQueue {
    type V = Seq<Event>;

    /// The queued events, head first.
    closed spec fn view(&self) -> Seq<Event> {
        self.events@
    }
}

impl EventQueue {
    pub fn new() -> (r: Self)
        ensures
            r@ == Seq::<Event>::empty(),
    {
        EventQueue { events: VecDeque::new() }
    }

    /// Appends the event after every event already queued.
    pub fn enqueue(&mut self, event: Event)
        ensures
            final(self)@ == old(self)@.push(event),
    {
        self.events.push_back(event)
    }

    /// Removes and returns the oldest event, or nothing from an empty
    /// queue.
    pub fn dequeue(&mut self) -> (r: Option<Event>)
        ensures
            old(self)@.len() == 0 ==> r is None && final(self)@ == old(self)@,
            old(self)@.len() > 0 ==> r == Some(old(self)@[0]) && final(self)@ == old(
                self,
            )@.drop_first(),
    {
        self.events.pop_front()
    }

    pub fn len(&self) -> (r: usize)
        ensures
            r == self@.len(),
    {
        self.events.len()
    }
}

/// FIFO order: after enqueuing `a` and then `b` on an empty queue, the
/// first dequeue yields `a`, the second yields `b`, and the queue is empty
/// again — stated over the queue's sequence model, which `enqueue` and
/// `dequeue` are specified against.
pub proof fn lemma_event_queue_fifo(a: Event, b: Event)
    ensures
        Seq::<Event>::empty().push(a).push(b)[0] == a,
        Seq::<Event>::empty().push(a).push(b).drop_first()[0] == b,
        Seq::<Event>::empty().push(a).push(b).drop_first().drop_first() =~= Seq::<Event>::empty(),
{
}

} // verus!
