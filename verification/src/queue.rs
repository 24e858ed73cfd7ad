//! The side queue of the polling mode: the callback puts the events of each
//! batch at the end, and a consumer takes out, in one go, all that has
//! gathered since it last did.
//!
//! The queue is first in, first out. It is not shared by itself: code that
//! fills it on one thread and drains it on another holds it behind a lock.

use vstd::prelude::*;
use crate::event::RawEvent;

verus! {

/// Events that were delivered and not yet drained, oldest first.
pub struct EventQueue {
    pending: Vec<RawEvent>,
}

/// The queue after `events` were put at its end.
pub open spec fn enqueued(queue: Seq<RawEvent>, events: Seq<RawEvent>) -> Seq<RawEvent> {
    queue + events
}

impl View for EventQueue {
    type V = Seq<RawEvent>;

    closed spec fn view(&self) -> Seq<RawEvent> {
        self.pending@
    }
}

impl EventQueue {
    /// A queue that holds nothing.
    pub fn new() -> (queue: Self)
        ensures
            queue@ == Seq::<RawEvent>::empty(),
    {
        EventQueue { pending: Vec::new() }
    }

    /// Puts one event at the end of the queue.
    pub fn push(&mut self, event: RawEvent)
        ensures
            final(self)@ == enqueued(old(self)@, seq![event]),
    {
        self.pending.push(event);
        assert(self.pending@ =~= enqueued(old(self).pending@, seq![event]));
    }

    /// Puts the events of a batch at the end of the queue, in their order.
    pub fn push_batch(&mut self, events: Vec<RawEvent>)
        ensures
            final(self)@ == enqueued(old(self)@, events@),
    {
        let mut events = events;
        self.pending.append(&mut events);
    }

    /// Takes out all events that the queue holds, oldest first, and leaves
    /// it empty. Does not wait: an empty queue gives an empty vector.
    pub fn poll_all(&mut self) -> (events: Vec<RawEvent>)
        ensures
            events@ == old(self)@,
            final(self)@ == Seq::<RawEvent>::empty(),
    {
        let mut events: Vec<RawEvent> = Vec::new();
        core::mem::swap(&mut self.pending, &mut events);
        events
    }

    /// Whether the queue holds nothing.
    pub fn is_empty(&self) -> (empty: bool)
        ensures
            empty == (self@.len() == 0),
    {
        self.pending.len() == 0
    }

    /// How many events the queue holds.
    pub fn len(&self) -> (count: usize)
        ensures
            count == self@.len(),
    {
        self.pending.len()
    }
}

/// First in, first out: after two batches were put in, the queue holds what
/// it held before, then the first batch, then the second, each event at the
/// place that its batch gave it. Nothing is dropped and nothing is reordered.
pub proof fn lemma_enqueue_keeps_order(
    queue: Seq<RawEvent>,
    first: Seq<RawEvent>,
    second: Seq<RawEvent>,
)
    ensures
        enqueued(enqueued(queue, first), second) == queue + (first + second),
        enqueued(enqueued(queue, first), second).len() == queue.len() + first.len()
            + second.len(),
        forall|i: int|
            0 <= i < queue.len() ==> enqueued(enqueued(queue, first), second)[i] == queue[i],
        forall|i: int|
            0 <= i < first.len() ==> enqueued(enqueued(queue, first), second)[queue.len() + i]
                == first[i],
        forall|i: int|
            0 <= i < second.len() ==> enqueued(enqueued(queue, first), second)[queue.len()
                + first.len() + i] == second[i],
{
    assert(enqueued(enqueued(queue, first), second) =~= queue + (first + second));
}

/// What is put into an empty queue is what the queue then holds: a drain
/// after a drain hands out only what came in between.
pub proof fn lemma_enqueue_on_empty(events: Seq<RawEvent>)
    ensures
        enqueued(Seq::empty(), events) == events,
{
    assert(enqueued(Seq::empty(), events) =~= events);
}

/// Putting in a batch event by event is putting in the batch.
pub proof fn lemma_push_by_push(queue: Seq<RawEvent>, events: Seq<RawEvent>)
    requires
        events.len() > 0,
    ensures
        enqueued(queue, events) == enqueued(
            enqueued(queue, events.drop_last()),
            seq![events.last()],
        ),
{
    assert(enqueued(queue, events) =~= enqueued(
        enqueued(queue, events.drop_last()),
        seq![events.last()],
    ));
}

} // verus!
