//! The callback entry point: from a batch of native events to what the
//! handler is told.
//!
//! The native facility calls back with all events of a batch at once. They
//! are decoded in order until one is found whose path is not text; that one
//! aborts the callback, and the events before it stay delivered. Each decoded
//! event is classified, and the handler is told each kind in turn.

use vstd::prelude::*;
use crate::classifier::{classification, classify};
use crate::event::{decode_event, decodes_to, is_text, NativeEvent, RawEvent};
use crate::kind::Kind;

verus! {

/// What is left of a batch after decoding.
#[derive(Clone, Debug, PartialEq, Eq)]
pub struct DecodedBatch {
    /// The events before the first malformed one, in the order in which
    /// they came.
    pub events: Vec<RawEvent>,
    /// Where in the batch the first event with a malformed path stands, if
    /// there is one.
    pub malformed_at: Option<usize>,
}

impl DecodedBatch {
    /// This is what decoding `batch` gives: its events up to the first
    /// malformed one, each with its path as text, and the place of that
    /// malformed one.
    pub open spec fn is_decoding_of(&self, batch: Seq<NativeEvent>) -> bool {
        &&& self.events@.len() <= batch.len()
        &&& forall|i: int|
            #![trigger batch[i]]
            #![trigger self.events@[i]]
            0 <= i < self.events@.len() ==> is_text(batch[i]) && decodes_to(
                batch[i],
                self.events@[i],
            )
        &&& match self.malformed_at {
            Some(at) => at == self.events@.len() && at < batch.len() && !is_text(batch[at as int]),
            None => self.events@.len() == batch.len(),
        }
    }

    /// The batch is followed by the notice that new events are available:
    /// it was not aborted, and it held at least one event.
    pub open spec fn announces(&self) -> bool {
        self.malformed_at is None && self.events@.len() > 0
    }

    /// Whether the handler's side is to be told, after the deliveries, that
    /// new events are available.
    pub fn new_events_available(&self) -> (announce: bool)
        ensures
            announce == self.announces(),
    {
        self.malformed_at.is_none() && self.events.len() > 0
    }
}

/// Decodes a batch in order, up to its first event whose path is not text.
pub fn decode_batch(batch: &Vec<NativeEvent>) -> (decoded: DecodedBatch)
    ensures
        decoded.is_decoding_of(batch@),
{
    let mut events: Vec<RawEvent> = Vec::new();
    let mut i: usize = 0;
    while i < batch.len()
        invariant
            i <= batch.len(),
            events@.len() == i,
            forall|j: int|
                #![trigger batch@[j]]
                #![trigger events@[j]]
                0 <= j < i ==> is_text(batch@[j]) && decodes_to(batch@[j], events@[j]),
        decreases batch.len() - i,
    {
        match decode_event(&batch[i]) {
            Ok(event) => {
                events.push(event);
            },
            Err(_) => {
                return DecodedBatch { events, malformed_at: Some(i) };
            },
        }
        i += 1;
    }
    DecodedBatch { events, malformed_at: None }
}

/// One call of the handler: a kind, and the path it is about. The id is that
/// of the event that gave rise to the call.
#[derive(Clone, Debug, PartialEq, Eq)]
pub struct Delivery {
    pub id: u64,
    pub kind: Kind,
    pub path: String,
}

/// The handler calls that one event gives rise to: one for each kind of its
/// flag word, in the order of the kinds, each with the event's path.
pub open spec fn deliveries_of(event: RawEvent, exists: bool) -> Seq<Delivery> {
    Seq::new(
        classification(event.flags, exists).len(),
        |i: int|
            Delivery {
                id: event.id,
                kind: classification(event.flags, exists)[i],
                path: event.path,
            },
    )
}

/// The answer of the probe for the event at `index`; an event without an
/// answer counts as one whose path does not exist.
pub open spec fn answer_at(exists: Seq<bool>, index: int) -> bool {
    0 <= index < exists.len() && exists[index]
}

/// The handler calls that a batch gives rise to: those of its first event,
/// then those of its second, and so on.
pub open spec fn batch_deliveries(events: Seq<RawEvent>, exists: Seq<bool>) -> Seq<Delivery>
    decreases events.len(),
{
    if events.len() == 0 {
        Seq::empty()
    } else {
        batch_deliveries(events.drop_last(), exists) + deliveries_of(
            events.last(),
            answer_at(exists, events.len() - 1),
        )
    }
}

/// The handler calls for one event, given whether its path exists now.
pub fn deliveries(event: &RawEvent, exists: bool) -> (calls: Vec<Delivery>)
    ensures
        calls@ == deliveries_of(*event, exists),
{
    let kinds = classify(event.flags, exists);
    let mut calls: Vec<Delivery> = Vec::new();
    let mut i: usize = 0;
    while i < kinds.len()
        invariant
            i <= kinds.len(),
            kinds@ == classification(event.flags, exists),
            calls@ == deliveries_of(*event, exists).take(i as int),
        decreases kinds.len() - i,
    {
        calls.push(Delivery { id: event.id, kind: kinds[i], path: event.path.clone() });
        i += 1;
        assert(calls@ =~= deliveries_of(*event, exists).take(i as int));
    }
    assert(calls@ =~= deliveries_of(*event, exists));
    calls
}

/// The handler calls for a whole batch, in the order of its events.
/// `exists[i]` says whether the path of `events[i]` exists now; it is read
/// for events with the rename bit only.
pub fn batch_calls(events: &Vec<RawEvent>, exists: &Vec<bool>) -> (calls: Vec<Delivery>)
    ensures
        calls@ == batch_deliveries(events@, exists@),
{
    let mut calls: Vec<Delivery> = Vec::new();
    let mut i: usize = 0;
    while i < events.len()
        invariant
            i <= events.len(),
            calls@ == batch_deliveries(events@.take(i as int), exists@),
        decreases events.len() - i,
    {
        let answer = i < exists.len() && exists[i];
        let mut more = deliveries(&events[i], answer);
        calls.append(&mut more);
        proof {
            let next = events@.take(i + 1);
            assert(next.drop_last() =~= events@.take(i as int));
            assert(next.last() == events@[i as int]);
        }
        i += 1;
    }
    assert(events@.take(events@.len() as int) =~= events@);
    calls
}

/// A batch has one decoding: two values that both decode it hold the same
/// number of events, with the same ids, flags and paths, and name the same
/// malformed event.
pub proof fn lemma_decoding_is_unique(batch: Seq<NativeEvent>, a: DecodedBatch, b: DecodedBatch)
    requires
        a.is_decoding_of(batch),
        b.is_decoding_of(batch),
    ensures
        a.events@.len() == b.events@.len(),
        a.malformed_at == b.malformed_at,
        forall|i: int|
            0 <= i < a.events@.len() ==> (#[trigger] a.events@[i]).id == b.events@[i].id
                && a.events@[i].flags == b.events@[i].flags && a.events@[i].path@
                == b.events@[i].path@,
{
    let n = a.events@.len() as int;
    let m = b.events@.len() as int;
    if n < m {
        assert(decodes_to(batch[n], b.events@[n]));
    }
    if m < n {
        assert(decodes_to(batch[m], a.events@[m]));
    }
    assert forall|i: int| 0 <= i < a.events@.len() implies (#[trigger] a.events@[i]).id
        == b.events@[i].id && a.events@[i].flags == b.events@[i].flags && a.events@[i].path@
        == b.events@[i].path@ by {
        assert(decodes_to(batch[i], a.events@[i]));
        assert(decodes_to(batch[i], b.events@[i]));
    }
}

/// A batch is announced exactly if it is not empty and all its paths are
/// text; an aborted batch and an empty one are not.
pub proof fn lemma_announced_batches(batch: Seq<NativeEvent>, decoded: DecodedBatch)
    requires
        decoded.is_decoding_of(batch),
    ensures
        decoded.announces() <==> batch.len() > 0 && forall|i: int|
            0 <= i < batch.len() ==> is_text(#[trigger] batch[i]),
{
    if decoded.malformed_at is None {
        assert forall|i: int| 0 <= i < batch.len() implies is_text(#[trigger] batch[i]) by {
            assert(decodes_to(batch[i], decoded.events@[i]));
        }
    }
}

/// Every call for an event carries that event's id and path, and the kinds
/// of the calls are the kinds of its flag word, in their order.
pub proof fn lemma_deliveries_follow_kinds(event: RawEvent, exists: bool)
    ensures
        deliveries_of(event, exists).len() == classification(event.flags, exists).len(),
        forall|i: int|
            0 <= i < deliveries_of(event, exists).len() ==> {
                let call = #[trigger] deliveries_of(event, exists)[i];
                call.id == event.id && call.path == event.path && call.kind == classification(
                    event.flags,
                    exists,
                )[i]
            },
{
}

/// Events are served in the order in which they came, none dropped and none
/// served twice: the calls for two batches, one after the other, are the
/// calls for the first followed by the calls for the second.
pub proof fn lemma_batches_concatenate(
    first: Seq<RawEvent>,
    first_exists: Seq<bool>,
    second: Seq<RawEvent>,
    second_exists: Seq<bool>,
)
    requires
        first_exists.len() == first.len(),
    ensures
        batch_deliveries(first + second, first_exists + second_exists) == batch_deliveries(
            first,
            first_exists,
        ) + batch_deliveries(second, second_exists),
    decreases second.len(),
{
    let whole = first + second;
    let answers = first_exists + second_exists;
    if second.len() == 0 {
        assert(whole =~= first);
        lemma_answers_beyond_ignored(first, first_exists, answers);
        assert(batch_deliveries(first, first_exists) + Seq::<Delivery>::empty()
            =~= batch_deliveries(first, first_exists));
    } else {
        lemma_batches_concatenate(first, first_exists, second.drop_last(), second_exists);
        assert(whole.drop_last() =~= first + second.drop_last());
        assert(whole.last() == second.last());
        assert(answer_at(answers, whole.len() - 1) == answer_at(
            second_exists,
            second.len() - 1,
        ));
        assert(batch_deliveries(whole, answers) =~= batch_deliveries(first, first_exists)
            + batch_deliveries(second, second_exists));
    }
}

/// Only the answers for the events of a batch are read: two lists of answers
/// that agree on those give the same calls.
pub proof fn lemma_answers_beyond_ignored(events: Seq<RawEvent>, a: Seq<bool>, b: Seq<bool>)
    requires
        forall|i: int| 0 <= i < events.len() ==> answer_at(a, i) == answer_at(b, i),
    ensures
        batch_deliveries(events, a) == batch_deliveries(events, b),
    decreases events.len(),
{
    if events.len() > 0 {
        lemma_answers_beyond_ignored(events.drop_last(), a, b);
    }
}

} // verus!
