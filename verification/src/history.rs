//! The mathematical model of the envelope table: what is stored for one
//! aggregate id, what it means for the numbering to be contiguous, and what
//! loading and committing compute.

use vstd::prelude::*;
use crate::aggregate::TAggregate;
use crate::error::EventStoreError;
use crate::event::EnvelopeView;
use crate::event::TEvent;

verus! {

/// The envelopes stored for one aggregate id, in the order written.
pub open spec fn history_of(rows: Seq<EnvelopeView>, id: Seq<char>) -> Seq<EnvelopeView> {
    rows.filter(|e: EnvelopeView| e.aggregate_id == id)
}

/// The sequence numbers of `batch` are `base + 1, base + 2, ..` in order.
pub open spec fn numbered_from(batch: Seq<EnvelopeView>, base: int) -> bool {
    forall|j: int| 0 <= j < batch.len() ==> (#[trigger] batch[j]).sequence == base + j + 1
}

/// Every envelope of `batch` belongs to the aggregate `id`.
pub open spec fn single_aggregate(batch: Seq<EnvelopeView>, id: Seq<char>) -> bool {
    forall|j: int| 0 <= j < batch.len() ==> (#[trigger] batch[j]).aggregate_id == id
}

/// The consistency rule of the table: for every aggregate id the stored
/// sequence numbers are exactly `1..=k`, in the order written.
pub open spec fn contiguous(rows: Seq<EnvelopeView>) -> bool {
    forall|id: Seq<char>| numbered_from(#[trigger] history_of(rows, id), 0)
}

/// `batch` may be appended to `rows`: it is empty, or it belongs to one
/// aggregate and its numbers continue that aggregate's history.
pub open spec fn continues(rows: Seq<EnvelopeView>, batch: Seq<EnvelopeView>) -> bool {
    batch.len() > 0 ==> {
        &&& single_aggregate(batch, batch[0].aggregate_id)
        &&& numbered_from(batch, history_of(rows, batch[0].aggregate_id).len() as int)
    }
}

/// The envelopes that carry `events` for one aggregate, numbered from
/// `base + 1`.
pub open spec fn framed<E: TEvent>(
    aggregate_type: Seq<char>,
    aggregate_id: Seq<char>,
    base: i64,
    events: Seq<E::V>,
) -> Seq<EnvelopeView> {
    Seq::new(
        events.len(),
        |j: int|
            EnvelopeView {
                aggregate_type,
                aggregate_id,
                sequence: (base + j + 1) as i64,
                event_type: E::type_tag(events[j]),
                event_version: E::version_tag(events[j]),
                payload: E::encoded(events[j]),
            },
    )
}

/// Every payload of `history` is the text of an event.
pub open spec fn decodable<E: TEvent>(history: Seq<EnvelopeView>) -> bool {
    forall|j: int| 0 <= j < history.len() ==> E::decoded((#[trigger] history[j]).payload) is Some
}

/// The events that the payloads of `history` stand for.
pub open spec fn decoded_all<E: TEvent>(history: Seq<EnvelopeView>) -> Seq<E::V> {
    Seq::new(history.len(), |j: int| E::decoded(history[j].payload)->0)
}

/// `events` folded, oldest first, into `start`.
pub open spec fn folded<A: TAggregate>(start: A::V, events: Seq<<A::Event as View>::V>) -> A::V
    decreases events.len(),
{
    if events.len() == 0 {
        start
    } else {
        A::applied(folded::<A>(start, events.drop_last()), events.last())
    }
}

/// The aggregate that a history of `events` stands for: the events folded
/// into the default state, and the sequence set to their count.
pub open spec fn rebuilt<A: TAggregate>(events: Seq<<A::Event as View>::V>) -> A::V {
    A::with_sequence(folded::<A>(A::initial(), events), events.len() as i64)
}

/// What loading the aggregate `id` from `rows` gives.
pub open spec fn load_outcome<A: TAggregate>(rows: Seq<EnvelopeView>, id: Seq<char>) -> Result<
    A::V,
    EventStoreError,
> {
    if decodable::<A::Event>(history_of(rows, id)) {
        Ok(rebuilt::<A>(decoded_all::<A::Event>(history_of(rows, id))))
    } else {
        Err(EventStoreError::DecodeError)
    }
}

/// The envelopes that a commit of `aggregate` writes.
pub open spec fn pending_batch<A: TAggregate>(aggregate: A::V) -> Seq<EnvelopeView> {
    framed::<A::Event>(
        A::type_of(aggregate),
        A::id_of(aggregate),
        A::sequence_of(aggregate),
        A::pending(aggregate),
    )
}

/// What committing `aggregate` to `rows` gives: the table afterwards, or the
/// reason why nothing was written.
///
/// Nothing pending is a success that writes nothing. Otherwise the
/// aggregate's sequence must be the head of its stored history, and the new
/// numbers must fit the sequence type.
pub open spec fn commit_outcome<A: TAggregate>(rows: Seq<EnvelopeView>, aggregate: A::V) -> Result<
    Seq<EnvelopeView>,
    EventStoreError,
> {
    let pending = A::pending(aggregate);
    let head = history_of(rows, A::id_of(aggregate)).len();
    if pending.len() == 0 {
        Ok(rows)
    } else if A::sequence_of(aggregate) != head {
        Err(EventStoreError::ConcurrencyError)
    } else if A::sequence_of(aggregate) + pending.len() > i64::MAX {
        Err(EventStoreError::StorageError)
    } else {
        Ok(rows + pending_batch::<A>(aggregate))
    }
}

/// The history of a table with one more row.
pub proof fn history_of_push(rows: Seq<EnvelopeView>, row: EnvelopeView, id: Seq<char>)
    ensures
        history_of(rows.push(row), id) == if row.aggregate_id == id {
            history_of(rows, id).push(row)
        } else {
            history_of(rows, id)
        },
{
    reveal(Seq::filter);
    assert(rows.push(row).drop_last() == rows);
}

/// The history of two tables written one after the other.
pub proof fn history_of_add(first: Seq<EnvelopeView>, second: Seq<EnvelopeView>, id: Seq<char>)
    ensures
        history_of(first + second, id) == history_of(first, id) + history_of(second, id),
{
    Seq::filter_distributes_over_add(first, second, |e: EnvelopeView| e.aggregate_id == id);
}

/// The history of a batch that belongs to one aggregate: the whole batch for
/// that aggregate, nothing for any other.
pub proof fn history_of_single(batch: Seq<EnvelopeView>, owner: Seq<char>, id: Seq<char>)
    requires
        single_aggregate(batch, owner),
    ensures
        history_of(batch, id) == if id == owner {
            batch
        } else {
            Seq::empty()
        },
    decreases batch.len(),
{
    reveal(Seq::filter);
    if batch.len() > 0 {
        history_of_single(batch.drop_last(), owner, id);
        assert(batch.drop_last().push(batch.last()) == batch);
    }
}

/// Appending a batch that continues the table keeps the table contiguous.
pub proof fn append_keeps_contiguity(rows: Seq<EnvelopeView>, batch: Seq<EnvelopeView>)
    requires
        contiguous(rows),
        continues(rows, batch),
    ensures
        contiguous(rows + batch),
{
    if batch.len() == 0 {
        assert(rows + batch == rows);
    } else {
        let owner = batch[0].aggregate_id;
        assert forall|id: Seq<char>| numbered_from(#[trigger] history_of(rows + batch, id), 0) by {
            history_of_add(rows, batch, id);
            history_of_single(batch, owner, id);
            assert(numbered_from(history_of(rows, id), 0));
            if id != owner {
                assert(history_of(rows, id) + Seq::<EnvelopeView>::empty() == history_of(rows, id));
            }
        }
    }
}

} // verus!
