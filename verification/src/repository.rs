//! The reference store: one table in memory, scanned by aggregate id.

use std::marker::PhantomData;
use vstd::prelude::*;
use crate::aggregate::TAggregate;
use crate::clock::now_millis;
use crate::error::EventStoreError;
use crate::event;
use crate::event::EnvelopeView;
use crate::event::EventEnvolope;
use crate::event::TEvent;
use crate::event_store::TEventStore;
use crate::history;

verus! {

/// One row of the table: an envelope and the time at which it was written,
/// in milliseconds since the Unix epoch.
struct EventTable {
    envelope: EventEnvolope,
    timestamp: i64,
}

impl EventTable {
    fn aggregate_id(&self) -> (id: &str)
        ensures
            id@ == self.envelope@.aggregate_id,
    {
        self.envelope.aggregate_id.as_str()
    }

    fn envelope(&self) -> (envelope: &EventEnvolope)
        ensures
            *envelope == self.envelope,
    {
        &self.envelope
    }
}

/// The envelopes of a run of rows, in order.
spec fn rows_of(table: Seq<EventTable>) -> Seq<EnvelopeView> {
    Seq::new(table.len(), |i: int| table[i].envelope@)
}

/// An append-only table of envelopes, kept in memory.
pub struct InMemoryDB {
    table: Vec<EventTable>,
}

impl InMemoryDB {
    /// Every stored envelope, in the order written.
    pub closed spec fn rows(&self) -> Seq<EnvelopeView> {
        rows_of(self.table@)
    }

    #[verifier::type_invariant]
    spec fn numbering_holds(&self) -> bool {
        history::contiguous(self.rows())
    }

    /// An empty table.
    pub fn new() -> (db: Self)
        ensures
            db.rows() == Seq::<EnvelopeView>::empty(),
    {
        let db = InMemoryDB { table: Vec::new() };
        assert(db.rows() == Seq::<EnvelopeView>::empty());
        db
    }

    /// The number of envelopes stored for one aggregate, which is also the
    /// highest sequence number stored for it.
    pub fn head(&self, aggregate_id: &str) -> (count: usize)
        ensures
            history::contiguous(self.rows()),
            count == history::history_of(self.rows(), aggregate_id@).len(),
    {
        proof {
            use_type_invariant(self);
        }
        let mut count: usize = 0;
        let mut i: usize = 0;
        while i < self.table.len()
            invariant
                i <= self.table.len(),
                count <= i,
                count == history::history_of(self.rows().take(i as int), aggregate_id@).len(),
            decreases self.table.len() - i,
        {
            proof {
                history::history_of_push(
                    self.rows().take(i as int),
                    self.rows()[i as int],
                    aggregate_id@,
                );
                assert(self.rows().take(i as int).push(self.rows()[i as int]) == self.rows().take(
                    i + 1,
                ));
            }
            if self.table[i].aggregate_id().eq(aggregate_id) {
                count = count + 1;
            }
            i = i + 1;
        }
        assert(self.rows().take(i as int) == self.rows());
        count
    }

    /// The envelopes stored for one aggregate, in ascending sequence order.
    pub fn load(&self, aggregate_id: &str) -> (found: Vec<EventEnvolope>)
        ensures
            history::contiguous(self.rows()),
            event::views_of(found@) == history::history_of(self.rows(), aggregate_id@),
    {
        proof {
            use_type_invariant(self);
        }
        let mut found: Vec<EventEnvolope> = Vec::new();
        let mut i: usize = 0;
        while i < self.table.len()
            invariant
                i <= self.table.len(),
                event::views_of(found@) == history::history_of(
                    self.rows().take(i as int),
                    aggregate_id@,
                ),
            decreases self.table.len() - i,
        {
            proof {
                history::history_of_push(
                    self.rows().take(i as int),
                    self.rows()[i as int],
                    aggregate_id@,
                );
                assert(self.rows().take(i as int).push(self.rows()[i as int]) == self.rows().take(
                    i + 1,
                ));
            }
            if self.table[i].aggregate_id().eq(aggregate_id) {
                let ghost before = found@;
                found.push(self.table[i].envelope().clone());
                assert(event::views_of(found@) == event::views_of(before).push(
                    self.rows()[i as int],
                ));
            }
            i = i + 1;
        }
        assert(self.rows().take(i as int) == self.rows());
        found
    }

    /// Appends a batch as one unit, on the condition that it continues the
    /// history of the aggregate it belongs to. A batch that does not is
    /// refused with `ConcurrencyError`, and nothing is written.
    pub fn append(&mut self, batch: Vec<EventEnvolope>) -> (appended: Result<(), EventStoreError>)
        ensures
            history::contiguous(final(self).rows()),
            match appended {
                Ok(()) => history::continues(old(self).rows(), event::views_of(batch@))
                    && final(self).rows() == old(self).rows() + event::views_of(batch@),
                Err(e) => e == EventStoreError::ConcurrencyError && !history::continues(
                    old(self).rows(),
                    event::views_of(batch@),
                ) && final(self).rows() == old(self).rows(),
            },
    {
        proof {
            use_type_invariant(&*self);
        }
        let ghost before = self.rows();
        let ghost incoming = event::views_of(batch@);
        if batch.len() == 0 {
            assert(before + incoming == before);
            return Ok(());
        }
        let head = self.head(batch[0].aggregate_id.as_str());
        let mut j: usize = 0;
        while j < batch.len()
            invariant
                j <= batch.len(),
                batch.len() > 0,
                self.rows() == before,
                history::contiguous(before),
                incoming == event::views_of(batch@),
                head == history::history_of(before, incoming[0].aggregate_id).len(),
                history::single_aggregate(incoming.take(j as int), incoming[0].aggregate_id),
                history::numbered_from(incoming.take(j as int), head as int),
            decreases batch.len() - j,
        {
            let same_aggregate = batch[j].aggregate_id.as_str().eq(
                batch[0].aggregate_id.as_str(),
            );
            let sequence = batch[j].sequence;
            let next_number = sequence >= 1 && (sequence - 1) as u64 >= head as u64 && (sequence
                - 1) as u64 - head as u64 == j as u64;
            if !same_aggregate || !next_number {
                assert(incoming[j as int] == batch@[j as int]@);
                return Err(EventStoreError::ConcurrencyError);
            }
            assert(incoming.take(j + 1) == incoming.take(j as int).push(incoming[j as int]));
            j = j + 1;
        }
        assert(incoming.take(j as int) == incoming);
        // The new rows are made before the table is touched.
        let mut fresh: Vec<EventTable> = Vec::new();
        assert(rows_of(fresh@) == Seq::<EnvelopeView>::empty());
        for envelope in it: batch
            invariant
                incoming == event::views_of(it.seq()),
                rows_of(fresh@) == incoming.take(it.index() as int),
        {
            let ghost earlier = rows_of(fresh@);
            fresh.push(EventTable { envelope, timestamp: now_millis() });
            assert(rows_of(fresh@) == earlier.push(envelope@));
            assert(incoming.take(it.index() + 1) == incoming.take(it.index() as int).push(
                envelope@,
            ));
        }
        assert(incoming.take(incoming.len() as int) == incoming);
        let mut table: Vec<EventTable> = Vec::new();
        assert(rows_of(table@) == Seq::<EnvelopeView>::empty());
        core::mem::swap(&mut self.table, &mut table);
        let ghost kept = table@;
        let ghost added = fresh@;
        table.append(&mut fresh);
        assert(rows_of(table@) == rows_of(kept) + rows_of(added));
        proof {
            history::append_keeps_contiguity(before, incoming);
        }
        self.table = table;
        Ok(())
    }
}

impl Default for InMemoryDB {
    fn default() -> (db: Self)
        ensures
            db.rows() == Seq::<EnvelopeView>::empty(),
    {
        InMemoryDB::new()
    }
}

/// The store of the aggregates of type `A`, over one table.
pub struct SqlRepository<A: TAggregate> {
    executor: InMemoryDB,
    _phantom: PhantomData<A>,
}

impl<A: TAggregate> SqlRepository<A> {
    /// A store over an empty table.
    pub fn new() -> (repository: Self)
        ensures
            repository.rows() == Seq::<EnvelopeView>::empty(),
    {
        Self { executor: InMemoryDB::new(), _phantom: PhantomData }
    }

    /// A store over a table that already holds rows.
    pub fn from_executor(executor: InMemoryDB) -> (repository: Self)
        ensures
            repository.rows() == executor.rows(),
    {
        Self { executor, _phantom: PhantomData }
    }

    /// One envelope for each pending event of the aggregate, in raise order,
    /// numbered onwards from the aggregate's sequence.
    pub fn extract_events(aggregate: &A) -> (batch: Vec<EventEnvolope>)
        requires
            A::sequence_of(aggregate@) + A::pending(aggregate@).len() <= i64::MAX,
        ensures
            event::views_of(batch@) == history::pending_batch::<A>(aggregate@),
    {
        let mut current_sequence = aggregate.sequence();
        let aggregate_type = aggregate.aggregate_type();
        let aggregate_id = aggregate.aggregate_id();
        let events = aggregate.events();
        let ghost base = current_sequence;
        let ghost pending = A::pending(aggregate@);
        let ghost framed = history::pending_batch::<A>(aggregate@);
        let mut batch: Vec<EventEnvolope> = Vec::new();
        let mut i: usize = 0;
        while i < events.len()
            invariant
                i <= events.len(),
                event::views_of(events@) == pending,
                base + pending.len() <= i64::MAX,
                current_sequence == base + i,
                aggregate_type@ == A::type_of(aggregate@),
                aggregate_id@ == A::id_of(aggregate@),
                framed == history::framed::<A::Event>(
                    aggregate_type@,
                    aggregate_id@,
                    base,
                    pending,
                ),
                event::views_of(batch@) == framed.take(i as int),
            decreases events.len() - i,
        {
            let event = &events[i];
            assert(event@ == pending[i as int]);
            current_sequence += 1;
            let ghost earlier = event::views_of(batch@);
            batch.push(
                EventEnvolope {
                    aggregate_type: aggregate_type.clone(),
                    aggregate_id: aggregate_id.clone(),
                    sequence: current_sequence,
                    event_type: event.event_type(),
                    event_version: event.event_version(),
                    payload: event.to_payload(),
                },
            );
            assert(event::views_of(batch@) == earlier.push(framed[i as int]));
            assert(framed.take(i + 1) == framed.take(i as int).push(framed[i as int]));
            i = i + 1;
        }
        assert(framed.take(i as int) == framed);
        batch
    }

    /// Folds a history of events into a default aggregate and sets its
    /// sequence to their count.
    pub fn replay(events: Vec<A::Event>) -> (aggregate: A)
        requires
            events.len() <= i64::MAX,
        ensures
            aggregate@ == history::rebuilt::<A>(event::views_of(events@)),
    {
        let mut aggregate = A::default();
        proof {
            A::default_is_initial(aggregate);
        }
        // current sequence should be the same as the number of events you can fetch
        let current_sequence = events.len() as i64;
        let ghost all = event::views_of(events@);
        for event in it: events
            invariant
                all == event::views_of(it.seq()),
                aggregate@ == history::folded::<A>(A::initial(), all.take(it.index() as int)),
        {
            assert(all.take(it.index() + 1).drop_last() == all.take(it.index() as int));
            aggregate.apply(event);
        }
        assert(all.take(all.len() as int) == all);
        aggregate.set_sequence(current_sequence);
        aggregate
    }
}

impl<A: TAggregate> TEventStore<A> for SqlRepository<A> {
    closed spec fn rows(&self) -> Seq<EnvelopeView> {
        self.executor.rows()
    }

    /// The envelopes of one aggregate, in ascending sequence order. The
    /// table is in memory: the read always succeeds.
    fn load_events(&self, agg_id: &str) -> (loaded: Result<Vec<EventEnvolope>, EventStoreError>)
        ensures
            loaded is Ok,
    {
        Ok(self.executor.load(agg_id))
    }

    /// Rebuilds an aggregate from its stored history. Fails exactly when a
    /// stored payload of the aggregate is not the text of an event, and then
    /// with `DecodeError`.
    fn load_aggregate(&self, aggregate_id: &str) -> (loaded: Result<A, EventStoreError>)
        ensures
            match loaded {
                Ok(aggregate) => history::load_outcome::<A>(self.rows(), aggregate_id@) == Ok::<
                    A::V,
                    EventStoreError,
                >(aggregate@),
                Err(e) => history::load_outcome::<A>(self.rows(), aggregate_id@) == Err::<
                    A::V,
                    EventStoreError,
                >(e),
            },
    {
        let envelopes = self.executor.load(aggregate_id);
        let ghost stored = history::history_of(self.rows(), aggregate_id@);
        assert(history::numbered_from(stored, 0));
        let mut events: Vec<A::Event> = Vec::new();
        let mut i: usize = 0;
        while i < envelopes.len()
            invariant
                i <= envelopes.len(),
                history::contiguous(self.rows()),
                stored == history::history_of(self.rows(), aggregate_id@),
                event::views_of(envelopes@) == stored,
                events.len() == i,
                history::decodable::<A::Event>(stored.take(i as int)),
                event::views_of(events@) == history::decoded_all::<A::Event>(
                    stored.take(i as int),
                ),
            decreases envelopes.len() - i,
        {
            assert(stored[i as int] == envelopes@[i as int]@);
            match A::Event::from_payload(envelopes[i].payload.as_str()) {
                Some(event) => {
                    let ghost earlier = event::views_of(events@);
                    events.push(event);
                    assert(stored.take(i + 1) == stored.take(i as int).push(stored[i as int]));
                    assert(event::views_of(events@) == earlier.push(event@));
                    assert(event::views_of(events@) == history::decoded_all::<A::Event>(
                        stored.take(i + 1),
                    ));
                },
                None => {
                    return Err(EventStoreError::DecodeError);
                },
            }
            i = i + 1;
        }
        assert(stored.take(i as int) == stored);
        proof {
            if i > 0 {
                assert(stored[i - 1].sequence == i);
            }
        }
        Ok(Self::replay(events))
    }

    /// Writes the pending events of the aggregate behind its history, as
    /// `history::commit_outcome` says, and fails exactly when that does, with
    /// its error. The aggregate keeps its pending buffer and its sequence: to
    /// commit again, load it again.
    fn commit(&mut self, aggregate: &A) -> (committed: Result<(), EventStoreError>)
        ensures
            match committed {
                Ok(()) => history::commit_outcome::<A>(old(self).rows(), aggregate@) == Ok::<
                    Seq<EnvelopeView>,
                    EventStoreError,
                >(final(self).rows()),
                Err(e) => final(self).rows() == old(self).rows() && history::commit_outcome::<A>(
                    old(self).rows(),
                    aggregate@,
                ) == Err::<Seq<EnvelopeView>, EventStoreError>(e),
            },
    {
        proof {
            use_type_invariant(&self.executor);
        }
        let pending = aggregate.events().len();
        if pending == 0 {
            return Ok(());
        }
        let sequence = aggregate.sequence();
        let aggregate_id = aggregate.aggregate_id();
        let head = self.executor.head(aggregate_id.as_str());
        if sequence < 0 || sequence as u64 != head as u64 {
            return Err(EventStoreError::ConcurrencyError);
        }
        if pending as u64 > (i64::MAX - sequence) as u64 {
            return Err(EventStoreError::StorageError);
        }
        let events = Self::extract_events(aggregate);
        let ghost batch = history::pending_batch::<A>(aggregate@);
        assert(history::continues(old(self).rows(), batch)) by {
            assert(batch.len() > 0);
            assert(batch[0].aggregate_id == A::id_of(aggregate@));
        }
        match self.executor.append(events) {
            Ok(()) => Ok(()),
            Err(e) => Err(e),
        }
    }
}

} // verus!
