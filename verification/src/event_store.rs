//! The operations that every store of events offers.

use vstd::prelude::*;
use crate::aggregate::TAggregate;
use crate::error::EventStoreError;
use crate::event;
use crate::event::EnvelopeView;
use crate::event::EventEnvolope;
use crate::history;

verus! {

/// A store of the events of aggregates of type `A`.
///
/// A backend may fail a read or a write with `StorageError`; apart from that
/// the results are those of `history::load_outcome` and
/// `history::commit_outcome` on the stored rows. No operation leaves part of
/// a batch behind, and the rows stay contiguous.
pub trait TEventStore<A: TAggregate> {
    /// Every stored envelope, in the order written.
    spec fn rows(&self) -> Seq<EnvelopeView>;

    /// The envelopes stored for one aggregate, in ascending sequence order;
    /// none for an aggregate that has no history.
    fn load_events(&self, aggregate_id: &str) -> (loaded: Result<
        Vec<EventEnvolope>,
        EventStoreError,
    >)
        ensures
            history::contiguous(self.rows()),
            match loaded {
                Ok(envelopes) => event::views_of(envelopes@) == history::history_of(
                    self.rows(),
                    aggregate_id@,
                ),
                Err(e) => e == EventStoreError::StorageError,
            },
    ;

    /// The aggregate that the stored history of one id stands for.
    fn load_aggregate(&self, aggregate_id: &str) -> (loaded: Result<A, EventStoreError>)
        ensures
            history::contiguous(self.rows()),
            match loaded {
                Ok(aggregate) => history::load_outcome::<A>(self.rows(), aggregate_id@) == Ok::<
                    A::V,
                    EventStoreError,
                >(aggregate@),
                Err(e) => e == EventStoreError::StorageError || history::load_outcome::<A>(
                    self.rows(),
                    aggregate_id@,
                ) == Err::<A::V, EventStoreError>(e),
            },
    ;

    /// Appends the pending events of an aggregate to its history as one
    /// unit. Nothing pending is a success that touches nothing.
    fn commit(&mut self, aggregate: &A) -> (committed: Result<(), EventStoreError>)
        ensures
            history::contiguous(final(self).rows()),
            A::pending(aggregate@).len() == 0 ==> committed is Ok,
            match committed {
                Ok(()) => history::commit_outcome::<A>(old(self).rows(), aggregate@) == Ok::<
                    Seq<EnvelopeView>,
                    EventStoreError,
                >(final(self).rows()),
                Err(e) => final(self).rows() == old(self).rows() && (e
                    == EventStoreError::StorageError || history::commit_outcome::<A>(
                    old(self).rows(),
                    aggregate@,
                ) == Err::<Seq<EnvelopeView>, EventStoreError>(e)),
            },
    ;
}

} // verus!
