//! What the store asks of an aggregate.

use vstd::prelude::*;
use crate::event;
use crate::event::TEvent;

verus! {

/// The identity and versioning facet of an aggregate.
pub trait TAggregateMetadata: View + Sized {
    /// The number of events folded into the aggregate.
    spec fn sequence_of(v: Self::V) -> i64;

    /// The aggregate's type name.
    spec fn type_of(v: Self::V) -> Seq<char>;

    /// The aggregate's instance id.
    spec fn id_of(v: Self::V) -> Seq<char>;

    /// The aggregate with its sequence replaced.
    spec fn with_sequence(v: Self::V, version: i64) -> Self::V;

    /// Replacing the sequence changes the sequence and keeps the identity.
    proof fn sequence_replaced(v: Self::V, version: i64)
        ensures
            Self::sequence_of(Self::with_sequence(v, version)) == version,
            Self::type_of(Self::with_sequence(v, version)) == Self::type_of(v),
            Self::id_of(Self::with_sequence(v, version)) == Self::id_of(v),
    ;

    /// The number of events folded into the aggregate: its version, and the
    /// token by which its commits are checked.
    fn sequence(&self) -> (version: i64)
        ensures
            version == Self::sequence_of(self@),
    ;

    /// Replaces the sequence. This is for the store, which sets it to the
    /// length of the history it has folded.
    fn set_sequence(&mut self, version: i64)
        ensures
            final(self)@ == Self::with_sequence(old(self)@, version),
    ;

    /// The type name of the aggregate.
    fn aggregate_type(&self) -> (name: String)
        ensures
            name@ == Self::type_of(self@),
    ;

    /// The id of this instance.
    fn aggregate_id(&self) -> (id: String)
        ensures
            id@ == Self::id_of(self@),
    ;
}

/// The state-folding facet of an aggregate.
pub trait TAggregateES: View + Sized {
    type Event: TEvent;

    /// The aggregate after one event has been folded into it.
    spec fn applied(v: Self::V, event: <Self::Event as View>::V) -> Self::V;

    /// The aggregate after one event has been put into its pending buffer.
    spec fn raised(v: Self::V, event: <Self::Event as View>::V) -> Self::V;

    /// The events raised and not yet committed, oldest first.
    spec fn pending(v: Self::V) -> Seq<<Self::Event as View>::V>;

    /// Raising an event appends it to the pending buffer.
    proof fn raised_is_appended(v: Self::V, event: <Self::Event as View>::V)
        ensures
            Self::pending(Self::raised(v, event)) == Self::pending(v).push(event),
    ;

    /// Folds one event into the aggregate.
    fn apply(&mut self, event: Self::Event)
        ensures
            final(self)@ == Self::applied(old(self)@, event@),
    ;

    /// Puts one event into the pending buffer.
    fn raise_event(&mut self, event: Self::Event)
        ensures
            final(self)@ == Self::raised(old(self)@, event@),
    ;

    /// The pending buffer, in raise order.
    fn events(&self) -> (buffer: &Vec<Self::Event>)
        ensures
            event::views_of(buffer@) == Self::pending(self@),
    ;
}

/// An aggregate: both facets, and a default state to fold a history into.
pub trait TAggregate: TAggregateES + TAggregateMetadata + Default + Sync + Send + 'static {
    /// The state of an aggregate without history.
    spec fn initial() -> Self::V;

    /// An aggregate without history has sequence zero and nothing pending.
    proof fn initial_is_blank()
        ensures
            Self::sequence_of(Self::initial()) == 0,
            Self::pending(Self::initial()).len() == 0,
    ;

    /// Raising an event leaves the identity and the sequence alone.
    proof fn raised_keeps_identity(v: Self::V, event: <Self::Event as View>::V)
        ensures
            Self::sequence_of(Self::raised(v, event)) == Self::sequence_of(v),
            Self::type_of(Self::raised(v, event)) == Self::type_of(v),
            Self::id_of(Self::raised(v, event)) == Self::id_of(v),
    ;

    /// `default()` gives the aggregate without history.
    proof fn default_is_initial(fresh: Self)
        requires
            call_ensures(Self::default, (), fresh),
        ensures
            fresh@ == Self::initial(),
    ;
}

} // verus!
