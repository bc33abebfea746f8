//! Events and the envelope in which one is stored.

use vstd::prelude::*;

verus! {

/// An immutable fact about one aggregate instance.
///
/// The view of an event is its mathematical content. Every event names its
/// kind and the version of its payload's schema, and can be written to a
/// textual payload and read back from it without loss.
pub trait TEvent: View + Sized + Clone + PartialEq + core::fmt::Debug + Sync + Send {
    /// The tag that identifies the kind of an event within its aggregate type.
    spec fn type_tag(v: Self::V) -> Seq<char>;

    /// The tag that identifies the schema version of the payload.
    spec fn version_tag(v: Self::V) -> Seq<char>;

    /// The type name of the aggregate that owns the event.
    spec fn owner_tag(v: Self::V) -> Seq<char>;

    /// The payload text of an event.
    spec fn encoded(v: Self::V) -> Seq<char>;

    /// The event that a payload text stands for, if it stands for one.
    spec fn decoded(payload: Seq<char>) -> Option<Self::V>;

    /// Writing an event and reading the text back gives the event again.
    proof fn lossless(v: Self::V)
        ensures
            Self::decoded(Self::encoded(v)) == Some(v),
    ;

    /// for event upcasting.
    fn event_type(&self) -> (tag: String)
        ensures
            tag@ == Self::type_tag(self@),
    ;

    /// used for event upcasting.
    fn event_version(&self) -> (tag: String)
        ensures
            tag@ == Self::version_tag(self@),
    ;

    /// The type name of the aggregate that owns the event.
    fn aggregate_type(&self) -> (tag: String)
        ensures
            tag@ == Self::owner_tag(self@),
    ;

    /// Serializes the event.
    fn to_payload(&self) -> (payload: String)
        ensures
            payload@ == Self::encoded(self@),
    ;

    /// Deserializes an event; `None` when the text stands for no event.
    fn from_payload(payload: &str) -> (event: Option<Self>)
        ensures
            match event {
                Some(e) => Self::decoded(payload@) == Some(e@),
                None => Self::decoded(payload@) is None,
            },
    ;
}

/// The views of the items of a sequence, in order.
pub open spec fn views_of<T: View>(items: Seq<T>) -> Seq<T::V> {
    items.map_values(|item: T| item@)
}

/// The mathematical content of an [`EventEnvolope`].
pub struct EnvelopeView {
    pub aggregate_type: Seq<char>,
    pub aggregate_id: Seq<char>,
    pub sequence: i64,
    pub event_type: Seq<char>,
    pub event_version: Seq<char>,
    pub payload: Seq<char>,
}

/// The durable record of one event.
#[derive(Debug)]
pub struct EventEnvolope {
    pub aggregate_type: String,
    pub aggregate_id: String,
    pub sequence: i64,
    pub event_type: String,
    pub event_version: String,
    pub payload: String,
}

impl View for EventEnvolope {
    type V = EnvelopeView;

    open spec fn view(&self) -> EnvelopeView {
        EnvelopeView {
            aggregate_type: self.aggregate_type@,
            aggregate_id: self.aggregate_id@,
            sequence: self.sequence,
            event_type: self.event_type@,
            event_version: self.event_version@,
            payload: self.payload@,
        }
    }
}

impl Clone for EventEnvolope {
    fn clone(&self) -> (copy: Self)
        ensures
            copy@ == self@,
    {
        EventEnvolope {
            aggregate_type: self.aggregate_type.clone(),
            aggregate_id: self.aggregate_id.clone(),
            sequence: self.sequence,
            event_type: self.event_type.clone(),
            event_version: self.event_version.clone(),
            payload: self.payload.clone(),
        }
    }
}

} // verus!
