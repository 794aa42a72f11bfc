//! The event contract and the envelope that carries an event through the
//! store and the bus.

use vstd::prelude::*;

use crate::ids::AggregateId;

verus! {

/// Failure of applying an event to a state.
#[derive(Debug, Clone, Copy, PartialEq, Eq, Structural)]
pub enum ApplyError {
    /// The event could not be applied to the given state (for example, the
    /// resulting balance would not fit).
    Validation,
    /// Applying the event would violate a domain invariant (for example, a
    /// balance would become negative).
    InvariantViolated,
}

impl ApplyError {
    /// A human-readable description of the failure.
    pub fn message(&self) -> (r: &'static str)
        ensures
            *self is Validation ==> r@ == "event application validation error"@,
            *self is InvariantViolated ==> r@ == "event application invariant violated"@,
    {
        match self {
            ApplyError::Validation => "event application validation error",
            ApplyError::InvariantViolated => "event application invariant violated",
        }
    }
}

/// An immutable fact about one aggregate of state type `T`.
///
/// Applying an event is deterministic: `apply_to` is the mathematical model
/// of `apply`, and `apply` must follow it exactly. On failure the state is
/// left unchanged.
pub trait Event<T>: Sized {
    /// The state produced by applying this event to `pre`, or the error if a
    /// domain invariant would be violated.
    spec fn apply_to(&self, pre: T) -> Result<T, ApplyError>;

    /// The identifier of the aggregate this event belongs to.
    spec fn id_spec(&self) -> AggregateId;

    /// The aggregate-type discriminator (for example `"account"`).
    spec fn aggregate_type_spec(&self) -> Seq<char>;

    /// The event-type discriminator identifying the event variant.
    spec fn event_type_spec(&self) -> Seq<char>;

    fn aggregate_id(&self) -> (r: AggregateId)
        ensures
            r == self.id_spec(),
    ;

    fn aggregate_type(&self) -> (r: &'static str)
        ensures
            r@ == self.aggregate_type_spec(),
    ;

    fn event_type(&self) -> (r: &'static str)
        ensures
            r@ == self.event_type_spec(),
    ;

    /// Applies the event to `state` in place. Fails, leaving `state`
    /// untouched, exactly when `apply_to` fails.
    fn apply(&self, state: &mut T) -> (r: Result<(), ApplyError>)
        ensures
            match r {
                Ok(()) => self.apply_to(*old(state)) == Ok::<T, ApplyError>(*final(state)),
                Err(e) => *final(state) == *old(state) && self.apply_to(*old(state))
                    == Err::<T, ApplyError>(e),
            },
    ;
}

/// The mathematical value of an [`EventEnvelope`].
#[verifier::ext_equal]
pub struct EnvelopeModel<E> {
    pub sequence_number: u64,
    pub aggregate_id: AggregateId,
    pub aggregate_type: Seq<char>,
    pub event_type: Seq<char>,
    pub event: E,
}

/// The durable unit stored and transmitted: an event together with its
/// routing and ordering metadata. `sequence_number` is assigned by the event
/// store (or, for bus envelopes, is a delivery-level identifier) and is
/// globally unique and monotonically increasing.
#[derive(Debug)]
pub struct EventEnvelope<E> {
    pub sequence_number: u64,
    pub aggregate_id: AggregateId,
    pub aggregate_type: String,
    pub event_type: String,
    pub event: E,
}

impl<E> View for EventEnvelope<E> {
    type V = EnvelopeModel<E>;

    open spec fn view(&self) -> EnvelopeModel<E> {
        EnvelopeModel {
            sequence_number: self.sequence_number,
            aggregate_id: self.aggregate_id,
            aggregate_type: self.aggregate_type@,
            event_type: self.event_type@,
            event: self.event,
        }
    }
}

impl<E: Copy> Clone for EventEnvelope<E> {
    /// A clone carries the same metadata and the same event.
    fn clone(&self) -> (r: Self)
        ensures
            r == *self,
    {
        EventEnvelope {
            sequence_number: self.sequence_number,
            aggregate_id: self.aggregate_id,
            aggregate_type: self.aggregate_type.clone(),
            event_type: self.event_type.clone(),
            event: self.event,
        }
    }
}

impl<E> EventEnvelope<E> {
    pub fn new(
        sequence_number: u64,
        aggregate_id: AggregateId,
        aggregate_type: String,
        event_type: String,
        event: E,
    ) -> (r: Self)
        ensures
            r@ == (EnvelopeModel {
                sequence_number,
                aggregate_id,
                aggregate_type: aggregate_type@,
                event_type: event_type@,
                event,
            }),
    {
        Self { sequence_number, aggregate_id, aggregate_type, event_type, event }
    }

    pub fn aggregate_id(&self) -> (r: AggregateId)
        ensures
            r == self@.aggregate_id,
    {
        self.aggregate_id
    }

    pub fn aggregate_type(&self) -> (r: &str)
        ensures
            r@ == self@.aggregate_type,
    {
        &self.aggregate_type
    }

    pub fn event(&self) -> (r: &E)
        ensures
            *r == self@.event,
    {
        &self.event
    }

    pub fn sequence_number(&self) -> (r: u64)
        ensures
            r == self@.sequence_number,
    {
        self.sequence_number
    }

    pub fn event_type(&self) -> (r: &str)
        ensures
            r@ == self@.event_type,
    {
        &self.event_type
    }
}

/// The models of a sequence of envelopes, in order.
pub open spec fn models_of<E>(v: Seq<EventEnvelope<E>>) -> Seq<EnvelopeModel<E>> {
    v.map_values(|env: EventEnvelope<E>| env@)
}

/// Strips a sequence of envelopes down to the events they carry, in order.
pub fn events_of<E: Copy>(envelopes: &Vec<EventEnvelope<E>>) -> (r: Vec<E>)
    ensures
        r@.len() == envelopes@.len(),
        forall|i: int| 0 <= i < r@.len() ==> r@[i] == models_of(envelopes@)[i].event,
{
    let mut r: Vec<E> = Vec::new();
    let mut i: usize = 0;
    while i < envelopes.len()
        invariant
            0 <= i <= envelopes@.len(),
            r@.len() == i,
            forall|j: int| 0 <= j < i ==> r@[j] == models_of(envelopes@)[j].event,
        decreases envelopes@.len() - i,
    {
        r.push(envelopes[i].event);
        i = i + 1;
    }
    r
}

} // verus!
