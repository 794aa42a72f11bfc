//! The event bus port: asynchronous, at-least-once fan-out of produced
//! events to subscribers.
//!
//! A producer wraps each event in an envelope of its own — the envelope's
//! number is a delivery-level identifier, distinct from the store's sequence
//! number — and publishes it to a single logical channel keyed by the
//! aggregate identifier, so that one ordered consumer preserves per-aggregate
//! delivery order. Delivery is at-least-once: a consumer may see duplicates,
//! and ordering is guaranteed only per aggregate key. The subscription loop
//! itself is transport plumbing and lives with the adapter; the port covers
//! the producer side and the queue a consumer drains.

use vstd::prelude::*;

use super::event::{EnvelopeModel, Event};
use super::event_store::envelope_model_for;

verus! {

/// Failure of the event bus.
#[derive(Debug, Clone, PartialEq)]
pub enum EventBusError {
    /// Publishing failed, with a description.
    ProduceError(String),
    /// Subscribing failed, with a description.
    SubscribeError(String),
    /// An envelope could not be serialised or deserialised.
    SerialisationError(String),
    /// A subscriber's handler failed; reported to the error sink, the
    /// subscription itself carries on.
    HandleError(String),
}

/// The new queue is the old one plus exactly one envelope around the given
/// event, keyed and typed by the event itself, under some delivery
/// identifier.
pub open spec fn published<T, E: Event<T>>(
    old_queue: Seq<EnvelopeModel<E>>,
    new_queue: Seq<EnvelopeModel<E>>,
    event: E,
) -> bool {
    exists|d: u64|
        new_queue == old_queue.push(
            #[trigger] envelope_model_for::<T, E>(
                d,
                event.id_spec(),
                event.aggregate_type_spec(),
                event,
            ),
        )
}

/// The producer side of the bus, and the queue a consumer drains.
///
/// `pending()` is the sequence of published, not yet delivered envelopes, in
/// publish order; `can_produce()` says whether the next publish is able to
/// succeed.
/// An adapter outside the verified world inherits the default models below
/// (an empty queue that is always available); a verified implementation
/// supplies its own.
pub trait EventBus<T, E: Event<T>>: Sized {
    open spec fn pending(&self) -> Seq<EnvelopeModel<E>> {
        Seq::empty()
    }

    open spec fn inv(&self) -> bool {
        true
    }

    open spec fn can_produce(&self) -> bool {
        true
    }

    /// Wraps the event in an envelope carrying its own delivery identifier
    /// and publishes it; on failure nothing is published.
    fn produce_event(&mut self, event: E) -> (r: Result<(), EventBusError>)
        requires
            old(self).inv(),
        ensures
            final(self).inv(),
            r is Ok <==> old(self).can_produce(),
            r is Ok ==> published::<T, E>(old(self).pending(), final(self).pending(), event),
            r is Err ==> final(self).pending() == old(self).pending() && final(self).can_produce()
                == old(self).can_produce(),
    ;
}

} // verus!
