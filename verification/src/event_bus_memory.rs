//! The in-memory event bus: the reference implementation of the [`EventBus`]
//! port, verified against its contract.
//!
//! Published envelopes sit in one ordered queue (the single logical channel);
//! a consumer drains it in publish order with [`EventBusMemory::take_next`],
//! which preserves per-aggregate delivery order. Delivery identifiers come
//! from a counter. At-least-once delivery means a consumer may be handed the
//! same event twice; [`EventBusMemory::take_next`] hands each envelope out
//! once, and a duplicate delivery is simply a second call of the handler,
//! which the projection side must tolerate.

use vstd::prelude::*;

use crate::traits::event::{EnvelopeModel, Event, EventEnvelope, models_of};
use crate::traits::event_bus::{EventBus, EventBusError, published};
use crate::traits::event_store::envelope_model_for;

verus! {

/// A single ordered in-memory channel of enveloped events.
pub struct EventBusMemory<E> {
    queue: Vec<EventEnvelope<E>>,
    next_delivery_id: u64,
}

impl<E> EventBusMemory<E> {
    /// An empty channel; delivery identifiers start at zero.
    pub fn new<T>() -> (r: Self) where E: Event<T>
        ensures
            <EventBusMemory<E> as EventBus<T, E>>::pending(&r) == Seq::<EnvelopeModel<E>>::empty(),
            <EventBusMemory<E> as EventBus<T, E>>::inv(&r),
            <EventBusMemory<E> as EventBus<T, E>>::can_produce(&r),
    {
        let r = EventBusMemory { queue: Vec::new(), next_delivery_id: 0 };
        proof {
            assert(models_of(r.queue@) =~= Seq::<EnvelopeModel<E>>::empty());
        }
        r
    }

    /// Takes the next envelope off the channel, oldest first, if any is
    /// waiting.
    pub fn take_next<T>(&mut self) -> (r: Option<EventEnvelope<E>>) where E: Event<T>
        ensures
            ({
                let pre = <EventBusMemory<E> as EventBus<T, E>>::pending(old(self));
                let post = <EventBusMemory<E> as EventBus<T, E>>::pending(final(self));
                &&& (pre.len() == 0 ==> r is None && post == pre)
                &&& (pre.len() > 0 ==> r is Some && r->0@ == pre.first() && post == pre.skip(1))
                &&& <EventBusMemory<E> as EventBus<T, E>>::inv(final(self))
                &&& <EventBusMemory<E> as EventBus<T, E>>::can_produce(final(self))
                    == <EventBusMemory<E> as EventBus<T, E>>::can_produce(old(self))
            }),
    {
        if self.queue.len() == 0 {
            return None;
        }
        let ghost pre = models_of(self.queue@);
        let env = self.queue.remove(0);
        proof {
            assert(models_of(self.queue@) =~= pre.skip(1));
        }
        Some(env)
    }
}

impl<T, E: Event<T>> EventBus<T, E> for EventBusMemory<E> {
    closed spec fn pending(&self) -> Seq<EnvelopeModel<E>> {
        models_of(self.queue@)
    }

    closed spec fn inv(&self) -> bool {
        true
    }

    closed spec fn can_produce(&self) -> bool {
        self.next_delivery_id < u64::MAX
    }

    fn produce_event(&mut self, event: E) -> (r: Result<(), EventBusError>) {
        if self.next_delivery_id == u64::MAX {
            return Err(EventBusError::ProduceError("delivery identifiers exhausted".to_string()));
        }
        let d = self.next_delivery_id;
        self.next_delivery_id = d + 1;
        let aggregate_id = event.aggregate_id();
        let aggregate_type = event.aggregate_type();
        let event_type = event.event_type();
        let envelope = EventEnvelope::new(
            d,
            aggregate_id,
            aggregate_type.to_string(),
            event_type.to_string(),
            event,
        );
        let ghost pre = models_of(self.queue@);
        self.queue.push(envelope);
        proof {
            let m = envelope_model_for::<T, E>(
                d,
                event.id_spec(),
                event.aggregate_type_spec(),
                event,
            );
            assert(models_of(self.queue@) =~= pre.push(m));
            assert(published::<T, E>(pre, models_of(self.queue@), event));
        }
        Ok(())
    }
}

} // verus!
