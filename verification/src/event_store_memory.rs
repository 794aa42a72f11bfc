//! The in-memory event store: the reference implementation of the
//! [`EventStore`] port, verified against its contract.
//!
//! Sequence numbers come from a counter, so they are globally unique and
//! strictly increasing by construction. The log is a single vector in append
//! order; an aggregate's history is the filtered sub-log.

use vstd::prelude::*;

use crate::ids::AggregateId;
use crate::traits::event::{EnvelopeModel, Event, EventEnvelope, models_of};
use crate::traits::event_store::{
    EventStore, EventStoreError, appended, envelope_model_for, events_for_aggregate, for_aggregate,
    fresh_for, last_sequence_for, lemma_events_for_aggregate_increasing,
    lemma_events_for_aggregate_push, strictly_increasing,
};

verus! {

/// String equality by content.
fn str_eq(a: &str, b: &str) -> (r: bool)
    ensures
        r == (a@ == b@),
{
    let sa: String = a.to_string();
    let sb: String = b.to_string();
    sa == sb
}

/// Filtering an empty log gives an empty sub-log.
proof fn lemma_events_for_aggregate_empty<E>(id: AggregateId, at: Seq<char>)
    ensures
        events_for_aggregate(Seq::<EnvelopeModel<E>>::empty(), id, at) == Seq::<
            EnvelopeModel<E>,
        >::empty(),
{
    reveal(Seq::filter);
}

/// An append-only log of enveloped events held in memory.
pub struct EventStoreMemory<E> {
    events: Vec<EventEnvelope<E>>,
    next_sequence_number: u64,
}

impl<E> EventStoreMemory<E> {
    /// An empty store; sequence numbers start at zero.
    pub fn new<T>() -> (r: Self) where E: Event<T> + Copy
        ensures
            <EventStoreMemory<E> as EventStore<T, E>>::log(&r) == Seq::<EnvelopeModel<E>>::empty(),
            <EventStoreMemory<E> as EventStore<T, E>>::inv(&r),
            <EventStoreMemory<E> as EventStore<T, E>>::can_append(&r),
            <EventStoreMemory<E> as EventStore<T, E>>::can_read(&r),
    {
        let r = EventStoreMemory { events: Vec::new(), next_sequence_number: 0 };
        proof {
            assert(models_of(r.events@) =~= Seq::<EnvelopeModel<E>>::empty());
        }
        r
    }
}

impl<T, E: Event<T> + Copy> EventStore<T, E> for EventStoreMemory<E> {
    closed spec fn log(&self) -> Seq<EnvelopeModel<E>> {
        models_of(self.events@)
    }

    closed spec fn inv(&self) -> bool {
        &&& strictly_increasing(models_of(self.events@))
        &&& forall|i: int|
            0 <= i < self.events@.len() ==> (#[trigger] self.events@[i]@.sequence_number)
                < self.next_sequence_number
    }

    closed spec fn can_append(&self) -> bool {
        self.next_sequence_number < u64::MAX
    }

    /// Reads from memory never fail.
    closed spec fn can_read(&self) -> bool {
        true
    }

    fn append_event(&mut self, aggregate_id: AggregateId, aggregate_type: &str, event: E) -> (r:
        Result<(), EventStoreError>) {
        if self.next_sequence_number == u64::MAX {
            return Err(EventStoreError::EventStoreError("sequence numbers exhausted".to_string()));
        }
        let n = self.next_sequence_number;
        self.next_sequence_number = n + 1;
        let envelope = EventEnvelope::new(
            n,
            aggregate_id,
            aggregate_type.to_string(),
            event.event_type().to_string(),
            event,
        );
        let ghost old_models = models_of(self.events@);
        self.events.push(envelope);
        proof {
            let m = envelope_model_for::<T, E>(n, aggregate_id, aggregate_type@, event);
            assert(models_of(self.events@) =~= old_models.push(m));
            assert(fresh_for(old_models, n));
            assert(appended::<T, E>(
                old_models,
                models_of(self.events@),
                aggregate_id,
                aggregate_type@,
                event,
            ));
        }
        Ok(())
    }

    fn append_event_expected(
        &mut self,
        aggregate_id: AggregateId,
        aggregate_type: &str,
        expected_version: Option<u64>,
        event: E,
    ) -> (r: Result<(), EventStoreError>) {
        let current = self.latest_sequence_number::<T>(aggregate_id, aggregate_type);
        let same = match (current, expected_version) {
            (None, None) => true,
            (Some(c), Some(e)) => c == e,
            _ => false,
        };
        if !same {
            return Err(EventStoreError::ConcurrencyConflict);
        }
        self.append_event(aggregate_id, aggregate_type, event)
    }

    fn get_events_for_aggregate(&self, aggregate_id: AggregateId, aggregate_type: &str) -> (r:
        Result<Vec<EventEnvelope<E>>, EventStoreError>) {
        let ghost lg = models_of(self.events@);
        let ghost at = aggregate_type@;
        let mut out: Vec<EventEnvelope<E>> = Vec::new();
        proof {
            assert(lg.take(0) =~= Seq::<EnvelopeModel<E>>::empty());
            lemma_events_for_aggregate_empty::<E>(aggregate_id, at);
            assert(models_of(out@) =~= Seq::<EnvelopeModel<E>>::empty());
        }
        let mut i: usize = 0;
        while i < self.events.len()
            invariant
                0 <= i <= self.events@.len(),
                lg == models_of(self.events@),
                at == aggregate_type@,
                models_of(out@) == events_for_aggregate(lg.take(i as int), aggregate_id, at),
            decreases self.events@.len() - i,
        {
            let env = &self.events[i];
            let same = env.aggregate_id == aggregate_id && str_eq(
                env.aggregate_type.as_str(),
                aggregate_type,
            );
            proof {
                assert(lg[i as int] == self.events@[i as int]@);
                assert(same == for_aggregate(lg[i as int], aggregate_id, at));
                assert(lg.take(i as int + 1) =~= lg.take(i as int).push(lg[i as int]));
                lemma_events_for_aggregate_push(lg.take(i as int), lg[i as int], aggregate_id, at);
            }
            if same {
                let ghost pre = models_of(out@);
                out.push(env.clone());
                proof {
                    assert(models_of(out@) =~= pre.push(lg[i as int]));
                }
            }
            i = i + 1;
        }
        proof {
            assert(lg.take(self.events@.len() as int) =~= lg);
            lemma_events_for_aggregate_increasing(lg, aggregate_id, at);
        }
        Ok(out)
    }

    fn get_all_events(&self) -> (r: Result<Vec<EventEnvelope<E>>, EventStoreError>) {
        let ghost lg = models_of(self.events@);
        let mut out: Vec<EventEnvelope<E>> = Vec::new();
        proof {
            assert(models_of(out@) =~= lg.take(0));
        }
        let mut i: usize = 0;
        while i < self.events.len()
            invariant
                0 <= i <= self.events@.len(),
                lg == models_of(self.events@),
                models_of(out@) == lg.take(i as int),
            decreases self.events@.len() - i,
        {
            let ghost pre = models_of(out@);
            let env = &self.events[i];
            out.push(env.clone());
            proof {
                assert(models_of(out@) =~= pre.push(lg[i as int]));
                assert(lg.take(i as int + 1) =~= lg.take(i as int).push(lg[i as int]));
            }
            i = i + 1;
        }
        proof {
            assert(lg.take(self.events@.len() as int) =~= lg);
        }
        Ok(out)
    }
}

impl<E: Copy> EventStoreMemory<E> {
    /// The latest sequence number of the given aggregate, if it has events:
    /// the token a caller hands back to the optimistic append.
    pub fn latest_sequence_number<T>(&self, aggregate_id: AggregateId, aggregate_type: &str) -> (r:
        Option<u64>) where E: Event<T>
        ensures
            r == last_sequence_for(
                <EventStoreMemory<E> as EventStore<T, E>>::log(self),
                aggregate_id,
                aggregate_type@,
            ),
    {
        let ghost lg = models_of(self.events@);
        let ghost at = aggregate_type@;
        let mut latest: Option<u64> = None;
        proof {
            assert(lg.take(0) =~= Seq::<EnvelopeModel<E>>::empty());
            lemma_events_for_aggregate_empty::<E>(aggregate_id, at);
        }
        let mut i: usize = 0;
        while i < self.events.len()
            invariant
                0 <= i <= self.events@.len(),
                lg == models_of(self.events@),
                at == aggregate_type@,
                ({
                    let sub = events_for_aggregate(lg.take(i as int), aggregate_id, at);
                    latest == if sub.len() == 0 {
                        Option::<u64>::None
                    } else {
                        Option::<u64>::Some(sub.last().sequence_number)
                    }
                }),
            decreases self.events@.len() - i,
        {
            let env = &self.events[i];
            let same = env.aggregate_id == aggregate_id && str_eq(
                env.aggregate_type.as_str(),
                aggregate_type,
            );
            proof {
                assert(lg[i as int] == self.events@[i as int]@);
                assert(same == for_aggregate(lg[i as int], aggregate_id, at));
                assert(lg.take(i as int + 1) =~= lg.take(i as int).push(lg[i as int]));
                lemma_events_for_aggregate_push(lg.take(i as int), lg[i as int], aggregate_id, at);
            }
            if same {
                latest = Some(env.sequence_number);
            }
            i = i + 1;
        }
        proof {
            assert(lg.take(self.events@.len() as int) =~= lg);
        }
        latest
    }
}

} // verus!
