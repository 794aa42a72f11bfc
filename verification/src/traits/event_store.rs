//! The event store port: a durable, ordered, per-aggregate append log.
//!
//! Every appended event receives a sequence number that is unique across the
//! whole store and strictly greater than every number assigned before it, so
//! the log is totally ordered and each aggregate's history is retrievable in
//! append order with no gaps.
//!
//! The plain [`EventStore::append_event`] has no concurrency control: two
//! writers that read the same history can both append, and neither is told
//! of the other. [`EventStore::append_event_expected`] is the optimistic
//! variant: it takes the last sequence number the caller saw for the
//! aggregate and refuses with [`EventStoreError::ConcurrencyConflict`] when
//! the aggregate has advanced since that read.

use vstd::prelude::*;

use super::event::{EnvelopeModel, Event, EventEnvelope, models_of};
use crate::ids::AggregateId;

verus! {

/// Failure of the event store.
#[derive(Debug, Clone, PartialEq)]
pub enum EventStoreError {
    /// The backing log failed (I/O, serialisation, exhaustion of sequence
    /// numbers), with a description.
    EventStoreError(String),
    /// The aggregate's latest sequence number has advanced since the
    /// caller's read: the write was refused, nothing was appended.
    ConcurrencyConflict,
}

/// Sequence numbers strictly increase along the log.
pub open spec fn strictly_increasing<E>(log: Seq<EnvelopeModel<E>>) -> bool {
    forall|i: int, j: int|
        0 <= i < j < log.len() ==> log[i].sequence_number < log[j].sequence_number
}

/// The envelope belongs to the given aggregate.
pub open spec fn for_aggregate<E>(m: EnvelopeModel<E>, id: AggregateId, at: Seq<char>) -> bool {
    m.aggregate_id == id && m.aggregate_type == at
}

/// The sub-log of the given aggregate, in store order.
pub open spec fn events_for_aggregate<E>(
    log: Seq<EnvelopeModel<E>>,
    id: AggregateId,
    at: Seq<char>,
) -> Seq<EnvelopeModel<E>> {
    log.filter(|m: EnvelopeModel<E>| for_aggregate(m, id, at))
}

/// The aggregate's event history: its sub-log, stripped of the metadata.
pub open spec fn history_for_aggregate<E>(
    log: Seq<EnvelopeModel<E>>,
    id: AggregateId,
    at: Seq<char>,
) -> Seq<E> {
    events_for_aggregate(log, id, at).map_values(|m: EnvelopeModel<E>| m.event)
}

/// The aggregate's latest sequence number, if it has any events: the
/// expected-version token of the optimistic append.
pub open spec fn last_sequence_for<E>(
    log: Seq<EnvelopeModel<E>>,
    id: AggregateId,
    at: Seq<char>,
) -> Option<u64> {
    let sub = events_for_aggregate(log, id, at);
    if sub.len() == 0 {
        None
    } else {
        Some(sub.last().sequence_number)
    }
}

/// The number is strictly greater than every sequence number in the log.
pub open spec fn fresh_for<E>(log: Seq<EnvelopeModel<E>>, n: u64) -> bool {
    forall|i: int| 0 <= i < log.len() ==> (#[trigger] log[i].sequence_number) < n
}

/// The envelope the store builds around an event.
pub open spec fn envelope_model_for<T, E: Event<T>>(
    n: u64,
    id: AggregateId,
    at: Seq<char>,
    event: E,
) -> EnvelopeModel<E> {
    EnvelopeModel {
        sequence_number: n,
        aggregate_id: id,
        aggregate_type: at,
        event_type: event.event_type_spec(),
        event,
    }
}

/// The new log is the old one plus exactly one envelope for the given event,
/// under a sequence number strictly greater than every number already used.
pub open spec fn appended<T, E: Event<T>>(
    old_log: Seq<EnvelopeModel<E>>,
    new_log: Seq<EnvelopeModel<E>>,
    id: AggregateId,
    at: Seq<char>,
    event: E,
) -> bool {
    exists|n: u64|
        #![trigger envelope_model_for::<T, E>(n, id, at, event)]
        fresh_for(old_log, n) && new_log == old_log.push(envelope_model_for::<T, E>(n, id, at, event))
}

/// The durable, ordered, per-aggregate append log.
///
/// `log()` is the store's mathematical content, `inv()` its well-formedness;
/// `can_append()` and `can_read()` say whether the next write or read is able
/// to succeed (for the in-memory store, reads always succeed and writes
/// succeed until the sequence numbers are exhausted).
/// An adapter outside the verified world inherits the default models below
/// (an empty log that is always available); a verified implementation
/// supplies its own.
pub trait EventStore<T, E: Event<T>>: Sized {
    open spec fn log(&self) -> Seq<EnvelopeModel<E>> {
        Seq::empty()
    }

    open spec fn inv(&self) -> bool {
        true
    }

    open spec fn can_append(&self) -> bool {
        true
    }

    open spec fn can_read(&self) -> bool {
        true
    }

    /// Assigns the event a fresh, strictly increasing sequence number, wraps
    /// it in an envelope and appends it — atomically: on failure nothing is
    /// appended. No concurrency control: this variant never reports a
    /// conflict (see [`EventStore::append_event_expected`]).
    fn append_event(&mut self, aggregate_id: AggregateId, aggregate_type: &str, event: E) -> (r:
        Result<(), EventStoreError>)
        requires
            old(self).inv(),
        ensures
            final(self).inv(),
            final(self).can_read() == old(self).can_read(),
            r is Ok <==> old(self).can_append(),
            r is Ok ==> appended::<T, E>(
                old(self).log(),
                final(self).log(),
                aggregate_id,
                aggregate_type@,
                event,
            ),
            r is Err ==> final(self).log() == old(self).log() && final(self).can_append() == old(
                self,
            ).can_append(),
            r is Err ==> !(r->Err_0 is ConcurrencyConflict),
    ;

    /// The optimistic-concurrency append: `expected_version` is the last
    /// sequence number the caller saw for this aggregate (`None` for "no
    /// events yet"). If the aggregate has advanced past it, nothing is
    /// appended and the call fails with `ConcurrencyConflict`; otherwise the
    /// call behaves as [`EventStore::append_event`].
    fn append_event_expected(
        &mut self,
        aggregate_id: AggregateId,
        aggregate_type: &str,
        expected_version: Option<u64>,
        event: E,
    ) -> (r: Result<(), EventStoreError>)
        requires
            old(self).inv(),
        ensures
            final(self).inv(),
            final(self).can_read() == old(self).can_read(),
            ({
                let current = last_sequence_for(old(self).log(), aggregate_id, aggregate_type@);
                &&& (r is Ok <==> current == expected_version && old(self).can_append())
                &&& (r is Ok ==> appended::<T, E>(
                    old(self).log(),
                    final(self).log(),
                    aggregate_id,
                    aggregate_type@,
                    event,
                ))
                &&& (r is Err ==> final(self).log() == old(self).log()
                    && final(self).can_append() == old(self).can_append())
                &&& (current != expected_version ==> r == Err::<(), EventStoreError>(
                    EventStoreError::ConcurrencyConflict,
                ))
                &&& (current == expected_version && !old(self).can_append() ==> !(r->Err_0
                    is ConcurrencyConflict))
            }),
    ;

    /// The aggregate's envelopes, ascending by sequence number: all events
    /// ever appended for it, in append order.
    fn get_events_for_aggregate(&self, aggregate_id: AggregateId, aggregate_type: &str) -> (r:
        Result<Vec<EventEnvelope<E>>, EventStoreError>)
        requires
            self.inv(),
        ensures
            r is Ok <==> self.can_read(),
            r is Ok ==> models_of(r->Ok_0@) == events_for_aggregate(
                self.log(),
                aggregate_id,
                aggregate_type@,
            ),
            r is Ok ==> strictly_increasing(models_of(r->Ok_0@)),
    ;

    /// The whole log in global order, for full rebuilds and migrations.
    fn get_all_events(&self) -> (r: Result<Vec<EventEnvelope<E>>, EventStoreError>)
        requires
            self.inv(),
        ensures
            r is Ok <==> self.can_read(),
            r is Ok ==> models_of(r->Ok_0@) == self.log(),
    ;
}

/// Every element of the aggregate's sub-log occurs in the log.
proof fn lemma_events_for_aggregate_elements<E>(
    log: Seq<EnvelopeModel<E>>,
    id: AggregateId,
    at: Seq<char>,
)
    ensures
        forall|i: int|
            0 <= i < events_for_aggregate(log, id, at).len() ==> log.contains(
                #[trigger] events_for_aggregate(log, id, at)[i],
            ),
    decreases log.len(),
{
    reveal(Seq::filter);
    if log.len() != 0 {
        let prefix = log.drop_last();
        lemma_events_for_aggregate_elements(prefix, id, at);
        let sub = events_for_aggregate(log, id, at);
        let sub_prefix = events_for_aggregate(prefix, id, at);
        assert forall|i: int| 0 <= i < sub.len() implies log.contains(sub[i]) by {
            if i < sub_prefix.len() {
                assert(sub[i] == sub_prefix[i]);
                assert(prefix.contains(sub_prefix[i]));
                let j = choose|j: int| 0 <= j < prefix.len() && prefix[j] == sub_prefix[i];
                assert(log[j] == sub[i]);
            } else {
                assert(sub[i] == log.last());
                assert(log[log.len() - 1] == log.last());
            }
        }
    }
}

/// Filtering to one aggregate keeps the log's strict ordering: the
/// sub-log returned for an aggregate is strictly ascending as well.
pub proof fn lemma_events_for_aggregate_increasing<E>(
    log: Seq<EnvelopeModel<E>>,
    id: AggregateId,
    at: Seq<char>,
)
    requires
        strictly_increasing(log),
    ensures
        strictly_increasing(events_for_aggregate(log, id, at)),
    decreases log.len(),
{
    reveal(Seq::filter);
    if log.len() != 0 {
        let prefix = log.drop_last();
        assert(strictly_increasing(prefix)) by {
            assert(forall|j: int| 0 <= j < prefix.len() ==> prefix[j] == log[j]);
        }
        lemma_events_for_aggregate_increasing(prefix, id, at);
        lemma_events_for_aggregate_elements(prefix, id, at);
        let sub = events_for_aggregate(log, id, at);
        let sub_prefix = events_for_aggregate(prefix, id, at);
        if for_aggregate(log.last(), id, at) {
            assert(sub == sub_prefix.push(log.last()));
            assert(forall|k: int|
                0 <= k < sub_prefix.len() ==> (#[trigger] sub_prefix[k]).sequence_number
                    < log.last().sequence_number) by {
                assert(forall|k: int|
                    0 <= k < sub_prefix.len() ==> prefix.contains(#[trigger] sub_prefix[k]));
                assert(forall|j: int|
                    0 <= j < prefix.len() ==> (#[trigger] prefix[j]).sequence_number
                        < log.last().sequence_number) by {
                    assert(forall|j: int| 0 <= j < prefix.len() ==> prefix[j] == log[j]);
                }
            }
        } else {
            assert(sub == sub_prefix);
        }
    }
}

/// Round trip through the store: after an append for an aggregate, the
/// aggregate's sub-log is exactly what it was with the appended envelope at
/// the end — reading the aggregate back yields the appended event, field for
/// field, after every earlier event — and no other aggregate's sub-log has
/// moved.
pub proof fn lemma_append_round_trip<T, E: Event<T>>(
    old_log: Seq<EnvelopeModel<E>>,
    new_log: Seq<EnvelopeModel<E>>,
    id: AggregateId,
    at: Seq<char>,
    event: E,
)
    requires
        appended::<T, E>(old_log, new_log, id, at, event),
    ensures
        events_for_aggregate(new_log, id, at).len() == events_for_aggregate(old_log, id, at).len()
            + 1,
        events_for_aggregate(new_log, id, at).last().event == event,
        events_for_aggregate(new_log, id, at).drop_last() == events_for_aggregate(old_log, id, at),
        history_for_aggregate(new_log, id, at) == history_for_aggregate(old_log, id, at).push(
            event,
        ),
        forall|other: AggregateId|
            other != id ==> #[trigger] events_for_aggregate(new_log, other, at)
                == events_for_aggregate(old_log, other, at),
{
    let n = choose|n: u64|
        #![trigger envelope_model_for::<T, E>(n, id, at, event)]
        fresh_for(old_log, n) && new_log == old_log.push(
            envelope_model_for::<T, E>(n, id, at, event),
        );
    let m = envelope_model_for::<T, E>(n, id, at, event);
    lemma_events_for_aggregate_push(old_log, m, id, at);
    assert(events_for_aggregate(new_log, id, at).drop_last() =~= events_for_aggregate(
        old_log,
        id,
        at,
    ));
    assert(history_for_aggregate(new_log, id, at) =~= history_for_aggregate(old_log, id, at).push(
        event,
    ));
    assert forall|other: AggregateId|
        other != id implies #[trigger] events_for_aggregate(new_log, other, at)
        == events_for_aggregate(old_log, other, at) by {
        lemma_events_for_aggregate_push(old_log, m, other, at);
    }
}

/// How one append changes an aggregate's sub-log: its own grows by exactly
/// the new envelope, every other aggregate's is untouched.
pub proof fn lemma_events_for_aggregate_push<E>(
    log: Seq<EnvelopeModel<E>>,
    m: EnvelopeModel<E>,
    id: AggregateId,
    at: Seq<char>,
)
    ensures
        for_aggregate(m, id, at) ==> events_for_aggregate(log.push(m), id, at)
            == events_for_aggregate(log, id, at).push(m),
        !for_aggregate(m, id, at) ==> events_for_aggregate(log.push(m), id, at)
            == events_for_aggregate(log, id, at),
{
    reveal(Seq::filter);
    assert(log.push(m).drop_last() =~= log);
    assert(log.push(m).last() == m);
}

} // verus!
