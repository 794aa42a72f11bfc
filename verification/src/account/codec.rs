//! The wire form of account events and envelopes.
//!
//! The store and the bus transmit envelopes as self-describing byte strings:
//! a tag byte names the event variant, and the fixed-width fields follow in
//! little-endian order. An event is 25 bytes (tag, 128-bit identity, 64-bit
//! amount); an envelope adds its 64-bit sequence number in front. Decoding
//! accepts exactly the strings encoding produces, and the round trip gives
//! back the event field for field.

use vstd::bytes::{
    lemma_auto_spec_u128_to_from_le_bytes, lemma_auto_spec_u64_to_from_le_bytes,
    spec_u128_from_le_bytes, spec_u128_to_le_bytes, spec_u64_from_le_bytes, spec_u64_to_le_bytes,
    u128_from_le_bytes, u128_to_le_bytes, u64_from_le_bytes, u64_to_le_bytes,
};
use vstd::prelude::*;
use vstd::slice::{slice_index_get, slice_subrange};

use crate::account::events::{
    AccountEvent, AccountOpenedEvent, DepositEvent, WithdrawEvent, account_aggregate_type,
};
use crate::ids::AggregateId;
use crate::traits::event::{EnvelopeModel, Event, EventEnvelope};

verus! {

/// The tag byte of an opened event.
pub const OPENED_TAG: u8 = 1;

/// The tag byte of a deposit event.
pub const DEPOSIT_TAG: u8 = 2;

/// The tag byte of a withdraw event.
pub const WITHDRAW_TAG: u8 = 3;

/// The wire form of an event: its tag byte, the 16 bytes of its aggregate
/// identity, and the 8 bytes of its amount or starting balance.
pub open spec fn event_bytes(event: AccountEvent) -> Seq<u8> {
    match event {
        AccountEvent::Opened(e) => seq![OPENED_TAG] + spec_u128_to_le_bytes(e.account_id.bits)
            + spec_u64_to_le_bytes(e.balance),
        AccountEvent::Deposited(e) => seq![DEPOSIT_TAG] + spec_u128_to_le_bytes(e.account_id.bits)
            + spec_u64_to_le_bytes(e.amount),
        AccountEvent::Withdrawn(e) => seq![WITHDRAW_TAG] + spec_u128_to_le_bytes(e.account_id.bits)
            + spec_u64_to_le_bytes(e.amount),
    }
}

/// The event a byte string decodes to, if it is the wire form of one:
/// exactly 25 bytes under a known tag.
pub open spec fn parsed_event(b: Seq<u8>) -> Option<AccountEvent> {
    if b.len() != 25 {
        None
    } else {
        let id = AggregateId { bits: spec_u128_from_le_bytes(b.subrange(1, 17)) };
        let value = spec_u64_from_le_bytes(b.subrange(17, 25));
        if b[0] == OPENED_TAG {
            Some(AccountEvent::Opened(AccountOpenedEvent { account_id: id, balance: value }))
        } else if b[0] == DEPOSIT_TAG {
            Some(AccountEvent::Deposited(DepositEvent { account_id: id, amount: value }))
        } else if b[0] == WITHDRAW_TAG {
            Some(AccountEvent::Withdrawn(WithdrawEvent { account_id: id, amount: value }))
        } else {
            None
        }
    }
}

/// Encodes an event into its wire form.
pub fn encode_event(event: &AccountEvent) -> (r: Vec<u8>)
    ensures
        r@ == event_bytes(*event),
{
    let (tag, id_bits, value): (u8, u128, u64) = match event {
        AccountEvent::Opened(e) => (OPENED_TAG, e.account_id.bits, e.balance),
        AccountEvent::Deposited(e) => (DEPOSIT_TAG, e.account_id.bits, e.amount),
        AccountEvent::Withdrawn(e) => (WITHDRAW_TAG, e.account_id.bits, e.amount),
    };
    let mut out: Vec<u8> = Vec::new();
    out.push(tag);
    let mut id_part = u128_to_le_bytes(id_bits);
    out.append(&mut id_part);
    let mut value_part = u64_to_le_bytes(value);
    out.append(&mut value_part);
    proof {
        assert(out@ =~= event_bytes(*event));
    }
    out
}

/// Decodes a wire-form event; refuses every byte string that
/// [`encode_event`] cannot have produced.
pub fn decode_event(bytes: &[u8]) -> (r: Option<AccountEvent>)
    ensures
        r == parsed_event(bytes@),
{
    if bytes.len() != 25 {
        return None;
    }
    let tag = *slice_index_get(bytes, 0);
    let id_part = slice_subrange(bytes, 1, 17);
    let id = AggregateId { bits: u128_from_le_bytes(id_part) };
    let value_part = slice_subrange(bytes, 17, 25);
    let value = u64_from_le_bytes(value_part);
    if tag == OPENED_TAG {
        Some(AccountEvent::Opened(AccountOpenedEvent { account_id: id, balance: value }))
    } else if tag == DEPOSIT_TAG {
        Some(AccountEvent::Deposited(DepositEvent { account_id: id, amount: value }))
    } else if tag == WITHDRAW_TAG {
        Some(AccountEvent::Withdrawn(WithdrawEvent { account_id: id, amount: value }))
    } else {
        None
    }
}

/// Round trip: decoding the wire form of any event gives back exactly that
/// event, field for field.
pub proof fn lemma_event_codec_round_trip(event: AccountEvent)
    ensures
        parsed_event(event_bytes(event)) == Some(event),
{
    lemma_auto_spec_u128_to_from_le_bytes();
    lemma_auto_spec_u64_to_from_le_bytes();
    let b = event_bytes(event);
    match event {
        AccountEvent::Opened(e) => {
            assert(b.subrange(1, 17) =~= spec_u128_to_le_bytes(e.account_id.bits));
            assert(b.subrange(17, 25) =~= spec_u64_to_le_bytes(e.balance));
        },
        AccountEvent::Deposited(e) => {
            assert(b.subrange(1, 17) =~= spec_u128_to_le_bytes(e.account_id.bits));
            assert(b.subrange(17, 25) =~= spec_u64_to_le_bytes(e.amount));
        },
        AccountEvent::Withdrawn(e) => {
            assert(b.subrange(1, 17) =~= spec_u128_to_le_bytes(e.account_id.bits));
            assert(b.subrange(17, 25) =~= spec_u64_to_le_bytes(e.amount));
        },
    }
}

/// Exactness: a byte string that decodes to an event is that event's wire
/// form — decoding accepts nothing else.
pub proof fn lemma_event_codec_exact(b: Seq<u8>, event: AccountEvent)
    requires
        parsed_event(b) == Some(event),
    ensures
        event_bytes(event) == b,
{
    lemma_auto_spec_u128_to_from_le_bytes();
    lemma_auto_spec_u64_to_from_le_bytes();
    assert(b =~= seq![b[0]] + b.subrange(1, 17) + b.subrange(17, 25));
    assert(event_bytes(event) =~= seq![b[0]] + spec_u128_to_le_bytes(
        spec_u128_from_le_bytes(b.subrange(1, 17)),
    ) + spec_u64_to_le_bytes(spec_u64_from_le_bytes(b.subrange(17, 25))));
}

/// A well-formed account envelope: its routing metadata agrees with the
/// event it carries. Every envelope the store or the bus builds is of this
/// form.
pub open spec fn wf_account_envelope(m: EnvelopeModel<AccountEvent>) -> bool {
    &&& m.aggregate_id == m.event.id_spec()
    &&& m.aggregate_type == account_aggregate_type()
    &&& m.event_type == m.event.event_type_spec()
}

/// The wire form of an envelope: its sequence (or delivery) number, then the
/// event. The routing metadata is not transmitted: it is recomputed from the
/// event on decoding.
pub open spec fn envelope_bytes(m: EnvelopeModel<AccountEvent>) -> Seq<u8> {
    spec_u64_to_le_bytes(m.sequence_number) + event_bytes(m.event)
}

/// The envelope a byte string decodes to, if any.
pub open spec fn parsed_envelope(b: Seq<u8>) -> Option<EnvelopeModel<AccountEvent>> {
    if b.len() != 33 {
        None
    } else {
        match parsed_event(b.subrange(8, 33)) {
            Some(event) => Some(
                EnvelopeModel {
                    sequence_number: spec_u64_from_le_bytes(b.subrange(0, 8)),
                    aggregate_id: event.id_spec(),
                    aggregate_type: account_aggregate_type(),
                    event_type: event.event_type_spec(),
                    event,
                },
            ),
            None => None,
        }
    }
}

/// Encodes an envelope into its wire form.
pub fn encode_envelope(envelope: &EventEnvelope<AccountEvent>) -> (r: Vec<u8>)
    ensures
        r@ == envelope_bytes(envelope@),
{
    let mut out = u64_to_le_bytes(envelope.sequence_number);
    let mut event_part = encode_event(&envelope.event);
    out.append(&mut event_part);
    proof {
        assert(out@ =~= envelope_bytes(envelope@));
    }
    out
}

/// Decodes a wire-form envelope, recomputing the routing metadata from the
/// event it carries.
pub fn decode_envelope(bytes: &[u8]) -> (r: Option<EventEnvelope<AccountEvent>>)
    ensures
        match r {
            Some(envelope) => parsed_envelope(bytes@) == Some(envelope@),
            None => parsed_envelope(bytes@) is None,
        },
{
    if bytes.len() != 33 {
        return None;
    }
    let sequence_part = slice_subrange(bytes, 0, 8);
    let sequence_number = u64_from_le_bytes(sequence_part);
    let event_part = slice_subrange(bytes, 8, 33);
    let event = match decode_event(event_part) {
        Some(event) => event,
        None => {
            return None;
        },
    };
    let aggregate_id = event.aggregate_id();
    let aggregate_type = event.aggregate_type().to_string();
    let event_type = event.event_type().to_string();
    Some(EventEnvelope::new(sequence_number, aggregate_id, aggregate_type, event_type, event))
}

/// Round trip for envelopes: decoding the wire form of a well-formed
/// envelope gives back exactly that envelope.
pub proof fn lemma_envelope_codec_round_trip(m: EnvelopeModel<AccountEvent>)
    requires
        wf_account_envelope(m),
    ensures
        parsed_envelope(envelope_bytes(m)) == Some(m),
{
    lemma_auto_spec_u64_to_from_le_bytes();
    let b = envelope_bytes(m);
    lemma_event_codec_round_trip(m.event);
    assert(b.subrange(0, 8) =~= spec_u64_to_le_bytes(m.sequence_number));
    assert(b.subrange(8, 33) =~= event_bytes(m.event)) by {
        assert(event_bytes(m.event).len() == 25) by {
            lemma_event_bytes_len(m.event);
        }
    }
    assert(parsed_envelope(b)->0 =~= m);
}

/// The wire form of an event is always 25 bytes.
pub proof fn lemma_event_bytes_len(event: AccountEvent)
    ensures
        event_bytes(event).len() == 25,
{
    lemma_auto_spec_u128_to_from_le_bytes();
    lemma_auto_spec_u64_to_from_le_bytes();
}

} // verus!
