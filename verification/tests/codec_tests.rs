use event_sourcing::account::codec::{
    decode_envelope, decode_event, encode_envelope, encode_event, DEPOSIT_TAG, OPENED_TAG,
    WITHDRAW_TAG,
};
use event_sourcing::account::events::{
    AccountEvent, AccountOpenedEvent, DepositEvent, WithdrawEvent,
};
use event_sourcing::ids::AggregateId;
use event_sourcing::traits::event::EventEnvelope;

#[test]
fn the_wire_form_is_tag_then_identity_then_amount() {
    let event = AccountEvent::Deposited(DepositEvent {
        account_id: AggregateId::from_bits(0x10),
        amount: 300,
    });
    let bytes = encode_event(&event);
    let mut expected = vec![DEPOSIT_TAG];
    expected.extend_from_slice(&0x10u128.to_le_bytes());
    expected.extend_from_slice(&300u64.to_le_bytes());
    assert_eq!(bytes, expected);
    assert_eq!(bytes.len(), 25);
}

#[test]
fn every_event_round_trips_through_the_codec() {
    let id = AggregateId::from_bits(0x0102_0304_0506_0708_090a_0b0c_0d0e_0f10);
    let events = [
        AccountEvent::Opened(AccountOpenedEvent { account_id: id, balance: u64::MAX }),
        AccountEvent::Deposited(DepositEvent { account_id: id, amount: 0 }),
        AccountEvent::Withdrawn(WithdrawEvent { account_id: id, amount: 12345 }),
    ];
    for event in events {
        let bytes = encode_event(&event);
        assert_eq!(decode_event(&bytes), Some(event));
    }
}

#[test]
fn the_tags_name_the_variants() {
    let id = AggregateId::from_bits(1);
    assert_eq!(
        encode_event(&AccountEvent::Opened(AccountOpenedEvent { account_id: id, balance: 0 }))[0],
        OPENED_TAG
    );
    assert_eq!(
        encode_event(&AccountEvent::Deposited(DepositEvent { account_id: id, amount: 0 }))[0],
        DEPOSIT_TAG
    );
    assert_eq!(
        encode_event(&AccountEvent::Withdrawn(WithdrawEvent { account_id: id, amount: 0 }))[0],
        WITHDRAW_TAG
    );
}

#[test]
fn decoding_refuses_a_wrong_length() {
    assert_eq!(decode_event(&[]), None);
    assert_eq!(decode_event(&[OPENED_TAG; 24]), None);
    assert_eq!(decode_event(&[OPENED_TAG; 26]), None);
}

#[test]
fn decoding_refuses_an_unknown_tag() {
    let mut bytes = encode_event(&AccountEvent::Deposited(DepositEvent {
        account_id: AggregateId::from_bits(2),
        amount: 9,
    }));
    bytes[0] = 0;
    assert_eq!(decode_event(&bytes), None);
    bytes[0] = 4;
    assert_eq!(decode_event(&bytes), None);
}

#[test]
fn an_envelope_round_trips_and_recomputes_its_metadata() {
    let id = AggregateId::from_bits(77);
    let event = AccountEvent::Withdrawn(WithdrawEvent { account_id: id, amount: 8 });
    let envelope = EventEnvelope::new(
        41,
        id,
        "account".to_string(),
        "withdraw".to_string(),
        event,
    );
    let bytes = encode_envelope(&envelope);
    assert_eq!(bytes.len(), 33);
    let decoded = decode_envelope(&bytes).unwrap();
    assert_eq!(decoded.sequence_number, 41);
    assert_eq!(decoded.aggregate_id, id);
    assert_eq!(decoded.aggregate_type, "account");
    assert_eq!(decoded.event_type, "withdraw");
    assert_eq!(decoded.event, event);
}

#[test]
fn decoding_an_envelope_refuses_a_torn_payload() {
    let id = AggregateId::from_bits(78);
    let event = AccountEvent::Deposited(DepositEvent { account_id: id, amount: 8 });
    let envelope = EventEnvelope::new(1, id, "account".to_string(), "deposit".to_string(), event);
    let mut bytes = encode_envelope(&envelope);
    bytes.pop();
    assert!(decode_envelope(&bytes).is_none());
}
