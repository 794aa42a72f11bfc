use event_sourcing::account::events::{
    AccountEvent, AccountOpenedEvent, DepositEvent, WithdrawEvent,
};
use event_sourcing::account::Account;
use event_sourcing::event_store_memory::EventStoreMemory;
use event_sourcing::ids::AggregateId;
use event_sourcing::traits::command::Command;
use event_sourcing::account::commands::WithdrawCommand;
use event_sourcing::traits::aggregate::from_history;
use event_sourcing::traits::event::events_of;
use event_sourcing::traits::event_store::{EventStore, EventStoreError};

fn fresh_store() -> EventStoreMemory<AccountEvent> {
    EventStoreMemory::new::<Account>()
}

#[test]
fn append_then_read_back_returns_the_event() {
    let mut store = fresh_store();
    let id = AggregateId::from_bits(21);
    let event = AccountEvent::Opened(AccountOpenedEvent { account_id: id, balance: 10 });
    store.append_event(id, "account", event).unwrap();
    let envelopes = store.get_events_for_aggregate(id, "account").unwrap();
    assert_eq!(envelopes.len(), 1);
    assert_eq!(envelopes[0].event, event);
    assert_eq!(envelopes[0].aggregate_id, id);
    assert_eq!(envelopes[0].aggregate_type, "account");
    assert_eq!(envelopes[0].event_type, "account_opened");
    assert_eq!(envelopes[0].sequence_number, 0);
}

#[test]
fn sequence_numbers_increase_across_the_whole_store() {
    let mut store = fresh_store();
    let a = AggregateId::from_bits(22);
    let b = AggregateId::from_bits(23);
    store
        .append_event(a, "account", AccountEvent::Opened(AccountOpenedEvent {
            account_id: a,
            balance: 1,
        }))
        .unwrap();
    store
        .append_event(b, "account", AccountEvent::Opened(AccountOpenedEvent {
            account_id: b,
            balance: 2,
        }))
        .unwrap();
    store
        .append_event(a, "account", AccountEvent::Deposited(DepositEvent {
            account_id: a,
            amount: 3,
        }))
        .unwrap();
    store
        .append_event(b, "account", AccountEvent::Deposited(DepositEvent {
            account_id: b,
            amount: 4,
        }))
        .unwrap();

    let all = store.get_all_events().unwrap();
    assert_eq!(all.len(), 4);
    for i in 0..all.len() {
        assert_eq!(all[i].sequence_number, i as u64);
    }

    let for_a = store.get_events_for_aggregate(a, "account").unwrap();
    assert_eq!(for_a.len(), 2);
    assert!(for_a[0].sequence_number < for_a[1].sequence_number);
    assert_eq!(for_a[0].sequence_number, 0);
    assert_eq!(for_a[1].sequence_number, 2);
    assert!(for_a.iter().all(|e| e.aggregate_id == a));

    let for_b = store.get_events_for_aggregate(b, "account").unwrap();
    assert_eq!(for_b.len(), 2);
    assert!(for_b[0].sequence_number < for_b[1].sequence_number);
}

#[test]
fn an_unknown_aggregate_has_no_events() {
    let store = fresh_store();
    let envelopes = store
        .get_events_for_aggregate(AggregateId::from_bits(24), "account")
        .unwrap();
    assert!(envelopes.is_empty());
}

#[test]
fn another_aggregate_type_is_a_different_stream() {
    let mut store = fresh_store();
    let id = AggregateId::from_bits(25);
    store
        .append_event(id, "account", AccountEvent::Opened(AccountOpenedEvent {
            account_id: id,
            balance: 1,
        }))
        .unwrap();
    let other = store.get_events_for_aggregate(id, "ledger").unwrap();
    assert!(other.is_empty());
}

#[test]
fn latest_sequence_number_tracks_the_aggregate() {
    let mut store = fresh_store();
    let id = AggregateId::from_bits(26);
    assert_eq!(store.latest_sequence_number::<Account>(id, "account"), None);
    store
        .append_event(id, "account", AccountEvent::Opened(AccountOpenedEvent {
            account_id: id,
            balance: 1,
        }))
        .unwrap();
    assert_eq!(store.latest_sequence_number::<Account>(id, "account"), Some(0));
    store
        .append_event(id, "account", AccountEvent::Deposited(DepositEvent {
            account_id: id,
            amount: 1,
        }))
        .unwrap();
    assert_eq!(store.latest_sequence_number::<Account>(id, "account"), Some(1));
}

#[test]
fn expected_version_append_accepts_the_current_version() {
    let mut store = fresh_store();
    let id = AggregateId::from_bits(27);
    let opened = AccountEvent::Opened(AccountOpenedEvent { account_id: id, balance: 5 });
    assert!(store.append_event_expected(id, "account", None, opened).is_ok());
    let token = store.latest_sequence_number::<Account>(id, "account");
    let deposit = AccountEvent::Deposited(DepositEvent { account_id: id, amount: 1 });
    assert!(store.append_event_expected(id, "account", token, deposit).is_ok());
}

#[test]
fn expected_version_append_refuses_a_stale_token() {
    let mut store = fresh_store();
    let id = AggregateId::from_bits(28);
    let opened = AccountEvent::Opened(AccountOpenedEvent { account_id: id, balance: 5 });
    store.append_event(id, "account", opened).unwrap();
    let deposit = AccountEvent::Deposited(DepositEvent { account_id: id, amount: 1 });
    let stale = store.append_event_expected(id, "account", None, deposit);
    assert_eq!(stale, Err(EventStoreError::ConcurrencyConflict));
    assert_eq!(store.get_events_for_aggregate(id, "account").unwrap().len(), 1);
}

#[test]
fn concurrent_withdrawals_both_commit_without_the_guard() {
    // Two writers load the same history, both validate against balance 100,
    // and both commit through the unguarded append: the documented race.
    let mut store = fresh_store();
    let id = AggregateId::from_bits(29);
    store
        .append_event(id, "account", AccountEvent::Opened(AccountOpenedEvent {
            account_id: id,
            balance: 100,
        }))
        .unwrap();

    let read_one = events_of(&store.get_events_for_aggregate(id, "account").unwrap());
    let read_two = events_of(&store.get_events_for_aggregate(id, "account").unwrap());
    let state_one = from_history::<Account, AccountEvent>(read_one).unwrap();
    let state_two = from_history::<Account, AccountEvent>(read_two).unwrap();
    assert_eq!(state_one.balance, 100);
    assert_eq!(state_two.balance, 100);

    let command = WithdrawCommand { amount: 60 };
    let event_one = command.execute(state_one).unwrap()[0];
    let event_two = command.execute(state_two).unwrap()[0];

    assert!(store.append_event(id, "account", AccountEvent::Withdrawn(event_one)).is_ok());
    assert!(store.append_event(id, "account", AccountEvent::Withdrawn(event_two)).is_ok());
    assert_eq!(store.get_events_for_aggregate(id, "account").unwrap().len(), 3);
}

#[test]
fn concurrent_withdrawals_conflict_with_the_expected_version_guard() {
    // The same race under the optimistic append: the slower writer is
    // refused with a conflict and nothing of its write is appended.
    let mut store = fresh_store();
    let id = AggregateId::from_bits(30);
    store
        .append_event(id, "account", AccountEvent::Opened(AccountOpenedEvent {
            account_id: id,
            balance: 100,
        }))
        .unwrap();

    let token_one = store.latest_sequence_number::<Account>(id, "account");
    let token_two = token_one;
    let state = from_history::<Account, AccountEvent>(events_of(
        &store.get_events_for_aggregate(id, "account").unwrap(),
    ))
    .unwrap();
    let command = WithdrawCommand { amount: 60 };
    let event_one = command.execute(state).unwrap()[0];
    let event_two = command.execute(state).unwrap()[0];

    assert!(store
        .append_event_expected(id, "account", token_one, AccountEvent::Withdrawn(event_one))
        .is_ok());
    let second = store.append_event_expected(
        id,
        "account",
        token_two,
        AccountEvent::Withdrawn(event_two),
    );
    assert_eq!(second, Err(EventStoreError::ConcurrencyConflict));
    assert_eq!(store.get_events_for_aggregate(id, "account").unwrap().len(), 2);
}
