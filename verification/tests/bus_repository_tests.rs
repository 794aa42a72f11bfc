use event_sourcing::account::events::{AccountEvent, AccountOpenedEvent, DepositEvent};
use event_sourcing::account::Account;
use event_sourcing::event_bus_memory::EventBusMemory;
use event_sourcing::ids::AggregateId;
use event_sourcing::repository_memory::RepositoryMemory;
use event_sourcing::traits::event_bus::EventBus;
use event_sourcing::traits::repository::{Repository, RepositoryError};

#[test]
fn produced_events_are_delivered_in_publish_order() {
    let mut bus: EventBusMemory<AccountEvent> = EventBusMemory::new::<Account>();
    let id = AggregateId::from_bits(41);
    let first = AccountEvent::Opened(AccountOpenedEvent { account_id: id, balance: 9 });
    let second = AccountEvent::Deposited(DepositEvent { account_id: id, amount: 3 });
    bus.produce_event(first).unwrap();
    bus.produce_event(second).unwrap();

    let one = bus.take_next::<Account>().unwrap();
    assert_eq!(one.event, first);
    assert_eq!(one.aggregate_id, id);
    assert_eq!(one.aggregate_type, "account");
    assert_eq!(one.event_type, "account_opened");
    assert_eq!(one.sequence_number, 0);

    let two = bus.take_next::<Account>().unwrap();
    assert_eq!(two.event, second);
    assert_eq!(two.event_type, "deposit");
    assert_eq!(two.sequence_number, 1);

    assert!(bus.take_next::<Account>().is_none());
}

#[test]
fn the_bus_keys_envelopes_by_aggregate() {
    let mut bus: EventBusMemory<AccountEvent> = EventBusMemory::new::<Account>();
    let a = AggregateId::from_bits(42);
    let b = AggregateId::from_bits(43);
    bus.produce_event(AccountEvent::Opened(AccountOpenedEvent { account_id: a, balance: 1 }))
        .unwrap();
    bus.produce_event(AccountEvent::Opened(AccountOpenedEvent { account_id: b, balance: 2 }))
        .unwrap();
    assert_eq!(bus.take_next::<Account>().unwrap().aggregate_id, a);
    assert_eq!(bus.take_next::<Account>().unwrap().aggregate_id, b);
}

#[test]
fn create_requires_an_identity() {
    let mut repo: RepositoryMemory<Account> = RepositoryMemory::new();
    let result = repo.create(Account::default());
    assert!(matches!(result, Err(RepositoryError::RepositoryError(_))));
}

#[test]
fn create_then_get_round_trips_the_record() {
    let mut repo: RepositoryMemory<Account> = RepositoryMemory::new();
    let id = AggregateId::from_bits(44);
    let account = Account::new(Some(id), 55);
    repo.create(account.clone()).unwrap();
    assert_eq!(repo.get(id).unwrap(), account);
}

#[test]
fn create_refuses_a_duplicate_identity() {
    let mut repo: RepositoryMemory<Account> = RepositoryMemory::new();
    let id = AggregateId::from_bits(45);
    repo.create(Account::new(Some(id), 1)).unwrap();
    let again = repo.create(Account::new(Some(id), 2));
    assert!(matches!(again, Err(RepositoryError::RepositoryError(_))));
    assert_eq!(repo.get(id).unwrap().balance, 1);
}

#[test]
fn update_overwrites_an_existing_record() {
    let mut repo: RepositoryMemory<Account> = RepositoryMemory::new();
    let id = AggregateId::from_bits(46);
    repo.create(Account::new(Some(id), 1)).unwrap();
    repo.update(Account::new(Some(id), 9)).unwrap();
    assert_eq!(repo.get(id).unwrap().balance, 9);
}

#[test]
fn update_of_an_absent_record_changes_nothing() {
    let mut repo: RepositoryMemory<Account> = RepositoryMemory::new();
    let id = AggregateId::from_bits(47);
    repo.update(Account::new(Some(id), 9)).unwrap();
    assert_eq!(repo.get(id), Err(RepositoryError::NotFound));
}

#[test]
fn delete_removes_the_record() {
    let mut repo: RepositoryMemory<Account> = RepositoryMemory::new();
    let id = AggregateId::from_bits(48);
    repo.create(Account::new(Some(id), 1)).unwrap();
    repo.delete(id).unwrap();
    assert_eq!(repo.get(id), Err(RepositoryError::NotFound));
    // deleting an absent record succeeds
    repo.delete(id).unwrap();
}

#[test]
fn get_of_an_unknown_identity_is_not_found() {
    let repo: RepositoryMemory<Account> = RepositoryMemory::new();
    assert_eq!(repo.get(AggregateId::from_bits(49)), Err(RepositoryError::NotFound));
}
