use event_sourcing::account::account_handler::AccountHandler;
use event_sourcing::account::account_service::{AccountService, AccountServiceError};
use event_sourcing::account::commands::{DepositError, WithdrawError};
use event_sourcing::account::events::{
    AccountEvent, AccountOpenedEvent, DepositEvent, WithdrawEvent,
};
use event_sourcing::account::Account;
use event_sourcing::event_bus_memory::EventBusMemory;
use event_sourcing::event_store_memory::EventStoreMemory;
use event_sourcing::ids::AggregateId;
use event_sourcing::repository_memory::RepositoryMemory;
use event_sourcing::traits::event_store::EventStore;
use event_sourcing::traits::repository::{Repository, RepositoryError};

type Service = AccountService<
    RepositoryMemory<Account>,
    EventStoreMemory<AccountEvent>,
    EventBusMemory<AccountEvent>,
>;

fn fresh_service() -> Service {
    AccountService::new(
        RepositoryMemory::new(),
        EventStoreMemory::new::<Account>(),
        EventBusMemory::new::<Account>(),
    )
}

#[test]
fn open_deposit_withdraw_projects_the_final_balance() {
    // open(100) -> deposit(50) -> withdraw(25) => balance 125, end to end:
    // the write side commits and publishes, the handler rebuilds the read
    // model from the full history.
    let mut service = fresh_service();
    let account = service.create_account(100).unwrap();
    let id = account.account_id.unwrap();
    assert_eq!(account.balance, 100);

    service.deposit(id, 50).unwrap();
    service.withdraw(id, 25).unwrap();

    let (repo, store, mut bus) = service.into_parts();
    let mut delivered = Vec::new();
    while let Some(envelope) = bus.take_next::<Account>() {
        delivered.push(envelope.event);
    }
    assert_eq!(delivered.len(), 3);

    let mut handler = AccountHandler::new(repo, bus, store);
    for event in delivered {
        handler.handle_event(event).unwrap();
    }
    let (repo, _bus, _store) = handler.into_parts();
    let projected = repo.get(id).unwrap();
    assert_eq!(projected.balance, 125);
    assert_eq!(projected.account_id, Some(id));
}

#[test]
fn an_overdraft_is_refused_and_nothing_is_committed() {
    // balance 125, withdraw(200) => insufficient balance; the balance stays
    // 125 and no event reaches the store.
    let mut service = fresh_service();
    let account = service.create_account(125).unwrap();
    let id = account.account_id.unwrap();

    let refused = service.withdraw(id, 200);
    assert_eq!(
        refused,
        Err(AccountServiceError::WithdrawError(WithdrawError::InsufficientBalance))
    );

    let (_repo, store, mut bus) = service.into_parts();
    let envelopes = store.get_events_for_aggregate(id, "account").unwrap();
    assert_eq!(envelopes.len(), 1);
    assert_eq!(
        envelopes[0].event,
        AccountEvent::Opened(AccountOpenedEvent { account_id: id, balance: 125 })
    );
    // only the opened event was ever published
    assert!(bus.take_next::<Account>().is_some());
    assert!(bus.take_next::<Account>().is_none());
}

#[test]
fn deposit_to_an_unopened_account_is_refused() {
    let mut service = fresh_service();
    let unknown = AggregateId::from_bits(61);
    let refused = service.deposit(unknown, 5);
    assert_eq!(
        refused,
        Err(AccountServiceError::DepositError(DepositError::AccountIdMissing))
    );
}

#[test]
fn withdraw_from_an_unopened_account_is_refused() {
    let mut service = fresh_service();
    let unknown = AggregateId::from_bits(62);
    let positive = service.withdraw(unknown, 5);
    assert_eq!(
        positive,
        Err(AccountServiceError::WithdrawError(WithdrawError::InsufficientBalance))
    );
    let zero = service.withdraw(unknown, 0);
    assert_eq!(
        zero,
        Err(AccountServiceError::WithdrawError(WithdrawError::AccountNotOpened))
    );
}

#[test]
fn a_deposit_that_overflows_the_balance_is_refused() {
    let mut service = fresh_service();
    let account = service.create_account(u64::MAX).unwrap();
    let id = account.account_id.unwrap();
    let refused = service.deposit(id, 1);
    assert_eq!(
        refused,
        Err(AccountServiceError::ApplyError(
            event_sourcing::traits::event::ApplyError::Validation
        ))
    );
}

#[test]
fn get_account_reads_the_projection_not_the_store() {
    let mut service = fresh_service();
    let account = service.create_account(10).unwrap();
    let id = account.account_id.unwrap();
    // the projection has not run yet: the read model lags the store
    let lagging = service.get_account(id);
    assert_eq!(
        lagging,
        Err(AccountServiceError::RepositoryError(RepositoryError::NotFound))
    );
}

#[test]
fn the_handler_creates_on_opened_and_updates_on_the_rest() {
    let mut store: EventStoreMemory<AccountEvent> = EventStoreMemory::new::<Account>();
    let id = AggregateId::from_bits(63);
    let opened = AccountOpenedEvent { account_id: id, balance: 100 };
    let deposited = DepositEvent { account_id: id, amount: 50 };
    store.append_event(id, "account", AccountEvent::Opened(opened)).unwrap();
    store.append_event(id, "account", AccountEvent::Deposited(deposited)).unwrap();

    let mut handler = AccountHandler::new(
        RepositoryMemory::new(),
        EventBusMemory::new::<Account>(),
        store,
    );
    handler.handle_account_opened(opened).unwrap();
    handler.handle_account_deposited(deposited).unwrap();
    let (repo, _bus, _store) = handler.into_parts();
    assert_eq!(repo.get(id).unwrap().balance, 150);
}

#[test]
fn duplicate_delivery_leaves_the_read_model_unchanged() {
    // Delivering the same event twice yields a read model identical to one
    // delivery: the handler always rebuilds from the full history.
    let mut store: EventStoreMemory<AccountEvent> = EventStoreMemory::new::<Account>();
    let id = AggregateId::from_bits(64);
    let opened = AccountOpenedEvent { account_id: id, balance: 100 };
    let deposited = DepositEvent { account_id: id, amount: 50 };
    store.append_event(id, "account", AccountEvent::Opened(opened)).unwrap();
    store.append_event(id, "account", AccountEvent::Deposited(deposited)).unwrap();

    let mut handler = AccountHandler::new(
        RepositoryMemory::new(),
        EventBusMemory::new::<Account>(),
        store,
    );
    handler.handle_account_opened(opened).unwrap();
    handler.handle_account_deposited(deposited).unwrap();
    let (repo, bus, store) = handler.into_parts();
    let after_once = repo.get(id).unwrap();
    assert_eq!(after_once.balance, 150);

    let mut handler = AccountHandler::new(repo, bus, store);
    handler.handle_account_deposited(deposited).unwrap();
    let (repo, _bus, _store) = handler.into_parts();
    assert_eq!(repo.get(id).unwrap(), after_once);
}

#[test]
fn a_duplicate_opened_delivery_reports_but_changes_nothing() {
    let store: EventStoreMemory<AccountEvent> = EventStoreMemory::new::<Account>();
    let id = AggregateId::from_bits(65);
    let opened = AccountOpenedEvent { account_id: id, balance: 7 };
    let mut handler = AccountHandler::new(
        RepositoryMemory::new(),
        EventBusMemory::new::<Account>(),
        store,
    );
    handler.handle_event(AccountEvent::Opened(opened)).unwrap();
    let second = handler.handle_event(AccountEvent::Opened(opened));
    assert!(second.is_err());
    let (repo, _bus, _store) = handler.into_parts();
    assert_eq!(repo.get(id).unwrap().balance, 7);
}

#[test]
fn a_withdraw_delivery_rebuilds_from_history() {
    let mut store: EventStoreMemory<AccountEvent> = EventStoreMemory::new::<Account>();
    let id = AggregateId::from_bits(66);
    let opened = AccountOpenedEvent { account_id: id, balance: 100 };
    let withdrawn = WithdrawEvent { account_id: id, amount: 30 };
    store.append_event(id, "account", AccountEvent::Opened(opened)).unwrap();
    store.append_event(id, "account", AccountEvent::Withdrawn(withdrawn)).unwrap();

    let mut handler = AccountHandler::new(
        RepositoryMemory::new(),
        EventBusMemory::new::<Account>(),
        store,
    );
    handler.handle_account_opened(opened).unwrap();
    handler.handle_account_withdrawn(withdrawn).unwrap();
    let (repo, _bus, _store) = handler.into_parts();
    assert_eq!(repo.get(id).unwrap().balance, 70);
}
