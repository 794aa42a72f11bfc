use event_sourcing::account::commands::{
    DepositCommand, DepositError, OpenAccountCommand, WithdrawCommand, WithdrawError,
};
use event_sourcing::account::events::{
    AccountEvent, AccountOpenedEvent, DepositEvent, WithdrawEvent,
};
use event_sourcing::account::Account;
use event_sourcing::ids::AggregateId;
use event_sourcing::traits::aggregate::{apply_history, from_history, handle_command, handle_event};
use event_sourcing::traits::command::Command;
use event_sourcing::traits::event::{ApplyError, Event, EventEnvelope};
use event_sourcing::Config;

fn id_of(bits: u128) -> AggregateId {
    AggregateId::from_bits(bits)
}

#[test]
fn replay_of_empty_history_is_the_default_account() {
    let state = from_history::<Account, AccountEvent>(Vec::new()).unwrap();
    assert_eq!(state, Account::default());
    assert_eq!(state.account_id, None);
    assert_eq!(state.balance, 0);
}

#[test]
fn replay_is_deterministic() {
    let id = id_of(1);
    let history = vec![
        AccountEvent::Opened(AccountOpenedEvent { account_id: id, balance: 100 }),
        AccountEvent::Deposited(DepositEvent { account_id: id, amount: 7 }),
        AccountEvent::Withdrawn(WithdrawEvent { account_id: id, amount: 3 }),
    ];
    let once = from_history::<Account, AccountEvent>(history.clone());
    let twice = from_history::<Account, AccountEvent>(history);
    assert_eq!(once, twice);
}

#[test]
fn replay_folds_open_deposit_withdraw() {
    let id = id_of(2);
    let history = vec![
        AccountEvent::Opened(AccountOpenedEvent { account_id: id, balance: 100 }),
        AccountEvent::Deposited(DepositEvent { account_id: id, amount: 50 }),
        AccountEvent::Withdrawn(WithdrawEvent { account_id: id, amount: 25 }),
    ];
    let state = from_history::<Account, AccountEvent>(history).unwrap();
    assert_eq!(state.account_id, Some(id));
    assert_eq!(state.balance, 125);
}

#[test]
fn resuming_from_a_cached_state_matches_a_full_replay() {
    let id = id_of(14);
    let opened = AccountEvent::Opened(AccountOpenedEvent { account_id: id, balance: 100 });
    let deposited = AccountEvent::Deposited(DepositEvent { account_id: id, amount: 50 });
    let withdrawn = AccountEvent::Withdrawn(WithdrawEvent { account_id: id, amount: 25 });

    let cached = from_history::<Account, AccountEvent>(vec![opened]).unwrap();
    let resumed = apply_history(cached, vec![deposited, withdrawn]).unwrap();
    let full = from_history::<Account, AccountEvent>(vec![opened, deposited, withdrawn]).unwrap();
    assert_eq!(resumed, full);
    assert_eq!(resumed.balance, 125);
}

#[test]
fn replay_stops_at_the_first_failure() {
    let id = id_of(3);
    let history = vec![
        AccountEvent::Opened(AccountOpenedEvent { account_id: id, balance: 100 }),
        AccountEvent::Withdrawn(WithdrawEvent { account_id: id, amount: 150 }),
        AccountEvent::Deposited(DepositEvent { account_id: id, amount: 1 }),
    ];
    let result = from_history::<Account, AccountEvent>(history);
    assert_eq!(result, Err(ApplyError::InvariantViolated));
}

#[test]
fn overdraft_fails_and_leaves_the_balance_unchanged() {
    let id = id_of(4);
    let mut state = Account::new(Some(id), 100);
    let event = WithdrawEvent { account_id: id, amount: 150 };
    let result = event.apply(&mut state);
    assert_eq!(result, Err(ApplyError::InvariantViolated));
    assert_eq!(state.balance, 100);
    assert_eq!(state.account_id, Some(id));
}

#[test]
fn withdraw_of_the_exact_balance_empties_the_account() {
    let id = id_of(5);
    let mut state = Account::new(Some(id), 100);
    let event = WithdrawEvent { account_id: id, amount: 100 };
    assert_eq!(event.apply(&mut state), Ok(()));
    assert_eq!(state.balance, 0);
}

#[test]
fn deposit_overflow_fails_and_leaves_the_balance_unchanged() {
    let id = id_of(6);
    let mut state = Account::new(Some(id), u64::MAX);
    let event = DepositEvent { account_id: id, amount: 1 };
    assert_eq!(event.apply(&mut state), Err(ApplyError::Validation));
    assert_eq!(state.balance, u64::MAX);
}

#[test]
fn opened_event_sets_identity_and_balance() {
    let id = id_of(7);
    let mut state = Account::default();
    let event = AccountOpenedEvent { account_id: id, balance: 42 };
    assert_eq!(event.apply(&mut state), Ok(()));
    assert_eq!(state, Account::new(Some(id), 42));
}

#[test]
fn event_metadata_names_the_aggregate_and_the_variant() {
    let id = id_of(8);
    let opened = AccountEvent::Opened(AccountOpenedEvent { account_id: id, balance: 1 });
    let deposited = AccountEvent::Deposited(DepositEvent { account_id: id, amount: 1 });
    let withdrawn = AccountEvent::Withdrawn(WithdrawEvent { account_id: id, amount: 1 });
    assert_eq!(opened.aggregate_type(), "account");
    assert_eq!(deposited.aggregate_type(), "account");
    assert_eq!(withdrawn.aggregate_type(), "account");
    assert_eq!(opened.event_type(), "account_opened");
    assert_eq!(deposited.event_type(), "deposit");
    assert_eq!(withdrawn.event_type(), "withdraw");
    assert_eq!(opened.aggregate_id(), id);
    assert_eq!(deposited.aggregate_id(), id);
    assert_eq!(withdrawn.aggregate_id(), id);
}

#[test]
fn open_command_produces_one_opened_event_with_the_balance() {
    let command = OpenAccountCommand { balance: 77 };
    let events = command.execute(Account::default()).unwrap();
    assert_eq!(events.len(), 1);
    assert_eq!(events[0].balance, 77);
}

#[test]
fn deposit_command_requires_an_identity() {
    let command = DepositCommand { amount: 5 };
    let result = command.execute(Account::default());
    assert_eq!(result, Err(DepositError::AccountIdMissing));
}

#[test]
fn deposit_command_targets_the_accounts_identity() {
    let id = id_of(9);
    let command = DepositCommand { amount: 5 };
    let events = command.execute(Account::new(Some(id), 10)).unwrap();
    assert_eq!(events.len(), 1);
    assert_eq!(events[0], DepositEvent { account_id: id, amount: 5 });
}

#[test]
fn withdraw_command_checks_the_balance_before_the_identity() {
    let command = WithdrawCommand { amount: 1 };
    let result = command.execute(Account::default());
    assert_eq!(result, Err(WithdrawError::InsufficientBalance));
}

#[test]
fn withdraw_command_requires_an_identity_when_the_balance_covers() {
    let command = WithdrawCommand { amount: 0 };
    let result = command.execute(Account::default());
    assert_eq!(result, Err(WithdrawError::AccountNotOpened));
}

#[test]
fn withdraw_command_produces_one_withdraw_event() {
    let id = id_of(10);
    let command = WithdrawCommand { amount: 4 };
    let events = command.execute(Account::new(Some(id), 10)).unwrap();
    assert_eq!(events.len(), 1);
    assert_eq!(events[0], WithdrawEvent { account_id: id, amount: 4 });
}

#[test]
fn handle_command_forwards_to_the_command() {
    let id = id_of(11);
    let events =
        handle_command(Account::new(Some(id), 10), DepositCommand { amount: 2 }).unwrap();
    assert_eq!(events[0], DepositEvent { account_id: id, amount: 2 });
}

#[test]
fn handle_event_forwards_to_the_event() {
    let id = id_of(12);
    let mut state = Account::new(Some(id), 10);
    let result = handle_event(&mut state, DepositEvent { account_id: id, amount: 2 });
    assert_eq!(result, Ok(()));
    assert_eq!(state.balance, 12);
}

#[test]
fn envelope_carries_its_fields() {
    let id = id_of(13);
    let event = AccountEvent::Deposited(DepositEvent { account_id: id, amount: 5 });
    let envelope = EventEnvelope::new(
        9,
        id,
        "account".to_string(),
        "deposit".to_string(),
        event,
    );
    assert_eq!(envelope.sequence_number(), 9);
    assert_eq!(envelope.aggregate_id(), id);
    assert_eq!(envelope.aggregate_type(), "account");
    assert_eq!(envelope.event_type(), "deposit");
    assert_eq!(*envelope.event(), event);
}

#[test]
fn error_messages_name_the_failure() {
    assert_eq!(
        ApplyError::InvariantViolated.message(),
        "event application invariant violated"
    );
    assert_eq!(ApplyError::Validation.message(), "event application validation error");
    assert_eq!(DepositError::AccountIdMissing.message(), "account id is required for deposit");
    assert_eq!(
        WithdrawError::InsufficientBalance.message(),
        "cannot withdraw an amount greater than the current balance"
    );
    assert_eq!(
        WithdrawError::AccountNotOpened.message(),
        "account id is missing, cannot process withdrawal"
    );
}

#[test]
fn config_carries_its_fields() {
    let config = Config::new(
        "events.db".to_string(),
        "projection.db".to_string(),
        "localhost:9092".to_string(),
    );
    assert_eq!(config.event_store_path, "events.db");
    assert_eq!(config.projection_database_path, "projection.db");
    assert_eq!(config.kafka_bootstrap_servers, "localhost:9092");
}
