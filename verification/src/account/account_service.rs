//! The write side: each use case loads the aggregate's history, replays it,
//! evaluates the command against the replayed state, then applies, appends
//! and publishes the produced event.
//!
//! Each command of this domain produces exactly one event, so a use case
//! commits one event per call: it is applied to the local state first (to
//! surface an `ApplyError` before anything is committed), then appended to
//! the event store, then published on the event bus. If a step fails the use
//! case stops at once: what was committed before the failing step stays
//! committed — in particular an event appended to the store stays there even
//! when publishing it fails. There is no compensating rollback.
//!
//! There is also no concurrency control on this path, exactly as in the
//! store's plain append: two callers that both load the same history can
//! both commit. The store's optimistic append is the remedy a hardened
//! caller can reach for.

use vstd::prelude::*;

use crate::account::commands::{
    DepositCommand, DepositError, OpenAccountCommand, OpenAccountError, WithdrawCommand,
    WithdrawError,
};
use crate::account::events::{
    AccountEvent, AccountOpenedEvent, DepositEvent, WithdrawEvent, account_aggregate_type,
};
use crate::account::{Account, replayed_account};
use crate::ids::AggregateId;
use crate::traits::command::Command;
use crate::traits::event::{ApplyError, EnvelopeModel, Event, events_of};
use crate::traits::event_bus::{EventBus, EventBusError, published};
use crate::traits::event_store::{EventStore, EventStoreError, appended, history_for_aggregate};
use crate::traits::repository::{Repository, RepositoryError};

verus! {

/// Failure of a write-side use case: the wrapped cause.
#[derive(Debug, Clone, PartialEq)]
pub enum AccountServiceError {
    ApplyError(ApplyError),
    EventStoreError(EventStoreError),
    EventBusError(EventBusError),
    RepositoryError(RepositoryError),
    OpenAccountError(OpenAccountError),
    DepositError(DepositError),
    WithdrawError(WithdrawError),
    /// A use case could not go on (for example, no identity was present
    /// where one was owed).
    OperationError(String),
}


/// Everything [`AccountService::create_account`] promises of the store log,
/// the bus queue and the result, given what the collaborators could do.
pub open spec fn create_account_outcome(
    pre: Seq<EnvelopeModel<AccountEvent>>,
    post: Seq<EnvelopeModel<AccountEvent>>,
    preb: Seq<EnvelopeModel<AccountEvent>>,
    postb: Seq<EnvelopeModel<AccountEvent>>,
    can_append: bool,
    can_produce: bool,
    balance: u64,
    r: Result<Account, AccountServiceError>,
) -> bool {
    if !can_append {
        &&& (r matches Err(AccountServiceError::EventStoreError(_)))
        &&& post == pre
        &&& postb == preb
    } else if !can_produce {
        // the opened event is committed to the store, but its publication is
        // lost: the documented atomicity gap of the write path
        &&& (r matches Err(AccountServiceError::EventBusError(_)))
        &&& postb == preb
        &&& exists|id: AggregateId|
            appended::<Account, AccountEvent>(
                pre,
                post,
                id,
                account_aggregate_type(),
                AccountEvent::Opened(AccountOpenedEvent { account_id: id, balance }),
            )
    } else {
        &&& r is Ok
        &&& ({
            let account = r->Ok_0;
            let id = account.account_id->0;
            let ev = AccountEvent::Opened(AccountOpenedEvent { account_id: id, balance });
            &&& account.account_id is Some
            &&& account.balance == balance
            &&& appended::<Account, AccountEvent>(pre, post, id, account_aggregate_type(), ev)
            &&& published::<Account, AccountEvent>(preb, postb, ev)
        })
    }
}

/// Everything [`AccountService::deposit`] promises of the store log, the bus
/// queue and the result, given the stored history of the account.
pub open spec fn deposit_outcome(
    pre: Seq<EnvelopeModel<AccountEvent>>,
    post: Seq<EnvelopeModel<AccountEvent>>,
    preb: Seq<EnvelopeModel<AccountEvent>>,
    postb: Seq<EnvelopeModel<AccountEvent>>,
    can_read: bool,
    can_append: bool,
    can_produce: bool,
    account_id: AggregateId,
    amount: u64,
    r: Result<(), AccountServiceError>,
) -> bool {
    if !can_read {
        &&& (r matches Err(AccountServiceError::EventStoreError(_)))
        &&& post == pre
        &&& postb == preb
    } else {
        match replayed_account(pre, account_id) {
            Err(e) => {
                &&& r == Err::<(), AccountServiceError>(AccountServiceError::ApplyError(e))
                &&& post == pre
                &&& postb == preb
            },
            Ok(acct) => {
                if acct.account_id is None {
                    &&& r == Err::<(), AccountServiceError>(
                        AccountServiceError::DepositError(DepositError::AccountIdMissing),
                    )
                    &&& post == pre
                    &&& postb == preb
                } else {
                    let id = acct.account_id->0;
                    let ev = AccountEvent::Deposited(DepositEvent { account_id: id, amount });
                    if acct.balance + amount > u64::MAX {
                        &&& r == Err::<(), AccountServiceError>(
                            AccountServiceError::ApplyError(ApplyError::Validation),
                        )
                        &&& post == pre
                        &&& postb == preb
                    } else if !can_append {
                        &&& (r matches Err(AccountServiceError::EventStoreError(_)))
                        &&& post == pre
                        &&& postb == preb
                    } else if !can_produce {
                        &&& (r matches Err(AccountServiceError::EventBusError(_)))
                        &&& appended::<Account, AccountEvent>(
                            pre,
                            post,
                            id,
                            account_aggregate_type(),
                            ev,
                        )
                        &&& postb == preb
                    } else {
                        &&& r is Ok
                        &&& appended::<Account, AccountEvent>(
                            pre,
                            post,
                            id,
                            account_aggregate_type(),
                            ev,
                        )
                        &&& published::<Account, AccountEvent>(preb, postb, ev)
                    }
                }
            },
        }
    }
}

/// Everything [`AccountService::withdraw`] promises of the store log, the
/// bus queue and the result, given the stored history of the account. An
/// amount above the replayed balance is refused before anything is
/// committed, and the balance stays as it was.
pub open spec fn withdraw_outcome(
    pre: Seq<EnvelopeModel<AccountEvent>>,
    post: Seq<EnvelopeModel<AccountEvent>>,
    preb: Seq<EnvelopeModel<AccountEvent>>,
    postb: Seq<EnvelopeModel<AccountEvent>>,
    can_read: bool,
    can_append: bool,
    can_produce: bool,
    account_id: AggregateId,
    amount: u64,
    r: Result<(), AccountServiceError>,
) -> bool {
    if !can_read {
        &&& (r matches Err(AccountServiceError::EventStoreError(_)))
        &&& post == pre
        &&& postb == preb
    } else {
        match replayed_account(pre, account_id) {
            Err(e) => {
                &&& r == Err::<(), AccountServiceError>(AccountServiceError::ApplyError(e))
                &&& post == pre
                &&& postb == preb
            },
            Ok(acct) => {
                if amount > acct.balance {
                    &&& r == Err::<(), AccountServiceError>(
                        AccountServiceError::WithdrawError(WithdrawError::InsufficientBalance),
                    )
                    &&& post == pre
                    &&& postb == preb
                } else if acct.account_id is None {
                    &&& r == Err::<(), AccountServiceError>(
                        AccountServiceError::WithdrawError(WithdrawError::AccountNotOpened),
                    )
                    &&& post == pre
                    &&& postb == preb
                } else {
                    let id = acct.account_id->0;
                    let ev = AccountEvent::Withdrawn(WithdrawEvent { account_id: id, amount });
                    if !can_append {
                        &&& (r matches Err(AccountServiceError::EventStoreError(_)))
                        &&& post == pre
                        &&& postb == preb
                    } else if !can_produce {
                        &&& (r matches Err(AccountServiceError::EventBusError(_)))
                        &&& appended::<Account, AccountEvent>(
                            pre,
                            post,
                            id,
                            account_aggregate_type(),
                            ev,
                        )
                        &&& postb == preb
                    } else {
                        &&& r is Ok
                        &&& appended::<Account, AccountEvent>(
                            pre,
                            post,
                            id,
                            account_aggregate_type(),
                            ev,
                        )
                        &&& published::<Account, AccountEvent>(preb, postb, ev)
                    }
                }
            },
        }
    }
}

/// The write-side service over a repository (reading), an event store
/// (writing) and an event bus (publishing).
pub struct AccountService<
    R: Repository<Account>,
    S: EventStore<Account, AccountEvent>,
    B: EventBus<Account, AccountEvent>,
> {
    repository: R,
    event_store: S,
    event_bus: B,
}

impl<
    R: Repository<Account>,
    S: EventStore<Account, AccountEvent>,
    B: EventBus<Account, AccountEvent>,
> AccountService<R, S, B> {
    /// The store's log, as this service sees it.
    pub closed spec fn store_log(&self) -> Seq<EnvelopeModel<AccountEvent>> {
        self.event_store.log()
    }

    /// The bus's queue of published envelopes, as this service sees it.
    pub closed spec fn bus_pending(&self) -> Seq<EnvelopeModel<AccountEvent>> {
        self.event_bus.pending()
    }

    /// The read model, as this service sees it.
    pub closed spec fn read_model(&self) -> Map<AggregateId, Account> {
        self.repository.table()
    }

    /// All three collaborators are well-formed.
    pub closed spec fn inv(&self) -> bool {
        &&& self.repository.inv()
        &&& self.event_store.inv()
        &&& self.event_bus.inv()
    }

    /// The store can serve reads.
    pub closed spec fn can_read(&self) -> bool {
        self.event_store.can_read()
    }

    /// The store can take another append.
    pub closed spec fn can_append(&self) -> bool {
        self.event_store.can_append()
    }

    /// The bus can take another publish.
    pub closed spec fn can_produce(&self) -> bool {
        self.event_bus.can_produce()
    }

    /// The repository is reachable.
    pub closed spec fn can_access(&self) -> bool {
        self.repository.can_access()
    }

    pub fn new(repository: R, event_store: S, event_bus: B) -> (r: Self)
        requires
            repository.inv(),
            event_store.inv(),
            event_bus.inv(),
        ensures
            r.inv(),
            r.store_log() == event_store.log(),
            r.bus_pending() == event_bus.pending(),
            r.read_model() == repository.table(),
            r.can_read() == event_store.can_read(),
            r.can_append() == event_store.can_append(),
            r.can_produce() == event_bus.can_produce(),
            r.can_access() == repository.can_access(),
    {
        Self { repository, event_store, event_bus }
    }

    /// Takes the service apart, handing its collaborators back — for a
    /// caller that shares the backends with another component (such as the
    /// projection handler) by turns.
    pub fn into_parts(self) -> (r: (R, S, B))
        ensures
            r.0.table() == self.read_model(),
            r.0.can_access() == self.can_access(),
            r.1.log() == self.store_log(),
            r.1.can_read() == self.can_read(),
            r.1.can_append() == self.can_append(),
            r.2.pending() == self.bus_pending(),
            r.2.can_produce() == self.can_produce(),
            self.inv() ==> r.0.inv() && r.1.inv() && r.2.inv(),
    {
        (self.repository, self.event_store, self.event_bus)
    }

    /// Opens a new account with the given starting balance: evaluates the
    /// open command on a default state, applies the opened event, appends it
    /// to the store and publishes it, and returns the opened state.
    pub fn create_account(&mut self, balance: u64) -> (r: Result<Account, AccountServiceError>)
        requires
            old(self).inv(),
        ensures
            final(self).inv(),
            final(self).read_model() == old(self).read_model(),
            final(self).can_read() == old(self).can_read(),
            r is Ok <==> old(self).can_append() && old(self).can_produce(),
            create_account_outcome(
                old(self).store_log(),
                final(self).store_log(),
                old(self).bus_pending(),
                final(self).bus_pending(),
                old(self).can_append(),
                old(self).can_produce(),
                balance,
                r,
            ),
    {
        let mut account = Account::default();
        let command = OpenAccountCommand { balance };
        let events = match command.execute(account) {
            Ok(events) => events,
            Err(e) => {
                return Err(AccountServiceError::OpenAccountError(e));
            },
        };
        let event = events[0];
        match event.apply(&mut account) {
            Ok(()) => {},
            Err(e) => {
                return Err(AccountServiceError::ApplyError(e));
            },
        }
        let account_id = match account.account_id {
            Some(id) => id,
            None => {
                return Err(
                    AccountServiceError::OperationError(
                        "an identity is required after creation".to_string(),
                    ),
                );
            },
        };
        match self.event_store.append_event(account_id, "account", AccountEvent::Opened(event)) {
            Ok(()) => {},
            Err(e) => {
                return Err(AccountServiceError::EventStoreError(e));
            },
        }
        proof {
            assert(event == (AccountOpenedEvent { account_id, balance }));
            assert(appended::<Account, AccountEvent>(
                old(self).store_log(),
                self.event_store.log(),
                account_id,
                account_aggregate_type(),
                AccountEvent::Opened(AccountOpenedEvent { account_id, balance }),
            ));
        }
        match self.event_bus.produce_event(AccountEvent::Opened(event)) {
            Ok(()) => {},
            Err(e) => {
                return Err(AccountServiceError::EventBusError(e));
            },
        }
        proof {
            assert(published::<Account, AccountEvent>(
                old(self).bus_pending(),
                self.event_bus.pending(),
                AccountEvent::Opened(AccountOpenedEvent { account_id, balance }),
            ));
        }
        Ok(account)
    }

    /// Deposits into the account: replays the stored history, evaluates the
    /// deposit command against the replayed state, applies the deposit event
    /// and commits it (append, then publish).
    pub fn deposit(&mut self, account_id: AggregateId, amount: u64) -> (r: Result<
        (),
        AccountServiceError,
    >)
        requires
            old(self).inv(),
        ensures
            final(self).inv(),
            final(self).read_model() == old(self).read_model(),
            final(self).can_read() == old(self).can_read(),
            deposit_outcome(
                old(self).store_log(),
                final(self).store_log(),
                old(self).bus_pending(),
                final(self).bus_pending(),
                old(self).can_read(),
                old(self).can_append(),
                old(self).can_produce(),
                account_id,
                amount,
                r,
            ),
    {
        let ghost pre = self.event_store.log();
        let envelopes = match self.event_store.get_events_for_aggregate(account_id, "account") {
            Ok(envelopes) => envelopes,
            Err(e) => {
                return Err(AccountServiceError::EventStoreError(e));
            },
        };
        let events = events_of(&envelopes);
        proof {
            assert(events@ =~= history_for_aggregate(pre, account_id, account_aggregate_type()));
        }
        let mut account = match crate::traits::aggregate::from_history::<Account, AccountEvent>(
            events,
        ) {
            Ok(account) => account,
            Err(e) => {
                return Err(AccountServiceError::ApplyError(e));
            },
        };
        let command = DepositCommand { amount };
        let produced = match command.execute(account) {
            Ok(produced) => produced,
            Err(e) => {
                return Err(AccountServiceError::DepositError(e));
            },
        };
        let event = produced[0];
        match event.apply(&mut account) {
            Ok(()) => {},
            Err(e) => {
                return Err(AccountServiceError::ApplyError(e));
            },
        }
        let id = match account.account_id {
            Some(id) => id,
            None => {
                return Err(
                    AccountServiceError::OperationError(
                        "an identity is required for the deposit event".to_string(),
                    ),
                );
            },
        };
        match self.event_store.append_event(id, "account", AccountEvent::Deposited(event)) {
            Ok(()) => {},
            Err(e) => {
                return Err(AccountServiceError::EventStoreError(e));
            },
        }
        match self.event_bus.produce_event(AccountEvent::Deposited(event)) {
            Ok(()) => {},
            Err(e) => {
                return Err(AccountServiceError::EventBusError(e));
            },
        }
        Ok(())
    }

    /// Withdraws from the account: replays the stored history, evaluates the
    /// withdraw command against the replayed state — refusing an amount that
    /// exceeds the balance — applies the withdraw event and commits it.
    pub fn withdraw(&mut self, account_id: AggregateId, amount: u64) -> (r: Result<
        (),
        AccountServiceError,
    >)
        requires
            old(self).inv(),
        ensures
            final(self).inv(),
            final(self).read_model() == old(self).read_model(),
            final(self).can_read() == old(self).can_read(),
            withdraw_outcome(
                old(self).store_log(),
                final(self).store_log(),
                old(self).bus_pending(),
                final(self).bus_pending(),
                old(self).can_read(),
                old(self).can_append(),
                old(self).can_produce(),
                account_id,
                amount,
                r,
            ),
    {
        let ghost pre = self.event_store.log();
        let envelopes = match self.event_store.get_events_for_aggregate(account_id, "account") {
            Ok(envelopes) => envelopes,
            Err(e) => {
                return Err(AccountServiceError::EventStoreError(e));
            },
        };
        let events = events_of(&envelopes);
        proof {
            assert(events@ =~= history_for_aggregate(pre, account_id, account_aggregate_type()));
        }
        let mut account = match crate::traits::aggregate::from_history::<Account, AccountEvent>(
            events,
        ) {
            Ok(account) => account,
            Err(e) => {
                return Err(AccountServiceError::ApplyError(e));
            },
        };
        let command = WithdrawCommand { amount };
        let produced = match command.execute(account) {
            Ok(produced) => produced,
            Err(e) => {
                return Err(AccountServiceError::WithdrawError(e));
            },
        };
        let event = produced[0];
        match event.apply(&mut account) {
            Ok(()) => {},
            Err(e) => {
                return Err(AccountServiceError::ApplyError(e));
            },
        }
        let id = match account.account_id {
            Some(id) => id,
            None => {
                return Err(
                    AccountServiceError::OperationError(
                        "an identity is required for the withdraw event".to_string(),
                    ),
                );
            },
        };
        match self.event_store.append_event(id, "account", AccountEvent::Withdrawn(event)) {
            Ok(()) => {},
            Err(e) => {
                return Err(AccountServiceError::EventStoreError(e));
            },
        }
        match self.event_bus.produce_event(AccountEvent::Withdrawn(event)) {
            Ok(()) => {},
            Err(e) => {
                return Err(AccountServiceError::EventBusError(e));
            },
        }
        Ok(())
    }

    /// The account's current record in the read model. Eventually
    /// consistent: the projection may lag the store.
    pub fn get_account(&self, account_id: AggregateId) -> (r: Result<
        Account,
        AccountServiceError,
    >)
        requires
            self.inv(),
        ensures
            r is Ok <==> self.can_access() && self.read_model().contains_key(account_id),
            r is Ok ==> r->Ok_0 == self.read_model()[account_id],
            self.can_access() && !self.read_model().contains_key(account_id) ==> r == Err::<
                Account,
                AccountServiceError,
            >(AccountServiceError::RepositoryError(RepositoryError::NotFound)),
    {
        match self.repository.get(account_id) {
            Ok(account) => Ok(account),
            Err(e) => Err(AccountServiceError::RepositoryError(e)),
        }
    }
}

} // verus!
