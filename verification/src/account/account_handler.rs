//! The read side: the projection handler.
//!
//! The handler receives account events from the bus and keeps the read model
//! in step with the event store. It never trusts the single delivered event:
//! on every delivery it re-reads the aggregate's **entire** history from the
//! store, replays it, and upserts the result — an "opened" event triggers a
//! create, every other event an update. Rebuilding from the full history on
//! every delivery is what makes duplicate deliveries harmless and keeps the
//! read model eventually consistent under at-least-once delivery.
//!
//! The subscription loop that feeds this handler is transport plumbing and
//! lives with the bus adapter; [`AccountHandler::handle_event`] is the
//! dispatch it invokes once per delivered envelope.

use vstd::prelude::*;

use crate::account::events::{
    AccountEvent, AccountOpenedEvent, DepositEvent, WithdrawEvent, account_aggregate_type,
};
use crate::account::account_service::AccountService;
use crate::account::{Account, replayed_account};
use crate::ids::AggregateId;
use crate::traits::aggregate::{fold_events, replay};
use crate::traits::event::{ApplyError, EnvelopeModel, Event, events_of};
use crate::traits::event_bus::{EventBus, EventBusError};
use crate::traits::event_store::{EventStore, EventStoreError, history_for_aggregate};
use crate::traits::repository::{Repository, RepositoryError};

verus! {

/// Failure of the projection handler: the wrapped cause.
#[derive(Debug, Clone, PartialEq)]
pub enum AccountHandlerError {
    /// The handler itself could not go on, with a description.
    AccountHandlerError(String),
    ApplyError(ApplyError),
    RepositoryError(RepositoryError),
    EventBusError(EventBusError),
    EventStoreError(EventStoreError),
}

/// The read model after a create for an opened event: a fresh record for the
/// opened account, or — when a record already exists under that identity —
/// the table unchanged (the create is refused).
pub open spec fn project_create(
    table: Map<AggregateId, Account>,
    event: AccountOpenedEvent,
) -> Map<AggregateId, Account> {
    if table.contains_key(event.account_id) {
        table
    } else {
        table.insert(
            event.account_id,
            Account { account_id: Some(event.account_id), balance: event.balance },
        )
    }
}

/// The read model after a rebuild-update for the given aggregate: the state
/// replayed from the full stored history overwrites the existing record.
/// Without a replayable, opened history — or without an existing record —
/// the table is unchanged.
pub open spec fn project_update(
    table: Map<AggregateId, Account>,
    log: Seq<EnvelopeModel<AccountEvent>>,
    id: AggregateId,
) -> Map<AggregateId, Account> {
    match replayed_account(log, id) {
        Err(_) => table,
        Ok(acct) => {
            if acct.account_id is Some && table.contains_key(acct.account_id->0) {
                table.insert(acct.account_id->0, acct)
            } else {
                table
            }
        },
    }
}

/// The read model after one delivery of the given event, against the given
/// store log: what the handler leaves behind whenever store and repository
/// are reachable (also when the call reports an error, such as a create for
/// an identity that already has a record).
pub open spec fn project_event(
    table: Map<AggregateId, Account>,
    log: Seq<EnvelopeModel<AccountEvent>>,
    event: AccountEvent,
) -> Map<AggregateId, Account> {
    match event {
        AccountEvent::Opened(e) => project_create(table, e),
        AccountEvent::Deposited(e) => project_update(table, log, e.account_id),
        AccountEvent::Withdrawn(e) => project_update(table, log, e.account_id),
    }
}

/// Idempotent replay under duplicate delivery: handling the same event a
/// second time, with the store unchanged in between, leaves the read model
/// exactly as the first delivery left it — the handler rebuilds from the
/// full history instead of accumulating increments.
pub proof fn lemma_projection_idempotent(
    table: Map<AggregateId, Account>,
    log: Seq<EnvelopeModel<AccountEvent>>,
    event: AccountEvent,
)
    ensures
        project_event(project_event(table, log, event), log, event) == project_event(
            table,
            log,
            event,
        ),
{
    match event {
        AccountEvent::Opened(e) => {
            if !table.contains_key(e.account_id) {
                assert(project_create(table, e).contains_key(e.account_id));
            }
        },
        AccountEvent::Deposited(e) => {
            lemma_project_update_idempotent(table, log, e.account_id);
        },
        AccountEvent::Withdrawn(e) => {
            lemma_project_update_idempotent(table, log, e.account_id);
        },
    }
}

proof fn lemma_project_update_idempotent(
    table: Map<AggregateId, Account>,
    log: Seq<EnvelopeModel<AccountEvent>>,
    id: AggregateId,
)
    ensures
        project_update(project_update(table, log, id), log, id) == project_update(table, log, id),
{
    match replayed_account(log, id) {
        Err(_) => {},
        Ok(acct) => {
            if acct.account_id is Some && table.contains_key(acct.account_id->0) {
                let k = acct.account_id->0;
                let once = table.insert(k, acct);
                assert(once.contains_key(k));
                assert(once.insert(k, acct) =~= once);
            }
        },
    }
}

/// The projection handler: subscribes (through the bus adapter) for account
/// events and keeps the read model in step with the event store.
pub struct AccountHandler<
    R: Repository<Account>,
    B: EventBus<Account, AccountEvent>,
    S: EventStore<Account, AccountEvent>,
> {
    repository: R,
    event_bus: B,
    event_store: S,
}

impl<
    R: Repository<Account>,
    B: EventBus<Account, AccountEvent>,
    S: EventStore<Account, AccountEvent>,
> AccountHandler<R, B, S> {
    /// The store's log, as this handler sees it.
    pub closed spec fn store_log(&self) -> Seq<EnvelopeModel<AccountEvent>> {
        self.event_store.log()
    }

    /// The read model, as this handler sees it.
    pub closed spec fn read_model(&self) -> Map<AggregateId, Account> {
        self.repository.table()
    }

    /// All collaborators are well-formed.
    pub closed spec fn inv(&self) -> bool {
        &&& self.repository.inv()
        &&& self.event_store.inv()
        &&& self.event_bus.inv()
    }

    /// The store can serve reads.
    pub closed spec fn can_read(&self) -> bool {
        self.event_store.can_read()
    }

    /// The repository is reachable.
    pub closed spec fn can_access(&self) -> bool {
        self.repository.can_access()
    }

    pub fn new(repository: R, event_bus: B, event_store: S) -> (r: Self)
        requires
            repository.inv(),
            event_bus.inv(),
            event_store.inv(),
        ensures
            r.inv(),
            r.store_log() == event_store.log(),
            r.read_model() == repository.table(),
            r.can_read() == event_store.can_read(),
            r.can_access() == repository.can_access(),
    {
        Self { repository, event_bus, event_store }
    }

    /// Takes the handler apart, handing its collaborators back — the
    /// counterpart of [`AccountService::into_parts`] for callers that share
    /// the backends by turns.
    pub fn into_parts(self) -> (r: (R, B, S))
        ensures
            r.0.table() == self.read_model(),
            r.0.can_access() == self.can_access(),
            r.2.log() == self.store_log(),
            r.2.can_read() == self.can_read(),
            self.inv() ==> r.0.inv() && r.1.inv() && r.2.inv(),
    {
        (self.repository, self.event_bus, self.event_store)
    }

    /// An account was opened: create its record in the read model from the
    /// opened event alone (the opened state is the replay of that single
    /// event).
    pub fn handle_account_opened(&mut self, event: AccountOpenedEvent) -> (r: Result<
        (),
        AccountHandlerError,
    >)
        requires
            old(self).inv(),
        ensures
            final(self).inv(),
            final(self).store_log() == old(self).store_log(),
            final(self).can_read() == old(self).can_read(),
            final(self).can_access() == old(self).can_access(),
            r is Ok <==> old(self).can_access() && !old(self).read_model().contains_key(
                event.account_id,
            ),
            old(self).can_access() ==> final(self).read_model() == project_create(
                old(self).read_model(),
                event,
            ),
            r is Err ==> (r->Err_0 matches AccountHandlerError::RepositoryError(_)),
            !old(self).can_access() ==> final(self).read_model() == old(self).read_model(),
    {
        let mut history: Vec<AccountOpenedEvent> = Vec::new();
        history.push(event);
        let ghost h = history@;
        proof {
            let opened = Account { account_id: Some(event.account_id), balance: event.balance };
            assert(h =~= Seq::<AccountOpenedEvent>::empty().push(event));
            assert(h.skip(1) =~= Seq::<AccountOpenedEvent>::empty());
            assert(fold_events::<Account, AccountOpenedEvent>(opened, h.skip(1)) == Ok::<
                Account,
                ApplyError,
            >(opened));
            assert(replay::<Account, AccountOpenedEvent>(h) == Ok::<Account, ApplyError>(opened));
        }
        let account = match crate::traits::aggregate::from_history::<Account, AccountOpenedEvent>(
            history,
        ) {
            Ok(account) => account,
            Err(e) => {
                return Err(AccountHandlerError::ApplyError(e));
            },
        };
        match self.repository.create(account) {
            Ok(()) => Ok(()),
            Err(e) => Err(AccountHandlerError::RepositoryError(e)),
        }
    }

    /// An amount was deposited: re-read the aggregate's entire history from
    /// the store, replay it, and overwrite its record in the read model.
    pub fn handle_account_deposited(&mut self, event: DepositEvent) -> (r: Result<
        (),
        AccountHandlerError,
    >)
        requires
            old(self).inv(),
        ensures
            final(self).inv(),
            final(self).store_log() == old(self).store_log(),
            final(self).can_read() == old(self).can_read(),
            final(self).can_access() == old(self).can_access(),
            old(self).can_read() && old(self).can_access() ==> final(self).read_model()
                == project_update(old(self).read_model(), old(self).store_log(), event.account_id),
            r is Err ==> !(r->Err_0 matches AccountHandlerError::AccountHandlerError(_)) && !(
            r->Err_0 matches AccountHandlerError::EventBusError(_)),
            r is Ok <==> old(self).can_read() && old(self).can_access() && (replayed_account(
                old(self).store_log(),
                event.account_id,
            ) matches Ok(acct) && acct.account_id is Some),
            !old(self).can_read() || !old(self).can_access() ==> final(self).read_model() == old(
                self,
            ).read_model(),
    {
        self.rebuild_and_update(event.account_id)
    }

    /// An amount was withdrawn: same full rebuild as a deposit.
    pub fn handle_account_withdrawn(&mut self, event: WithdrawEvent) -> (r: Result<
        (),
        AccountHandlerError,
    >)
        requires
            old(self).inv(),
        ensures
            final(self).inv(),
            final(self).store_log() == old(self).store_log(),
            final(self).can_read() == old(self).can_read(),
            final(self).can_access() == old(self).can_access(),
            old(self).can_read() && old(self).can_access() ==> final(self).read_model()
                == project_update(old(self).read_model(), old(self).store_log(), event.account_id),
            r is Err ==> !(r->Err_0 matches AccountHandlerError::AccountHandlerError(_)) && !(
            r->Err_0 matches AccountHandlerError::EventBusError(_)),
            r is Ok <==> old(self).can_read() && old(self).can_access() && (replayed_account(
                old(self).store_log(),
                event.account_id,
            ) matches Ok(acct) && acct.account_id is Some),
            !old(self).can_read() || !old(self).can_access() ==> final(self).read_model() == old(
                self,
            ).read_model(),
    {
        self.rebuild_and_update(event.account_id)
    }

    /// The shared rebuild: read the full history, replay, update.
    fn rebuild_and_update(&mut self, account_id: AggregateId) -> (r: Result<
        (),
        AccountHandlerError,
    >)
        requires
            old(self).inv(),
        ensures
            final(self).inv(),
            final(self).store_log() == old(self).store_log(),
            final(self).can_read() == old(self).can_read(),
            final(self).can_access() == old(self).can_access(),
            old(self).can_read() && old(self).can_access() ==> final(self).read_model()
                == project_update(old(self).read_model(), old(self).store_log(), account_id),
            r is Err ==> !(r->Err_0 matches AccountHandlerError::AccountHandlerError(_)) && !(
            r->Err_0 matches AccountHandlerError::EventBusError(_)),
            r is Ok <==> old(self).can_read() && old(self).can_access() && (replayed_account(
                old(self).store_log(),
                account_id,
            ) matches Ok(acct) && acct.account_id is Some),
            !old(self).can_read() || !old(self).can_access() ==> final(self).read_model() == old(
                self,
            ).read_model(),
    {
        let ghost pre = self.event_store.log();
        let envelopes = match self.event_store.get_events_for_aggregate(account_id, "account") {
            Ok(envelopes) => envelopes,
            Err(e) => {
                return Err(AccountHandlerError::EventStoreError(e));
            },
        };
        let events = events_of(&envelopes);
        proof {
            assert(events@ =~= history_for_aggregate(pre, account_id, account_aggregate_type()));
        }
        let account = match crate::traits::aggregate::from_history::<Account, AccountEvent>(
            events,
        ) {
            Ok(account) => account,
            Err(e) => {
                return Err(AccountHandlerError::ApplyError(e));
            },
        };
        match self.repository.update(account) {
            Ok(()) => Ok(()),
            Err(e) => Err(AccountHandlerError::RepositoryError(e)),
        }
    }

    /// One delivery: dispatches the event to its handler, as the
    /// subscription's callback does, and reports any failure as a handling
    /// error for the bus's error sink.
    pub fn handle_event(&mut self, event: AccountEvent) -> (r: Result<(), EventBusError>)
        requires
            old(self).inv(),
        ensures
            final(self).inv(),
            final(self).store_log() == old(self).store_log(),
            final(self).can_read() == old(self).can_read(),
            final(self).can_access() == old(self).can_access(),
            r is Err ==> (r->Err_0 matches EventBusError::HandleError(_)),
            old(self).can_read() && old(self).can_access() ==> final(self).read_model()
                == project_event(old(self).read_model(), old(self).store_log(), event),
            !old(self).can_access() ==> final(self).read_model() == old(self).read_model(),
            !old(self).can_read() && !(event matches AccountEvent::Opened(_))
                ==> final(self).read_model() == old(self).read_model(),
    {
        let outcome = match event {
            AccountEvent::Opened(e) => self.handle_account_opened(e),
            AccountEvent::Deposited(e) => self.handle_account_deposited(e),
            AccountEvent::Withdrawn(e) => self.handle_account_withdrawn(e),
        };
        match outcome {
            Ok(()) => Ok(()),
            Err(_) => Err(
                EventBusError::HandleError("the projection handler failed".to_string()),
            ),
        }
    }
}

} // verus!
