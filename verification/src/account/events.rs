//! The account domain events: one tagged variant per event kind, with a
//! single exhaustive dispatch for each part of the event contract.

pub mod account_opened_event;
pub mod deposit_event;
pub mod withdraw_event;

use vstd::prelude::*;

use crate::account::Account;
use crate::ids::AggregateId;
use crate::traits::event::{ApplyError, Event};

pub use account_opened_event::AccountOpenedEvent;
pub use deposit_event::DepositEvent;
pub use withdraw_event::WithdrawEvent;

verus! {

/// The aggregate-type discriminator of the account domain.
pub open spec fn account_aggregate_type() -> Seq<char> {
    "account"@
}

/// Any event of the account domain.
#[derive(Debug, Clone, Copy, PartialEq)]
pub enum AccountEvent {
    Opened(AccountOpenedEvent),
    Deposited(DepositEvent),
    Withdrawn(WithdrawEvent),
}

impl Event<Account> for AccountEvent {
    open spec fn apply_to(&self, pre: Account) -> Result<Account, ApplyError> {
        match self {
            AccountEvent::Opened(e) => e.apply_to(pre),
            AccountEvent::Deposited(e) => e.apply_to(pre),
            AccountEvent::Withdrawn(e) => e.apply_to(pre),
        }
    }

    open spec fn id_spec(&self) -> AggregateId {
        match self {
            AccountEvent::Opened(e) => e.id_spec(),
            AccountEvent::Deposited(e) => e.id_spec(),
            AccountEvent::Withdrawn(e) => e.id_spec(),
        }
    }

    open spec fn aggregate_type_spec(&self) -> Seq<char> {
        account_aggregate_type()
    }

    open spec fn event_type_spec(&self) -> Seq<char> {
        match self {
            AccountEvent::Opened(e) => e.event_type_spec(),
            AccountEvent::Deposited(e) => e.event_type_spec(),
            AccountEvent::Withdrawn(e) => e.event_type_spec(),
        }
    }

    fn aggregate_id(&self) -> (r: AggregateId) {
        match self {
            AccountEvent::Opened(e) => e.aggregate_id(),
            AccountEvent::Deposited(e) => e.aggregate_id(),
            AccountEvent::Withdrawn(e) => e.aggregate_id(),
        }
    }

    fn aggregate_type(&self) -> (r: &'static str) {
        "account"
    }

    fn event_type(&self) -> (r: &'static str) {
        match self {
            AccountEvent::Opened(e) => e.event_type(),
            AccountEvent::Deposited(e) => e.event_type(),
            AccountEvent::Withdrawn(e) => e.event_type(),
        }
    }

    fn apply(&self, state: &mut Account) -> (r: Result<(), ApplyError>) {
        match self {
            AccountEvent::Opened(e) => e.apply(state),
            AccountEvent::Deposited(e) => e.apply(state),
            AccountEvent::Withdrawn(e) => e.apply(state),
        }
    }
}

} // verus!
