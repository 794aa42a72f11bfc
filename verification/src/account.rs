//! The account domain: the reference instantiation of the generic machinery.

pub mod account_handler;
pub mod account_service;
pub mod codec;
pub mod commands;
pub mod events;

use vstd::prelude::*;

use crate::ids::AggregateId;
use crate::traits::aggregate::{Aggregate, replay};
use crate::traits::event::{ApplyError, EnvelopeModel};
use crate::traits::event_store::history_for_aggregate;

use crate::account::events::{AccountEvent, account_aggregate_type};

pub use account_handler::AccountHandler;
pub use account_service::AccountService;

verus! {

/// The account a stored history replays to: the fold of the aggregate's
/// events, in store order, onto the initial state. This ties the store's log
/// to the domain: it is what every read of an account means.
pub open spec fn replayed_account(
    log: Seq<EnvelopeModel<AccountEvent>>,
    id: AggregateId,
) -> Result<Account, ApplyError> {
    replay::<Account, AccountEvent>(history_for_aggregate(log, id, account_aggregate_type()))
}

/// A bank account: the aggregate state of the reference domain.
///
/// An account has no identity until an "opened" event has been applied;
/// the default value (`account_id == None`, zero balance) represents
/// "not yet created". Balances are kept in indivisible minor units, so a
/// balance is a plain unsigned integer, and the domain invariant is simply
/// that it never goes negative.
#[derive(Debug, Clone, Copy, PartialEq)]
pub struct Account {
    pub account_id: Option<AggregateId>,
    pub balance: u64,
}

impl Account {
    pub fn new(account_id: Option<AggregateId>, balance: u64) -> (r: Self)
        ensures
            r == (Account { account_id, balance }),
    {
        Self { account_id, balance }
    }
}

impl Default for Account {
    /// The "not yet created" state: no identity, zero balance.
    fn default() -> (r: Self)
        ensures
            r == (Account { account_id: None, balance: 0u64 }),
    {
        Self { account_id: None, balance: 0 }
    }
}

impl Aggregate for Account {
    open spec fn initial_spec() -> Account {
        Account { account_id: None, balance: 0u64 }
    }

    open spec fn id_spec(&self) -> Option<AggregateId> {
        self.account_id
    }

    fn initial() -> (r: Account) {
        Account { account_id: None, balance: 0 }
    }

    fn aggregate_id(&self) -> (r: Option<AggregateId>) {
        self.account_id
    }
}

} // verus!
