//! The event that opens an account.

use vstd::prelude::*;

use crate::account::Account;
use crate::ids::AggregateId;
use crate::traits::event::{ApplyError, Event};

verus! {

/// An account was opened with the given identity and starting balance.
#[derive(Debug, Clone, Copy, PartialEq)]
pub struct AccountOpenedEvent {
    pub account_id: AggregateId,
    pub balance: u64,
}

impl Event<Account> for AccountOpenedEvent {
    /// Opening always succeeds: it gives the state its identity and sets the
    /// starting balance.
    open spec fn apply_to(&self, pre: Account) -> Result<Account, ApplyError> {
        Ok(Account { account_id: Some(self.account_id), balance: self.balance })
    }

    open spec fn id_spec(&self) -> AggregateId {
        self.account_id
    }

    open spec fn aggregate_type_spec(&self) -> Seq<char> {
        "account"@
    }

    open spec fn event_type_spec(&self) -> Seq<char> {
        "account_opened"@
    }

    fn aggregate_id(&self) -> (r: AggregateId) {
        self.account_id
    }

    fn aggregate_type(&self) -> (r: &'static str) {
        "account"
    }

    fn event_type(&self) -> (r: &'static str) {
        "account_opened"
    }

    fn apply(&self, state: &mut Account) -> (r: Result<(), ApplyError>) {
        state.account_id = Some(self.account_id);
        state.balance = self.balance;
        Ok(())
    }
}

} // verus!
