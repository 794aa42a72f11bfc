//! The event that withdraws an amount from an account.

use vstd::prelude::*;

use crate::account::Account;
use crate::ids::AggregateId;
use crate::traits::event::{ApplyError, Event};

verus! {

/// An amount was withdrawn from the account.
#[derive(Debug, Clone, Copy, PartialEq)]
pub struct WithdrawEvent {
    pub account_id: AggregateId,
    pub amount: u64,
}

impl Event<Account> for WithdrawEvent {
    /// Subtracts the amount from the balance. Fails with an invariant
    /// violation — leaving the balance exactly as it was — whenever the
    /// amount exceeds the balance: a balance never goes negative.
    open spec fn apply_to(&self, pre: Account) -> Result<Account, ApplyError> {
        if self.amount > pre.balance {
            Err(ApplyError::InvariantViolated)
        } else {
            Ok(Account { account_id: pre.account_id, balance: (pre.balance - self.amount) as u64 })
        }
    }

    open spec fn id_spec(&self) -> AggregateId {
        self.account_id
    }

    open spec fn aggregate_type_spec(&self) -> Seq<char> {
        "account"@
    }

    open spec fn event_type_spec(&self) -> Seq<char> {
        "withdraw"@
    }

    fn aggregate_id(&self) -> (r: AggregateId) {
        self.account_id
    }

    fn aggregate_type(&self) -> (r: &'static str) {
        "account"
    }

    fn event_type(&self) -> (r: &'static str) {
        "withdraw"
    }

    fn apply(&self, state: &mut Account) -> (r: Result<(), ApplyError>) {
        if self.amount > state.balance {
            return Err(ApplyError::InvariantViolated);
        }
        state.balance = state.balance - self.amount;
        Ok(())
    }
}

} // verus!
