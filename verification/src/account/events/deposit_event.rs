//! The event that deposits an amount into an account.

use vstd::prelude::*;

use crate::account::Account;
use crate::ids::AggregateId;
use crate::traits::event::{ApplyError, Event};

verus! {

/// An amount was deposited into the account.
#[derive(Debug, Clone, Copy, PartialEq)]
pub struct DepositEvent {
    pub account_id: AggregateId,
    pub amount: u64,
}

impl Event<Account> for DepositEvent {
    /// Adds the amount to the balance; fails (leaving the state unchanged)
    /// only when the new balance would not fit in the balance type.
    open spec fn apply_to(&self, pre: Account) -> Result<Account, ApplyError> {
        if pre.balance + self.amount <= u64::MAX {
            Ok(Account { account_id: pre.account_id, balance: (pre.balance + self.amount) as u64 })
        } else {
            Err(ApplyError::Validation)
        }
    }

    open spec fn id_spec(&self) -> AggregateId {
        self.account_id
    }

    open spec fn aggregate_type_spec(&self) -> Seq<char> {
        "account"@
    }

    open spec fn event_type_spec(&self) -> Seq<char> {
        "deposit"@
    }

    fn aggregate_id(&self) -> (r: AggregateId) {
        self.account_id
    }

    fn aggregate_type(&self) -> (r: &'static str) {
        "account"
    }

    fn event_type(&self) -> (r: &'static str) {
        "deposit"
    }

    fn apply(&self, state: &mut Account) -> (r: Result<(), ApplyError>) {
        match state.balance.checked_add(self.amount) {
            Some(new_balance) => {
                state.balance = new_balance;
                Ok(())
            },
            None => Err(ApplyError::Validation),
        }
    }
}

} // verus!
