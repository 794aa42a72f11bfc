//! The command that withdraws an amount from an existing account.

use vstd::prelude::*;

use crate::account::events::WithdrawEvent;
use crate::account::Account;
use crate::traits::command::Command;

verus! {

/// Errors of [`WithdrawCommand`].
#[derive(Debug, Clone, Copy, PartialEq, Eq, Structural)]
pub enum WithdrawError {
    /// The amount exceeds the current balance.
    InsufficientBalance,
    /// The account has no identity yet: a withdrawal needs an opened account.
    AccountNotOpened,
}

impl WithdrawError {
    /// A human-readable description of the failure.
    pub fn message(&self) -> (r: &'static str)
        ensures
            *self is InsufficientBalance ==> r@
                == "cannot withdraw an amount greater than the current balance"@,
            *self is AccountNotOpened ==> r@
                == "account id is missing, cannot process withdrawal"@,
    {
        match self {
            WithdrawError::InsufficientBalance => {
                "cannot withdraw an amount greater than the current balance"
            },
            WithdrawError::AccountNotOpened => "account id is missing, cannot process withdrawal",
        }
    }
}

/// Withdraw the given amount from the account.
pub struct WithdrawCommand {
    pub amount: u64,
}

impl Command<Account, WithdrawEvent, WithdrawError> for WithdrawCommand {
    /// Exactly one withdraw event against the account's identity, iff the
    /// balance covers the amount and the account has an identity.
    open spec fn outcome_ok(&self, state: Account, events: Seq<WithdrawEvent>) -> bool {
        &&& self.amount <= state.balance
        &&& state.account_id is Some
        &&& events.len() == 1
        &&& events[0] == (WithdrawEvent { account_id: state.account_id->0, amount: self.amount })
    }

    /// Insufficient balance is checked first; then the missing identity.
    open spec fn outcome_err(&self, state: Account, err: WithdrawError) -> bool {
        if self.amount > state.balance {
            err == WithdrawError::InsufficientBalance
        } else {
            state.account_id is None && err == WithdrawError::AccountNotOpened
        }
    }

    fn execute(&self, state: Account) -> (r: Result<Vec<WithdrawEvent>, WithdrawError>) {
        if self.amount > state.balance {
            return Err(WithdrawError::InsufficientBalance);
        }
        match state.account_id {
            Some(account_id) => Ok(vec![WithdrawEvent { account_id, amount: self.amount }]),
            None => Err(WithdrawError::AccountNotOpened),
        }
    }
}

} // verus!
