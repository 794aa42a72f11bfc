//! The command that deposits an amount into an existing account.

use vstd::prelude::*;

use crate::account::events::DepositEvent;
use crate::account::Account;
use crate::traits::command::Command;

verus! {

/// Errors of [`DepositCommand`].
#[derive(Debug, Clone, Copy, PartialEq, Eq, Structural)]
pub enum DepositError {
    /// The account has no identity yet: a deposit needs an opened account.
    AccountIdMissing,
}

impl DepositError {
    /// A human-readable description of the failure.
    pub fn message(&self) -> (r: &'static str)
        ensures
            r@ == "account id is required for deposit"@,
    {
        "account id is required for deposit"
    }
}

/// Deposit the given amount into the account.
pub struct DepositCommand {
    pub amount: u64,
}

impl Command<Account, DepositEvent, DepositError> for DepositCommand {
    /// Exactly one deposit event against the account's identity, iff the
    /// account has one.
    open spec fn outcome_ok(&self, state: Account, events: Seq<DepositEvent>) -> bool {
        &&& state.account_id is Some
        &&& events.len() == 1
        &&& events[0] == (DepositEvent { account_id: state.account_id->0, amount: self.amount })
    }

    /// Fails iff the account has no identity yet.
    open spec fn outcome_err(&self, state: Account, err: DepositError) -> bool {
        state.account_id is None && err == DepositError::AccountIdMissing
    }

    fn execute(&self, state: Account) -> (r: Result<Vec<DepositEvent>, DepositError>) {
        match state.account_id {
            Some(account_id) => Ok(vec![DepositEvent { account_id, amount: self.amount }]),
            None => Err(DepositError::AccountIdMissing),
        }
    }
}

} // verus!
