//! The command that opens a new account.

use vstd::prelude::*;

use crate::account::events::AccountOpenedEvent;
use crate::account::Account;
use crate::ids::AggregateId;
use crate::traits::command::Command;

verus! {

/// Errors of [`OpenAccountCommand`]. Opening never fails: the command's
/// contract rules every variant of this type out, so none is ever returned.
#[derive(Debug, Clone, Copy, PartialEq, Eq, Structural)]
pub enum OpenAccountError {
    /// Never produced; stands in until a real failure mode of opening exists.
    Never,
}

/// Open a new account with the given starting balance.
pub struct OpenAccountCommand {
    pub balance: u64,
}

impl Command<Account, AccountOpenedEvent, OpenAccountError> for OpenAccountCommand {
    /// Exactly one opened event, carrying the requested balance. The identity
    /// is drawn fresh, so the relation leaves it free.
    open spec fn outcome_ok(&self, state: Account, events: Seq<AccountOpenedEvent>) -> bool {
        events.len() == 1 && events[0].balance == self.balance
    }

    /// Opening never fails.
    open spec fn outcome_err(&self, state: Account, err: OpenAccountError) -> bool {
        false
    }

    fn execute(&self, state: Account) -> (r: Result<Vec<AccountOpenedEvent>, OpenAccountError>) {
        let event = AccountOpenedEvent { account_id: AggregateId::fresh(), balance: self.balance };
        Ok(vec![event])
    }
}

} // verus!
