//! The account commands: transient intents validated against current state.

pub mod deposit_command;
pub mod open_account_command;
pub mod withdraw_command;

pub use deposit_command::DepositCommand;
pub use open_account_command::OpenAccountCommand;
pub use withdraw_command::WithdrawCommand;

pub use deposit_command::DepositError;
pub use open_account_command::OpenAccountError;
pub use withdraw_command::WithdrawError;
