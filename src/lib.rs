//! Collateralized lending ledger: per-account deposit and debt balances,
//! with a solvency rule enforced on every state change and a stricter
//! liquidation threshold below which anyone may retire debt against collateral.

pub mod error;
pub mod instructions;
pub mod laws;
pub mod ledger;
pub mod processor;
pub mod ratio;
pub mod state;

pub use error::LendingError;
pub use instructions::{Instruction, LendingInstruction};
pub use ledger::{borrow, deposit, liquidate, repay, withdraw};
pub use processor::process_instruction;
pub use state::UserAccount;
