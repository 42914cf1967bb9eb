//! A deposit vault driven by fungible-token transfers: each deposit extends the
//! countdown of the active vault and makes the depositor its winner; once the
//! countdown and the withdraw period are over, the winner claims the vault.
//!
//! The contract is a state machine: each call takes the state, the request and what the
//! chain tells about it (caller, signer, block time) and gives the next state and the
//! token transfers to make. A refused call leaves the state as it was.
pub mod claim;
pub mod contract;
pub mod decimal;
pub mod deposit;
pub mod errors;
pub mod governance;
pub mod laws;
pub mod types;
pub mod views;

pub use contract::{Contract, OldContract};
pub use deposit::DepositOutcome;
pub use errors::VaultError;
pub use types::{DepositInfo, FtTransfer, MsgInput, VaultInfo, VaultWithIndex};
