//! A fixed-price token sale engine.
//!
//! One privileged party (the owner) configures a sale window, a unit price and
//! an optional per-purchase cap; arbitrary buyers exchange the base currency
//! for an allocation of the sale token while the window is open, and the owner
//! can later sweep unsold inventory and collected proceeds.
//!
//! The hosting ledger (account balances, fund transfers, the clock, the
//! caller's identity) is an external collaborator: every operation takes the
//! ledger-read values it needs as plain arguments and returns the transfer it
//! wants performed, so the whole decision logic is verified here while the
//! ledger itself stays outside.

pub mod errors;
pub mod manager;
pub mod phase;
pub mod token;

pub use errors::IcoError;
pub use manager::IcoManager;
pub use manager::Transfer;
pub use phase::Status;
pub use token::TokenId;
