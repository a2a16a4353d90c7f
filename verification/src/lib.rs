//! A two-sided hedge settlement scheme: a factory that deterministically
//! derives and records the three collaborating units of a hedge (two asset
//! vaults and a controller), and a controller state machine that enforces a
//! mutually exclusive, irreversible liquidation-or-maturity outcome and
//! decides the terminal asset transfer between the two vaults.
//!
//! The ledger host (persistent storage, clock, identity verification, code
//! deployment, cross-unit invocation) is outside this crate: operations take
//! the caller's identity and the current time as arguments, and settlement
//! operations return the transfer to perform rather than performing it.

pub mod address;
pub mod bytes;
pub mod controller;
pub mod errors;
pub mod factory;

pub use errors::Error;
