//! An on-chain crowdfunding program: campaign creation, donations routed
//! through per-donor escrow accounts, and admin withdrawals.
//!
//! Every instruction is a pure transition on a snapshot of the accounts it
//! declares: the host runtime supplies the account list and the instruction
//! bytes, and either commits the new snapshot or discards all effects on
//! failure. The binary record layout, the instruction decoding, and the
//! three lifecycle transitions are specified and verified here; the host
//! runtime bindings live outside this crate.

pub mod account;
pub mod codec;
pub mod dispatch;
pub mod error;
pub mod keys;
pub mod lifecycle;
