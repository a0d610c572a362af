//! A fungible-asset ledger with an administrator-controlled compliance
//! overlay: accounts can be frozen, temporarily or indefinitely, which blocks
//! their outgoing transfers, approvals and burns while the freeze is active,
//! and tags the freeze with a compliance classification.
//!
//! The ledger is a pure state machine. The hosting environment's collaborators
//! are modeled as explicit values handed into each operation: authorization as
//! an [`auth::AuthContext`] capability, and the monotonically nondecreasing
//! ledger sequence number as a `now` parameter. Every mutating operation
//! either commits all of its writes and returns the emitted notification, or
//! returns an [`errors::Error`] and leaves the state untouched.

pub mod allowance;
pub mod auth;
pub mod balance;
pub mod contract;
pub mod errors;
pub mod events;
pub mod freeze;
pub mod storage_types;
pub mod store;
