//! An escrow-based English auction for a single non-fungible asset per
//! listing, written as deterministic state transitions against a keyed
//! store. Each transition validates its preconditions, mutates the store,
//! and emits the bank transfers and asset-custody calls that the host must
//! execute atomically with the state write.

pub mod coin_helpers;
pub mod contract;
pub mod decimal;
pub mod error;
pub mod laws;
pub mod msg;
pub mod state;
pub mod types;
