//! Verified core of the Credence identity bond contract.
//!
//! The contract keeps one identity bond in its instance storage: an amount
//! locked by an identity for a duration, optionally rolling, with a notice
//! period before a withdrawal. This crate holds the rules that decide what
//! each contract call does to that stored state; reading the ledger, checking
//! signatures and publishing events is left to the host glue around it.
pub mod address;
pub mod bond;
pub mod contract;
pub mod laws;

pub use bond::{BondError, DataKey, IdentityBond};
pub use contract::CredenceBond;
