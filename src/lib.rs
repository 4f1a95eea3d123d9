//! A verified model of a verified-storage registry: verifier allowances,
//! allocations of datacap awaiting proof, and the claims they turn into,
//! together with an auditor of the persisted state.

pub mod types;
pub mod keys;
pub mod checker;
pub mod registry;
pub mod laws;
