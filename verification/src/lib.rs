//! Account-state bridge between an EVM-style execution engine and a native
//! ledger: address-to-identity mapping, origin authorization policies, the
//! persisted per-address code and storage tables, and the dispatch protocol
//! that turns engine outcomes into events.

pub mod address;
pub mod evm;
pub mod hashing;
pub mod kvlist;
pub mod laws;
pub mod origin;
pub mod types;
