//! An on-ledger counter service: persistent, address-derived counter records
//! gated by an authorization key, mutated through a fixed set of checked
//! operations, and observed through an append-only event log.

pub mod accounts;
pub mod address;
pub mod ctx;
pub mod errors;
pub mod events;
pub mod keys;
pub mod laws;
pub mod ledger;
