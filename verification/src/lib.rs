//! Ledger and distribution engine for fractional ownership of real-world
//! property: an ownership ledger over tokenized shares, a rental-income
//! distribution engine with double-claim prevention, a token-weighted
//! governance process, a thin secondary market and a KYC gate.
//!
//! Every operation is a pure, terminating computation over the entity
//! records it touches; the hosting environment authenticates callers,
//! stores the records, applies each operation atomically and publishes the
//! returned domain event.

pub mod auth;
pub mod bps;
pub mod events;
pub mod governance;
pub mod income;
pub mod kyc;
pub mod laws;
pub mod market;
pub mod ownership;
pub mod platform;
pub mod property;
pub mod sums;
pub mod types;
