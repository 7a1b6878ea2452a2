//! A confidential-balance engine for a token ledger: deterministic key
//! derivation, proof bundles for each operation, and the choreography that
//! stages proof contexts, submits the guarded operation and reclaims the
//! contexts.

pub mod attest;
pub mod balance;
pub mod choreography;
pub mod error;
pub mod identifiers;
pub mod instructions;
pub mod keys;
pub mod models;
pub mod proofs;
pub mod service;
pub mod state;
