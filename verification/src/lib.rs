//! A verified certificate registry: issuance and one-shot revocation of
//! certificates in a key-value record store, batch verification of
//! certificate ids with deterministic cost accounting, and batch
//! verification of Merkle inclusion proofs by iterated pairwise hashing.
#![verifier::loop_isolation(false)]

pub mod batch;
pub mod certificate;
pub mod contract;
pub mod errors;
pub mod laws;
pub mod merkle;
