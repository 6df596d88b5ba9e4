//! Verified core of a zero-knowledge compliance program: credentials, trusted
//! issuers, selective disclosure, public-input handling, nullifiers and the
//! Groth16 proof-point checks, each stated over plain values.

pub mod errors;
pub mod pubkey;
pub mod credentials;
pub mod proof_types;
pub mod groth16;
pub mod public_inputs;
pub mod issuer;
pub mod nullifier;
pub mod proof_systems;
pub mod selective_disclosure;
pub mod zk_verification;
