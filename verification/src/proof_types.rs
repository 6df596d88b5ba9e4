use vstd::prelude::*;
use crate::pubkey::Pubkey;

verus! {

/// A Groth16 proof with its three points in compressed form.
#[derive(Debug, Clone)]
pub struct CompressedProof {
    pub a: [u8; 32],
    pub b: [u8; 64],
    pub c: [u8; 32],
}

/// A Groth16 verifying key with compressed points; `gamma_abc_g1` holds one
/// point for the constant term and one per public input.
#[derive(Debug, Clone)]
pub struct Groth16VerifyingKey {
    pub alpha_g1: [u8; 32],
    pub beta_g2: [u8; 64],
    pub gamma_g2: [u8; 64],
    pub delta_g2: [u8; 64],
    pub gamma_abc_g1: Vec<[u8; 32]>,
}

/// A registered verifying key and the authority that owns it.
#[derive(Debug, Clone)]
pub struct VerifyingKeyAccount {
    pub authority: Pubkey,
    pub circuit_id: String,
    pub key: Groth16VerifyingKey,
}

/// What a caller submits for verification.
#[derive(Debug, Clone)]
pub struct VerificationContext {
    pub verification_type: String,
    pub public_inputs: Vec<[u8; 32]>,
    pub proof: CompressedProof,
}

/// The recorded outcome of a verification.
#[derive(Debug, Clone)]
pub struct VerificationResult {
    pub subject: Pubkey,
    pub verifier: Pubkey,
    pub verification_type: String,
    pub timestamp: i64,
    pub is_valid: bool,
    pub commitment: Option<[u8; 32]>,
    pub expiration: Option<i64>,
}

} // verus!
