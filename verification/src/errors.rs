use vstd::prelude::*;

verus! {

/// The errors that the program reports.
#[derive(Debug, Clone, Copy, PartialEq, Eq, Structural)]
pub enum ZkVerificationError {
    /// Public inputs conversion failed
    PublicInputsTryIntoFailed,
    /// Failed to decompress G1 point
    DecompressG1Failed,
    /// Failed to decompress G2 point
    DecompressG2Failed,
    /// Invalid public inputs length
    InvalidPublicInputsLength,
    /// Failed to create Groth16 verifier
    CreateGroth16VerifierFailed,
    /// Proof verification failed
    ProofVerificationFailed,
    /// Invalid batch size
    InvalidBatchSize,
    /// Invalid proof format
    InvalidProofFormat,
}

} // verus!
