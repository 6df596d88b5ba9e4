use vstd::prelude::*;
use crate::pubkey::Pubkey;

verus! {

/// The record that a nullifier hash has been used.
#[derive(Debug, Clone)]
pub struct ProofNullifier {
    pub nullifier_hash: [u8; 32],
    pub used_at: i64,
    pub verification_type: String,
    pub subject: Pubkey,
    pub bump: u8,
}

impl ProofNullifier {
    /// The space a nullifier account takes.
    pub const MAX_SIZE: usize = 8 + 32 + 8 + 4 + 50 + 32 + 1;
}

/// The count of nullifiers used so far.
#[derive(Debug, Clone, Copy)]
pub struct NullifierRegistry {
    pub authority: Pubkey,
    pub total_nullifiers: u64,
    pub merkle_root: [u8; 32],
    pub bump: u8,
}

impl NullifierRegistry {
    /// The space a nullifier registry account takes.
    pub const SIZE: usize = 8 + 32 + 8 + 32 + 1;
}

/// Announces that a nullifier was used.
#[derive(Debug, Clone)]
pub struct NullifierUsed {
    pub nullifier_hash: [u8; 32],
    pub verification_type: String,
    pub subject: Pubkey,
    pub timestamp: i64,
}

} // verus!
