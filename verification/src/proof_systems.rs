use vstd::prelude::*;
use crate::pubkey::Pubkey;

verus! {

/// The proof systems a verifier may be registered for.
#[derive(Debug, Clone, Copy, PartialEq, Eq, Structural)]
pub enum ProofSystem {
    Groth16,
    Plonk,
    Stark,
    Halo2,
}

/// A verifying key registered for some proof system.
#[derive(Debug, Clone)]
pub struct UniversalVerifier {
    pub proof_system: ProofSystem,
    pub authority: Pubkey,
    pub circuit_id: String,
    pub verifying_key: Vec<u8>,
    pub created_at: i64,
    pub is_active: bool,
}

impl UniversalVerifier {
    pub const MAX_VK_SIZE: usize = 2048;

    /// The space a universal verifier account takes.
    pub const MAX_SIZE: usize = 8 + 1 + 32 + 4 + 100 + 4 + 2048 + 8 + 1;
}

/// What a proof system offers and costs.
#[derive(Debug, Clone, Copy, PartialEq, Eq, Structural)]
pub struct ProofSystemCapabilities {
    pub requires_trusted_setup: bool,
    pub supports_recursion: bool,
    pub avg_proof_size: u32,
    pub avg_verification_cu: u32,
}

/// The capabilities of each proof system.
pub open spec fn capabilities_of(s: ProofSystem) -> ProofSystemCapabilities {
    match s {
        ProofSystem::Groth16 => ProofSystemCapabilities {
            requires_trusted_setup: true,
            supports_recursion: false,
            avg_proof_size: 192,
            avg_verification_cu: 50_000,
        },
        ProofSystem::Plonk => ProofSystemCapabilities {
            requires_trusted_setup: true,
            supports_recursion: true,
            avg_proof_size: 512,
            avg_verification_cu: 100_000,
        },
        ProofSystem::Stark => ProofSystemCapabilities {
            requires_trusted_setup: false,
            supports_recursion: true,
            avg_proof_size: 2048,
            avg_verification_cu: 200_000,
        },
        ProofSystem::Halo2 => ProofSystemCapabilities {
            requires_trusted_setup: false,
            supports_recursion: true,
            avg_proof_size: 768,
            avg_verification_cu: 150_000,
        },
    }
}

impl ProofSystem {
    /// The capabilities of this proof system.
    pub fn capabilities(&self) -> (r: ProofSystemCapabilities)
        ensures
            r == capabilities_of(*self),
    {
        match self {
            ProofSystem::Groth16 => ProofSystemCapabilities {
                requires_trusted_setup: true,
                supports_recursion: false,
                avg_proof_size: 192,
                avg_verification_cu: 50_000,
            },
            ProofSystem::Plonk => ProofSystemCapabilities {
                requires_trusted_setup: true,
                supports_recursion: true,
                avg_proof_size: 512,
                avg_verification_cu: 100_000,
            },
            ProofSystem::Stark => ProofSystemCapabilities {
                requires_trusted_setup: false,
                supports_recursion: true,
                avg_proof_size: 2048,
                avg_verification_cu: 200_000,
            },
            ProofSystem::Halo2 => ProofSystemCapabilities {
                requires_trusted_setup: false,
                supports_recursion: true,
                avg_proof_size: 768,
                avg_verification_cu: 150_000,
            },
        }
    }
}


/// Of the four systems, exactly Groth16 and Plonk need a trusted setup and
/// exactly Groth16 lacks recursion; Groth16 has the smallest proofs and the
/// cheapest verification, Stark the largest and the dearest.
pub proof fn lemma_capabilities_compare(s: ProofSystem)
    ensures
        capabilities_of(s).requires_trusted_setup <==> (s == ProofSystem::Groth16 || s == ProofSystem::Plonk),
        !capabilities_of(s).supports_recursion <==> s == ProofSystem::Groth16,
        capabilities_of(ProofSystem::Groth16).avg_proof_size <= capabilities_of(s).avg_proof_size
            <= capabilities_of(ProofSystem::Stark).avg_proof_size,
        capabilities_of(ProofSystem::Groth16).avg_verification_cu <= capabilities_of(s).avg_verification_cu
            <= capabilities_of(ProofSystem::Stark).avg_verification_cu,
        capabilities_of(ProofSystem::Groth16).avg_proof_size == 192,
        capabilities_of(ProofSystem::Groth16).avg_verification_cu == 50_000,
{
}

} // verus!
