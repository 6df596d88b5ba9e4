use vstd::prelude::*;
use crate::pubkey::Pubkey;

verus! {

/// The assurance level of a credential, from lowest to highest.
#[derive(Debug, Clone, Copy, PartialEq, Eq, Structural)]
pub enum CredentialLevel {
    Basic,
    Standard,
    Enhanced,
    Institutional,
}

/// The rank of a level: 1 for `Basic` up to 4 for `Institutional`.
pub open spec fn level_rank(l: CredentialLevel) -> u8 {
    match l {
        CredentialLevel::Basic => 1,
        CredentialLevel::Standard => 2,
        CredentialLevel::Enhanced => 3,
        CredentialLevel::Institutional => 4,
    }
}

impl CredentialLevel {
    /// The numeric rank of this level.
    pub fn level(&self) -> (r: u8)
        ensures
            r == level_rank(*self),
    {
        match self {
            CredentialLevel::Basic => 1,
            CredentialLevel::Standard => 2,
            CredentialLevel::Enhanced => 3,
            CredentialLevel::Institutional => 4,
        }
    }

    /// Whether this level is at least the required one.
    pub fn meets_requirement(&self, required: &CredentialLevel) -> (r: bool)
        ensures
            r == (level_rank(*self) >= level_rank(*required)),
    {
        self.level() >= required.level()
    }
}

/// What an issuer attests about a credential and when it holds.
#[derive(Debug, Clone, Copy)]
pub struct CredentialMetadata {
    pub level: CredentialLevel,
    pub issuer_authority: Pubkey,
    pub valid_from: i64,
    pub valid_until: i64,
    pub revocation_registry: Pubkey,
    pub jurisdiction: [u8; 2],
}

/// Whether `current_time` lies in the validity window, both ends included.
pub open spec fn metadata_valid_at(m: CredentialMetadata, current_time: i64) -> bool {
    m.valid_from <= current_time <= m.valid_until
}

impl CredentialMetadata {
    /// Whether the credential is valid at `current_time`: from `valid_from`
    /// up to and including `valid_until`.
    pub fn is_valid(&self, current_time: i64) -> (r: bool)
        ensures
            r == metadata_valid_at(*self, current_time),
    {
        current_time >= self.valid_from && current_time <= self.valid_until
    }
}

/// A credential held by an owner.
#[derive(Debug, Clone, Copy)]
pub struct Credential {
    pub owner: Pubkey,
    pub metadata: CredentialMetadata,
    pub commitment: [u8; 32],
    pub is_revoked: bool,
    pub revoked_at: Option<i64>,
    pub bump: u8,
}

impl Credential {
    /// The space a credential account takes.
    pub const SIZE: usize = 8 + 32 + (1 + 32 + 8 + 8 + 32 + 2) + 32 + 1 + 1 + 8 + 1;
}

/// The revocations recorded for an issuer.
#[derive(Debug, Clone, Copy)]
pub struct RevocationRegistry {
    pub authority: Pubkey,
    pub revocation_root: [u8; 32],
    pub total_revoked: u64,
    pub last_updated: i64,
    pub bump: u8,
}

impl RevocationRegistry {
    /// The space a revocation registry account takes.
    pub const SIZE: usize = 8 + 32 + 32 + 8 + 8 + 1;
}

/// Announces that a credential was issued.
#[derive(Debug, Clone, Copy)]
pub struct CredentialIssued {
    pub credential: Pubkey,
    pub owner: Pubkey,
    pub level: CredentialLevel,
    pub issuer: Pubkey,
    pub timestamp: i64,
}

/// Announces that a credential was revoked.
#[derive(Debug, Clone)]
pub struct CredentialRevoked {
    pub credential: Pubkey,
    pub owner: Pubkey,
    pub revoked_by: Pubkey,
    pub timestamp: i64,
    pub reason: String,
}


/// The ranks order the levels strictly, `Basic` lowest and `Institutional`
/// highest, so that meeting a requirement is a total order on levels:
/// every level meets itself, of two levels one meets the other, meeting is
/// transitive, and two levels that meet each other are the same level.
pub proof fn lemma_levels_totally_ordered(a: CredentialLevel, b: CredentialLevel, c: CredentialLevel)
    ensures
        1 <= level_rank(a) <= 4,
        level_rank(a) >= level_rank(a),
        level_rank(a) >= level_rank(b) || level_rank(b) >= level_rank(a),
        level_rank(a) >= level_rank(b) && level_rank(b) >= level_rank(c) ==> level_rank(a) >= level_rank(c),
        level_rank(a) >= level_rank(b) && level_rank(b) >= level_rank(a) ==> a == b,
{
}

/// The validity window has no gaps: a credential valid at two times is valid
/// at every time between them.
pub proof fn lemma_validity_window_convex(m: CredentialMetadata, t1: i64, t2: i64, t3: i64)
    requires
        metadata_valid_at(m, t1),
        metadata_valid_at(m, t3),
        t1 <= t2 <= t3,
    ensures
        metadata_valid_at(m, t2),
{
}


/// The levels rank 1 (`Basic`), 2 (`Standard`), 3 (`Enhanced`) and 4
/// (`Institutional`), and a credential is valid exactly from `valid_from` up
/// to and including `valid_until`.
pub proof fn lemma_level_ranks_and_window(m: CredentialMetadata, t: i64)
    ensures
        level_rank(CredentialLevel::Basic) == 1,
        level_rank(CredentialLevel::Standard) == 2,
        level_rank(CredentialLevel::Enhanced) == 3,
        level_rank(CredentialLevel::Institutional) == 4,
        metadata_valid_at(m, t) <==> (m.valid_from <= t && t <= m.valid_until),
{
}

} // verus!
