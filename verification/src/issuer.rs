use vstd::prelude::*;
use crate::pubkey::Pubkey;

verus! {

/// An issuer trusted to issue credentials, with its track record.
#[derive(Debug, Clone)]
pub struct TrustedIssuer {
    pub pubkey: Pubkey,
    pub name: String,
    pub jurisdiction: [u8; 2],
    pub credential_types: Vec<String>,
    pub reputation_score: u32,
    pub total_issued: u64,
    pub revoked_count: u64,
    pub staked_amount: u64,
    pub is_active: bool,
    pub registered_at: i64,
    pub last_activity: i64,
    pub bump: u8,
}

/// Whether one of the types is the given one.
pub open spec fn lists_type(types: Seq<String>, credential_type: Seq<char>) -> bool {
    exists|i: int| 0 <= i < types.len() && #[trigger] types[i]@ == credential_type
}

impl TrustedIssuer {
    pub const MAX_NAME_LEN: usize = 100;
    pub const MAX_CREDENTIAL_TYPES: usize = 20;
    pub const MAX_CREDENTIAL_TYPE_LEN: usize = 50;

    /// The space an issuer account takes.
    pub const SIZE: usize = 8 + 32 + 4 + 100 + 2 + 4 + 20 * (4 + 50) + 4 + 8 + 8 + 8 + 1 + 8 + 8 + 1;

    /// Whether the issuer is active and lists the credential type.
    pub fn can_issue(&self, credential_type: &str) -> (r: bool)
        ensures
            r == (self.is_active && lists_type(self.credential_types@, credential_type@)),
    {
        if !self.is_active {
            return false;
        }
        let wanted: String = credential_type.to_owned();
        let mut i: usize = 0;
        while i < self.credential_types.len()
            invariant
                i <= self.credential_types@.len(),
                wanted@ == credential_type@,
                self.is_active,
                forall|j: int| 0 <= j < i ==> self.credential_types@[j]@ != credential_type@,
            decreases self.credential_types@.len() - i,
        {
            if self.credential_types[i].eq(&wanted) {
                assert(self.credential_types@[i as int]@ == credential_type@);
                return true;
            }
            i = i + 1;
        }
        false
    }
}

/// The count of registered and of active issuers.
#[derive(Debug, Clone, Copy)]
pub struct IssuerRegistry {
    pub authority: Pubkey,
    pub total_issuers: u64,
    pub active_issuers: u64,
    pub min_stake_amount: u64,
    pub bump: u8,
}

impl IssuerRegistry {
    /// The space an issuer registry account takes.
    pub const SIZE: usize = 8 + 32 + 8 + 8 + 8 + 1;
}

/// The stake an issuer put up.
#[derive(Debug, Clone)]
pub struct IssuerStake {
    pub issuer: Pubkey,
    pub amount: u64,
    pub slashing_rules: Vec<SlashingRule>,
    pub total_slashed: u64,
    pub staked_at: i64,
    pub bump: u8,
}

impl IssuerStake {
    pub const MAX_SLASHING_RULES: usize = 10;

    /// The space an issuer stake account takes.
    pub const SIZE: usize = 8 + 32 + 8 + 4 + 10 * 2 + 8 + 8 + 1;
}

/// A rule under which part of a stake is slashed, with its percentage.
#[derive(Debug, Clone, Copy, PartialEq, Eq, Structural)]
pub enum SlashingRule {
    FraudulentCredential(u8),
    ExcessiveRevocations(u8),
    SecurityBreach(u8),
}

/// Announces that an issuer was registered.
#[derive(Debug, Clone)]
pub struct IssuerRegistered {
    pub issuer: Pubkey,
    pub name: String,
    pub jurisdiction: [u8; 2],
    pub staked_amount: u64,
    pub timestamp: i64,
}

/// Announces that an issuer's stake was slashed.
#[derive(Debug, Clone)]
pub struct IssuerSlashed {
    pub issuer: Pubkey,
    pub reason: String,
    pub amount_slashed: u64,
    pub remaining_stake: u64,
    pub timestamp: i64,
}

/// Announces that an issuer was deactivated.
#[derive(Debug, Clone)]
pub struct IssuerDeactivated {
    pub issuer: Pubkey,
    pub reason: String,
    pub timestamp: i64,
}


/// A type is listed exactly when some listed type is the same string,
/// character for character: a listed type with any character different is no
/// match.
pub proof fn lemma_lists_type_is_string_equality(types: Seq<String>, credential_type: Seq<char>, i: int)
    ensures
        0 <= i < types.len() && types[i]@ == credential_type ==> lists_type(types, credential_type),
        lists_type(types, credential_type) ==> exists|k: int|
            0 <= k < types.len() && types[k]@.len() == credential_type.len()
                && forall|c: int| 0 <= c < credential_type.len() ==> #[trigger] types[k]@[c] == credential_type[c],
        (forall|k: int| 0 <= k < types.len() ==> #[trigger] types[k]@ != credential_type)
            ==> !lists_type(types, credential_type),
{
    if lists_type(types, credential_type) {
        let k = choose|k: int| 0 <= k < types.len() && #[trigger] types[k]@ == credential_type;
        assert(types[k]@.len() == credential_type.len());
    }
}

} // verus!
