use vstd::prelude::*;
use crate::pubkey::Pubkey;

verus! {

/// An attribute a subject can prove without revealing more.
#[derive(Debug, Clone, PartialEq, Eq)]
pub enum AttributeType {
    Age(AgeRange),
    Residency(CountryCode),
    NotSanctioned,
    AccreditedInvestor,
    CreditScore(ScoreRange),
    Employed,
    Income(IncomeRange),
    Custom(String),
}

#[derive(Debug, Clone, Copy, PartialEq, Eq, Structural)]
pub enum AgeRange {
    Over18,
    Over21,
    Over25,
    Between18And65,
    Custom { min: u8, max: u8 },
}

#[derive(Debug, Clone, Copy, PartialEq, Eq)]
pub struct CountryCode {
    pub code: [u8; 2],
}

#[derive(Debug, Clone, Copy, PartialEq, Eq, Structural)]
pub enum ScoreRange {
    Poor,
    Fair,
    Good,
    VeryGood,
    Excellent,
}

#[derive(Debug, Clone, Copy, PartialEq, Eq, Structural)]
pub enum IncomeRange {
    Under50K,
    Range50To100K,
    Range100To250K,
    Over250K,
}

/// What a verifier asks a subject to prove.
#[derive(Debug, Clone)]
pub struct SelectiveDisclosureRequest {
    pub required_attributes: Vec<AttributeType>,
    pub optional_attributes: Vec<AttributeType>,
    pub jurisdiction: [u8; 2],
    pub min_credential_level: u8,
}

/// The record of a selective disclosure.
#[derive(Debug, Clone)]
pub struct SelectiveDisclosureProof {
    pub subject: Pubkey,
    pub verifier: Pubkey,
    pub proven_attributes: Vec<AttributeType>,
    pub credential_commitment: [u8; 32],
    pub nullifier: [u8; 32],
    pub timestamp: i64,
    pub expires_at: i64,
    pub is_valid: bool,
}

/// Whether a disclosure is still valid at `current_time`: marked valid and
/// not yet expired (it expires at `expires_at`).
pub open spec fn disclosure_valid_at(p: SelectiveDisclosureProof, current_time: i64) -> bool {
    p.is_valid && current_time < p.expires_at
}

impl SelectiveDisclosureProof {
    pub const MAX_ATTRIBUTES: usize = 10;

    /// The space a disclosure account takes.
    pub const MAX_SIZE: usize = 8 + 32 + 32 + 4 + 10 * 100 + 32 + 32 + 8 + 8 + 1;

    /// Whether the disclosure is valid at `current_time`.
    pub fn check_validity(&self, current_time: i64) -> (r: bool)
        ensures
            r == disclosure_valid_at(*self, current_time),
    {
        self.is_valid && current_time < self.expires_at
    }
}

/// Announces that a selective disclosure took place.
#[derive(Debug, Clone, Copy)]
pub struct SelectiveDisclosurePerformed {
    pub subject: Pubkey,
    pub verifier: Pubkey,
    pub attribute_count: u8,
    pub timestamp: i64,
}


/// Once a disclosure is no longer valid it never becomes valid again: a
/// disclosure valid at some time was valid at every earlier time.
pub proof fn lemma_disclosure_validity_monotone(p: SelectiveDisclosureProof, t1: i64, t2: i64)
    requires
        disclosure_valid_at(p, t2),
        t1 <= t2,
    ensures
        disclosure_valid_at(p, t1),
{
}

/// A disclosure recorded at `current_time` to expire `expires_in` later is
/// valid exactly at the times before its expiry; in particular it is valid
/// when recorded exactly when `expires_in` is positive.
pub proof fn lemma_fresh_disclosure_validity(
    p: SelectiveDisclosureProof,
    current_time: i64,
    expires_in: i64,
    t: i64,
)
    requires
        p.is_valid,
        p.timestamp == current_time,
        p.expires_at == current_time + expires_in,
    ensures
        disclosure_valid_at(p, t) <==> t < current_time + expires_in,
        disclosure_valid_at(p, current_time) <==> expires_in > 0,
{
}


/// A disclosure is valid at a time exactly when its flag is set and the time
/// is before its expiry: one whose flag is cleared is valid at no time at all,
/// whatever it proves.
pub proof fn lemma_disclosure_validity_needs_flag(p: SelectiveDisclosureProof, t: i64)
    ensures
        disclosure_valid_at(p, t) ==> p.is_valid,
        disclosure_valid_at(p, t) ==> t < p.expires_at,
        p.is_valid && t < p.expires_at ==> disclosure_valid_at(p, t),
        !p.is_valid ==> !disclosure_valid_at(p, t),
{
}

} // verus!
