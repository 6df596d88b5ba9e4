//! The program's instructions, each a function from the accounts it reads,
//! the clock and the caller's arguments to the accounts it writes and the
//! event it announces.
use vstd::prelude::*;
use crate::credentials::{
    Credential, CredentialLevel, CredentialIssued, CredentialMetadata, CredentialRevoked, RevocationRegistry,
    level_rank, metadata_valid_at,
};
use crate::errors::ZkVerificationError;
use crate::groth16::{expected_inputs, groth16_outcome, verify_dynamic};
use crate::issuer::{IssuerRegistered, IssuerRegistry, IssuerStake, TrustedIssuer};
use crate::nullifier::{NullifierRegistry, NullifierUsed, ProofNullifier};
use crate::proof_systems::{ProofSystem, UniversalVerifier};
use crate::proof_types::{Groth16VerifyingKey, VerificationContext, VerificationResult, VerifyingKeyAccount};
use crate::public_inputs::{MAX_PUBLIC_INPUTS, PublicInputsHandler};
use crate::pubkey::Pubkey;
use crate::selective_disclosure::{
    SelectiveDisclosurePerformed, SelectiveDisclosureProof, SelectiveDisclosureRequest,
};

verus! {

/// The account that registering a verifying key creates.
pub fn register_verifying_key(
    authority: Pubkey,
    circuit_id: String,
    key: Groth16VerifyingKey,
) -> (r: VerifyingKeyAccount)
    ensures
        r == (VerifyingKeyAccount { authority, circuit_id, key }),
{
    VerifyingKeyAccount { authority, circuit_id, key }
}

/// Whether every byte of the word is zero.
pub open spec fn is_zero_word(w: [u8; 32]) -> bool {
    forall|j: int| 0 <= j < 32 ==> #[trigger] w@[j] == 0
}

fn zero_word(w: &[u8; 32]) -> (r: bool)
    ensures
        r == is_zero_word(*w),
{
    let mut j: usize = 0;
    while j < 32
        invariant
            j <= 32,
            forall|m: int| 0 <= m < j ==> w@[m] == 0,
        decreases 32 - j,
    {
        if w[j] != 0 {
            return false;
        }
        j = j + 1;
    }
    true
}

/// The commitment a verification records: the first public input, unless it
/// is all zeros or missing.
pub open spec fn recorded_commitment(inputs: Seq<[u8; 32]>) -> Option<[u8; 32]> {
    if inputs.len() > 0 && !is_zero_word(inputs[0]) {
        Some(inputs[0])
    } else {
        None
    }
}

/// Whether a proof is accepted, and else the first reason it is refused: the
/// key must belong to the caller, the inputs must number between 1 and
/// `MAX_PUBLIC_INPUTS` and match the key, and the proof points must decode.
pub open spec fn verify_proof_outcome(
    verifying_key: VerifyingKeyAccount,
    authority: Pubkey,
    verification_context: VerificationContext,
) -> Result<(), ZkVerificationError> {
    let n = verification_context.public_inputs@.len();
    if verifying_key.authority != authority {
        Err(ZkVerificationError::InvalidProofFormat)
    } else if n == 0 || n > MAX_PUBLIC_INPUTS {
        Err(ZkVerificationError::InvalidPublicInputsLength)
    } else if n != expected_inputs(verifying_key.key.gamma_abc_g1@.len()) {
        Err(ZkVerificationError::InvalidPublicInputsLength)
    } else {
        groth16_outcome(n, verification_context.proof, verifying_key.key)
    }
}

/// Verify a proof and consume its nullifier: on success, the nullifier
/// record, the verification result and the event to announce, with the
/// registry's count of nullifiers raised by one; on failure, the registry is
/// left as it was.
pub fn verify_proof(
    verifying_key: &VerifyingKeyAccount,
    authority: Pubkey,
    subject: Pubkey,
    verification_context: VerificationContext,
    nullifier_hash: [u8; 32],
    current_time: i64,
    nullifier_bump: u8,
    nullifier_registry: &mut NullifierRegistry,
) -> (r: Result<(ProofNullifier, VerificationResult, NullifierUsed), ZkVerificationError>)
    requires
        verify_proof_outcome(*verifying_key, authority, verification_context) is Ok
            ==> old(nullifier_registry).total_nullifiers < u64::MAX,
    ensures
        match r {
            Ok((nullifier, result, event)) => {
                &&& verify_proof_outcome(*verifying_key, authority, verification_context) is Ok
                &&& nullifier == (ProofNullifier {
                    nullifier_hash,
                    used_at: current_time,
                    verification_type: verification_context.verification_type,
                    subject,
                    bump: nullifier_bump,
                })
                &&& result == (VerificationResult {
                    subject,
                    verifier: authority,
                    verification_type: verification_context.verification_type,
                    timestamp: current_time,
                    is_valid: true,
                    commitment: recorded_commitment(verification_context.public_inputs@),
                    expiration: None,
                })
                &&& event == (NullifierUsed {
                    nullifier_hash,
                    verification_type: verification_context.verification_type,
                    subject,
                    timestamp: current_time,
                })
                &&& *final(nullifier_registry) == (NullifierRegistry {
                    total_nullifiers: (old(nullifier_registry).total_nullifiers + 1) as u64,
                    ..*old(nullifier_registry)
                })
            },
            Err(e) => {
                &&& verify_proof_outcome(*verifying_key, authority, verification_context) == Err::<(), ZkVerificationError>(e)
                &&& *final(nullifier_registry) == *old(nullifier_registry)
            },
        },
{
    if !verifying_key.authority.key_eq(&authority) {
        return Err(ZkVerificationError::InvalidProofFormat);
    }
    let vk = &verifying_key.key;
    let VerificationContext { verification_type, public_inputs, proof } = verification_context;
    let inputs_handler = PublicInputsHandler::new(public_inputs)?;
    inputs_handler.validate_against_vk(vk.gamma_abc_g1.len())?;
    verify_dynamic(inputs_handler.as_slice(), &proof, vk)?;

    let nullifier = ProofNullifier {
        nullifier_hash,
        used_at: current_time,
        verification_type: verification_type.clone(),
        subject,
        bump: nullifier_bump,
    };
    nullifier_registry.total_nullifiers = nullifier_registry.total_nullifiers + 1;

    let mut commitment: Option<[u8; 32]> = None;
    if let Some(first) = inputs_handler.extract_commitment() {
        if !zero_word(&first) {
            commitment = Some(first);
        }
    }
    let result = VerificationResult {
        subject,
        verifier: authority,
        verification_type: verification_type.clone(),
        timestamp: current_time,
        is_valid: true,
        commitment,
        expiration: None,
    };
    let event = NullifierUsed { nullifier_hash, verification_type, subject, timestamp: current_time };
    Ok((nullifier, result, event))
}

/// Run the checks of `verify_proof` without recording anything: whether the
/// proof is accepted, and else why not.
pub fn check_proof(
    verifying_key: &VerifyingKeyAccount,
    authority: Pubkey,
    verification_context: &VerificationContext,
) -> (r: Result<(), ZkVerificationError>)
    ensures
        r == verify_proof_outcome(*verifying_key, authority, *verification_context),
{
    if !verifying_key.authority.key_eq(&authority) {
        return Err(ZkVerificationError::InvalidProofFormat);
    }
    let vk = &verifying_key.key;
    let mut public_inputs: Vec<[u8; 32]> = Vec::new();
    let mut i: usize = 0;
    while i < verification_context.public_inputs.len()
        invariant
            i <= verification_context.public_inputs@.len(),
            public_inputs@ == verification_context.public_inputs@.subrange(0, i as int),
        decreases verification_context.public_inputs@.len() - i,
    {
        public_inputs.push(verification_context.public_inputs[i]);
        i = i + 1;
    }
    assert(public_inputs@ =~= verification_context.public_inputs@);
    let inputs_handler = PublicInputsHandler::new(public_inputs)?;
    inputs_handler.validate_against_vk(vk.gamma_abc_g1.len())?;
    verify_dynamic(inputs_handler.as_slice(), &verification_context.proof, vk)
}

/// `verify_proof` wherever counting one more nullifier is possible: `None`
/// exactly when the registry already counts `u64::MAX` nullifiers and the
/// proof would be accepted, in which case nothing is recorded; otherwise what
/// `verify_proof` gives.
pub fn try_verify_proof(
    verifying_key: &VerifyingKeyAccount,
    authority: Pubkey,
    subject: Pubkey,
    verification_context: VerificationContext,
    nullifier_hash: [u8; 32],
    current_time: i64,
    nullifier_bump: u8,
    nullifier_registry: &mut NullifierRegistry,
) -> (r: Option<Result<(ProofNullifier, VerificationResult, NullifierUsed), ZkVerificationError>>)
    ensures
        match r {
            None => {
                &&& verify_proof_outcome(*verifying_key, authority, verification_context) is Ok
                &&& old(nullifier_registry).total_nullifiers == u64::MAX
                &&& *final(nullifier_registry) == *old(nullifier_registry)
            },
            Some(Ok((nullifier, result, event))) => {
                &&& verify_proof_outcome(*verifying_key, authority, verification_context) is Ok
                &&& nullifier == (ProofNullifier {
                    nullifier_hash,
                    used_at: current_time,
                    verification_type: verification_context.verification_type,
                    subject,
                    bump: nullifier_bump,
                })
                &&& result == (VerificationResult {
                    subject,
                    verifier: authority,
                    verification_type: verification_context.verification_type,
                    timestamp: current_time,
                    is_valid: true,
                    commitment: recorded_commitment(verification_context.public_inputs@),
                    expiration: None,
                })
                &&& event == (NullifierUsed {
                    nullifier_hash,
                    verification_type: verification_context.verification_type,
                    subject,
                    timestamp: current_time,
                })
                &&& *final(nullifier_registry) == (NullifierRegistry {
                    total_nullifiers: (old(nullifier_registry).total_nullifiers + 1) as u64,
                    ..*old(nullifier_registry)
                })
            },
            Some(Err(e)) => {
                &&& verify_proof_outcome(*verifying_key, authority, verification_context) == Err::<(), ZkVerificationError>(e)
                &&& *final(nullifier_registry) == *old(nullifier_registry)
            },
        },
{
    if nullifier_registry.total_nullifiers == u64::MAX {
        match check_proof(verifying_key, authority, &verification_context) {
            Ok(()) => return None,
            Err(e) => return Some(Err(e)),
        }
    }
    Some(verify_proof(
        verifying_key,
        authority,
        subject,
        verification_context,
        nullifier_hash,
        current_time,
        nullifier_bump,
        nullifier_registry,
    ))
}

/// The nullifier registry as it is created: no nullifiers and a zero root.
pub fn initialize_nullifier_registry(authority: Pubkey, bump: u8) -> (r: NullifierRegistry)
    ensures
        r.authority == authority,
        r.total_nullifiers == 0,
        is_zero_word(r.merkle_root),
        r.bump == bump,
{
    NullifierRegistry { authority, total_nullifiers: 0, merkle_root: [0u8; 32], bump }
}

/// The account that registering a universal verifier creates: active, and
/// created at `current_time`.
pub fn register_universal_verifier(
    authority: Pubkey,
    proof_system: ProofSystem,
    circuit_id: String,
    verifying_key: Vec<u8>,
    current_time: i64,
) -> (r: UniversalVerifier)
    ensures
        r == (UniversalVerifier {
            proof_system,
            authority,
            circuit_id,
            verifying_key,
            created_at: current_time,
            is_active: true,
        }),
{
    UniversalVerifier {
        proof_system,
        authority,
        circuit_id,
        verifying_key,
        created_at: current_time,
        is_active: true,
    }
}

/// Issue a credential: refused with `InvalidProofFormat` by an inactive
/// issuer; else the new credential and its event, with the issuer's count of
/// issued credentials raised by one and its last activity set to now.
pub fn issue_credential(
    issuer: &mut TrustedIssuer,
    owner: Pubkey,
    credential_key: Pubkey,
    metadata: CredentialMetadata,
    commitment: [u8; 32],
    credential_bump: u8,
    current_time: i64,
) -> (r: Result<(Credential, CredentialIssued), ZkVerificationError>)
    requires
        old(issuer).is_active ==> old(issuer).total_issued < u64::MAX,
    ensures
        match r {
            Ok((credential, event)) => {
                &&& old(issuer).is_active
                &&& credential == (Credential {
                    owner,
                    metadata,
                    commitment,
                    is_revoked: false,
                    revoked_at: None,
                    bump: credential_bump,
                })
                &&& event == (CredentialIssued {
                    credential: credential_key,
                    owner,
                    level: metadata.level,
                    issuer: old(issuer).pubkey,
                    timestamp: current_time,
                })
                &&& *final(issuer) == (TrustedIssuer {
                    total_issued: (old(issuer).total_issued + 1) as u64,
                    last_activity: current_time,
                    ..*old(issuer)
                })
            },
            Err(e) => {
                &&& !old(issuer).is_active
                &&& e == ZkVerificationError::InvalidProofFormat
                &&& *final(issuer) == *old(issuer)
            },
        },
{
    if !issuer.is_active {
        return Err(ZkVerificationError::InvalidProofFormat);
    }
    let credential = Credential {
        owner,
        metadata,
        commitment,
        is_revoked: false,
        revoked_at: None,
        bump: credential_bump,
    };
    issuer.total_issued = issuer.total_issued + 1;
    issuer.last_activity = current_time;
    let event = CredentialIssued {
        credential: credential_key,
        owner,
        level: metadata.level,
        issuer: issuer.pubkey,
        timestamp: current_time,
    };
    Ok((credential, event))
}

/// Whether `authority` may revoke the credential: only its issuer or its
/// owner may.
pub open spec fn may_revoke(credential: Credential, authority: Pubkey) -> bool {
    authority == credential.metadata.issuer_authority || authority == credential.owner
}

/// Revoke a credential on behalf of its issuer or its owner: refused with
/// `InvalidProofFormat` for anyone else, leaving every record as it was;
/// otherwise the credential is marked revoked at `current_time`, the
/// revocation registry and the issuer each count one more revocation, and the
/// event is returned. The issuer's reputation score is left for the caller to
/// recompute from the new counts.
pub fn revoke_credential(
    credential: &mut Credential,
    revocation_registry: &mut RevocationRegistry,
    issuer: &mut TrustedIssuer,
    credential_key: Pubkey,
    authority: Pubkey,
    reason: String,
    current_time: i64,
) -> (r: Result<CredentialRevoked, ZkVerificationError>)
    requires
        may_revoke(*old(credential), authority) ==> old(revocation_registry).total_revoked < u64::MAX,
        may_revoke(*old(credential), authority) ==> old(issuer).revoked_count < u64::MAX,
    ensures
        match r {
            Ok(event) => {
                &&& may_revoke(*old(credential), authority)
                &&& *final(credential) == (Credential {
                    is_revoked: true,
                    revoked_at: Some(current_time),
                    ..*old(credential)
                })
                &&& *final(revocation_registry) == (RevocationRegistry {
                    total_revoked: (old(revocation_registry).total_revoked + 1) as u64,
                    last_updated: current_time,
                    ..*old(revocation_registry)
                })
                &&& *final(issuer) == (TrustedIssuer {
                    revoked_count: (old(issuer).revoked_count + 1) as u64,
                    ..*old(issuer)
                })
                &&& event == (CredentialRevoked {
                    credential: credential_key,
                    owner: old(credential).owner,
                    revoked_by: authority,
                    timestamp: current_time,
                    reason,
                })
            },
            Err(e) => {
                &&& !may_revoke(*old(credential), authority)
                &&& e == ZkVerificationError::InvalidProofFormat
                &&& *final(credential) == *old(credential)
                &&& *final(revocation_registry) == *old(revocation_registry)
                &&& *final(issuer) == *old(issuer)
            },
        },
{
    if !authority.key_eq(&credential.metadata.issuer_authority) && !authority.key_eq(&credential.owner) {
        return Err(ZkVerificationError::InvalidProofFormat);
    }
    credential.is_revoked = true;
    credential.revoked_at = Some(current_time);
    revocation_registry.total_revoked = revocation_registry.total_revoked + 1;
    revocation_registry.last_updated = current_time;
    issuer.revoked_count = issuer.revoked_count + 1;
    Ok(CredentialRevoked {
        credential: credential_key,
        owner: credential.owner,
        revoked_by: authority,
        timestamp: current_time,
        reason,
    })
}

/// The reputation score of a newly registered issuer.
pub const NEUTRAL_REPUTATION: u32 = 5000;

/// Register an issuer: the new issuer (active, neutral reputation, nothing
/// issued or revoked yet), its stake and the event, with the registry
/// counting one more issuer and one more active issuer.
pub fn register_issuer(
    issuer_registry: &mut IssuerRegistry,
    issuer_authority: Pubkey,
    name: String,
    jurisdiction: [u8; 2],
    credential_types: Vec<String>,
    stake_amount: u64,
    current_time: i64,
    issuer_bump: u8,
    stake_bump: u8,
) -> (r: (TrustedIssuer, IssuerStake, IssuerRegistered))
    requires
        old(issuer_registry).total_issuers < u64::MAX,
        old(issuer_registry).active_issuers < u64::MAX,
    ensures
        r.0 == (TrustedIssuer {
            pubkey: issuer_authority,
            name,
            jurisdiction,
            credential_types,
            reputation_score: NEUTRAL_REPUTATION,
            total_issued: 0,
            revoked_count: 0,
            staked_amount: stake_amount,
            is_active: true,
            registered_at: current_time,
            last_activity: current_time,
            bump: issuer_bump,
        }),
        r.1.issuer == issuer_authority,
        r.1.amount == stake_amount,
        r.1.slashing_rules@ == Seq::<crate::issuer::SlashingRule>::empty(),
        r.1.total_slashed == 0,
        r.1.staked_at == current_time,
        r.1.bump == stake_bump,
        r.2 == (IssuerRegistered {
            issuer: issuer_authority,
            name,
            jurisdiction,
            staked_amount: stake_amount,
            timestamp: current_time,
        }),
        *final(issuer_registry) == (IssuerRegistry {
            total_issuers: (old(issuer_registry).total_issuers + 1) as u64,
            active_issuers: (old(issuer_registry).active_issuers + 1) as u64,
            ..*old(issuer_registry)
        }),
{
    let issuer = TrustedIssuer {
        pubkey: issuer_authority,
        name: name.clone(),
        jurisdiction,
        credential_types,
        reputation_score: NEUTRAL_REPUTATION,
        total_issued: 0,
        revoked_count: 0,
        staked_amount: stake_amount,
        is_active: true,
        registered_at: current_time,
        last_activity: current_time,
        bump: issuer_bump,
    };
    let stake = IssuerStake {
        issuer: issuer.pubkey,
        amount: stake_amount,
        slashing_rules: Vec::new(),
        total_slashed: 0,
        staked_at: current_time,
        bump: stake_bump,
    };
    issuer_registry.total_issuers = issuer_registry.total_issuers + 1;
    issuer_registry.active_issuers = issuer_registry.active_issuers + 1;
    let event = IssuerRegistered {
        issuer: issuer_authority,
        name,
        jurisdiction,
        staked_amount: stake_amount,
        timestamp: current_time,
    };
    (issuer, stake, event)
}

/// Whether a credential may back a disclosure at `current_time`: not revoked,
/// within its validity window, and at least the requested level.
pub open spec fn disclosure_allowed(
    credential: Credential,
    min_credential_level: u8,
    current_time: i64,
) -> bool {
    &&& !credential.is_revoked
    &&& metadata_valid_at(credential.metadata, current_time)
    &&& level_rank(credential.metadata.level) >= min_credential_level
}

/// Perform a selective disclosure: refused with `InvalidProofFormat` unless
/// the credential may back it; else the disclosure record, valid from now
/// until `expires_in` later, and its event.
pub fn selective_disclosure(
    credential: &Credential,
    subject: Pubkey,
    verifier: Pubkey,
    request: SelectiveDisclosureRequest,
    nullifier: [u8; 32],
    expires_in: i64,
    current_time: i64,
) -> (r: Result<(SelectiveDisclosureProof, SelectiveDisclosurePerformed), ZkVerificationError>)
    requires
        disclosure_allowed(*credential, request.min_credential_level, current_time)
            ==> i64::MIN <= current_time + expires_in <= i64::MAX,
    ensures
        match r {
            Ok((proof, event)) => {
                &&& disclosure_allowed(*credential, request.min_credential_level, current_time)
                &&& proof == (SelectiveDisclosureProof {
                    subject,
                    verifier,
                    proven_attributes: request.required_attributes,
                    credential_commitment: credential.commitment,
                    nullifier,
                    timestamp: current_time,
                    expires_at: (current_time + expires_in) as i64,
                    is_valid: true,
                })
                &&& event == (SelectiveDisclosurePerformed {
                    subject,
                    verifier,
                    attribute_count: request.required_attributes@.len() as u8,
                    timestamp: current_time,
                })
            },
            Err(e) => {
                &&& !disclosure_allowed(*credential, request.min_credential_level, current_time)
                &&& e == ZkVerificationError::InvalidProofFormat
            },
        },
{
    if credential.is_revoked {
        return Err(ZkVerificationError::InvalidProofFormat);
    }
    if !credential.metadata.is_valid(current_time) {
        return Err(ZkVerificationError::InvalidProofFormat);
    }
    if credential.metadata.level.level() < request.min_credential_level {
        return Err(ZkVerificationError::InvalidProofFormat);
    }
    let proven_attributes = request.required_attributes;
    let attribute_count = proven_attributes.len() as u8;
    let proof = SelectiveDisclosureProof {
        subject,
        verifier,
        proven_attributes,
        credential_commitment: credential.commitment,
        nullifier,
        timestamp: current_time,
        expires_at: current_time + expires_in,
        is_valid: true,
    };
    let event = SelectiveDisclosurePerformed {
        subject,
        verifier,
        attribute_count,
        timestamp: current_time,
    };
    Ok((proof, event))
}


/// A revoked credential backs no disclosure: after `revoke_credential`,
/// `selective_disclosure` refuses the credential whatever the level asked
/// for and whatever the time.
pub proof fn lemma_revoked_credential_refused(
    before: Credential,
    revoked_at: i64,
    min_credential_level: u8,
    current_time: i64,
)
    ensures
        !disclosure_allowed(
            Credential { is_revoked: true, revoked_at: Some(revoked_at), ..before },
            min_credential_level,
            current_time,
        ),
{
}

/// Registering an issuer keeps the count of active issuers within the count
/// of all issuers.
pub proof fn lemma_register_issuer_keeps_active_within_total(
    before: IssuerRegistry,
    after: IssuerRegistry,
)
    requires
        before.active_issuers <= before.total_issuers,
        after == (IssuerRegistry {
            total_issuers: (before.total_issuers + 1) as u64,
            active_issuers: (before.active_issuers + 1) as u64,
            ..before
        }),
        before.total_issuers < u64::MAX,
    ensures
        after.active_issuers <= after.total_issuers,
{
}


/// The commitment a successful verification records is the first public
/// input whenever any one of its 32 bytes is nonzero, and nothing exactly when
/// all 32 bytes are zero (or there is no input at all).
pub proof fn lemma_commitment_is_first_nonzero_input(inputs: Seq<[u8; 32]>, j: int)
    ensures
        inputs.len() > 0 && 0 <= j < 32 && inputs[0]@[j] != 0
            ==> recorded_commitment(inputs) == Some(inputs[0]),
        inputs.len() > 0 && (forall|k: int| 0 <= k < 32 ==> inputs[0]@[k] == 0)
            ==> recorded_commitment(inputs) == None::<[u8; 32]>,
        inputs.len() == 0 ==> recorded_commitment(inputs) == None::<[u8; 32]>,
        recorded_commitment(inputs) matches Some(c) ==> c == inputs[0]
            && exists|k: int| 0 <= k < 32 && inputs[0]@[k] != 0,
{
    if inputs.len() > 0 && 0 <= j < 32 && inputs[0]@[j] != 0 {
        assert(!is_zero_word(inputs[0]));
    }
    if recorded_commitment(inputs) is Some {
        assert(!is_zero_word(inputs[0]));
        let k = choose|k: int| !(0 <= k < 32 ==> #[trigger] inputs[0]@[k] == 0);
        assert(0 <= k < 32 && inputs[0]@[k] != 0);
    }
}

/// A proof is accepted only for the key's own authority, with between 1 and
/// 32 public inputs, exactly one fewer than the key's `gamma_abc_g1` points,
/// and proof points that all decode; and any proof meeting all of these is
/// accepted. A caller who does not own the key is refused with
/// `InvalidProofFormat` whatever else holds.
pub proof fn lemma_proof_acceptance(
    verifying_key: VerifyingKeyAccount,
    authority: Pubkey,
    verification_context: VerificationContext,
)
    ensures
        verify_proof_outcome(verifying_key, authority, verification_context) is Ok <==> {
            let n = verification_context.public_inputs@.len();
            let p = verification_context.proof;
            &&& verifying_key.authority == authority
            &&& 1 <= n <= 32
            &&& n + 1 == verifying_key.key.gamma_abc_g1@.len()
            &&& crate::groth16::bn254_g1_decompress(p.a@) is Some
            &&& crate::groth16::bn254_g2_decompress(p.b@) is Some
            &&& crate::groth16::bn254_g1_decompress(p.c@) is Some
        },
        verifying_key.authority != authority ==> verify_proof_outcome(
            verifying_key,
            authority,
            verification_context,
        ) == Err::<(), ZkVerificationError>(ZkVerificationError::InvalidProofFormat),
{
}

/// A disclosure goes ahead exactly for a credential that is not revoked, whose
/// window `valid_from ..= valid_until` contains the time, and whose level is
/// at least the one requested, the levels counting 1 (`Basic`), 2
/// (`Standard`), 3 (`Enhanced`) and 4 (`Institutional`). In particular a
/// request for a level above the credential's is refused, whatever that level.
pub proof fn lemma_disclosure_needs_level(credential: Credential, min_credential_level: u8, current_time: i64)
    ensures
        disclosure_allowed(credential, min_credential_level, current_time) <==> {
            &&& !credential.is_revoked
            &&& credential.metadata.valid_from <= current_time
            &&& current_time <= credential.metadata.valid_until
            &&& match credential.metadata.level {
                CredentialLevel::Basic => min_credential_level <= 1,
                CredentialLevel::Standard => min_credential_level <= 2,
                CredentialLevel::Enhanced => min_credential_level <= 3,
                CredentialLevel::Institutional => min_credential_level <= 4,
            }
        },
{
}

/// Only the credential's issuer or its owner may revoke it.
pub proof fn lemma_revocation_by_issuer_or_owner(credential: Credential, authority: Pubkey)
    ensures
        may_revoke(credential, authority) <==> (authority == credential.metadata.issuer_authority
            || authority == credential.owner),
{
}


/// A word counts as zero exactly when every one of its 32 bytes is zero (so a
/// fresh nullifier registry's root is zero in every byte).
pub proof fn lemma_zero_word_is_every_byte(w: [u8; 32], j: int)
    ensures
        is_zero_word(w) && 0 <= j < 32 ==> w@[j] == 0,
        0 <= j < 32 && w@[j] != 0 ==> !is_zero_word(w),
{
}

} // verus!
