use ark_bn254::{Fr, G1Affine, G2Affine};
use ark_ec::{AffineRepr, CurveGroup};
use ark_serialize::CanonicalSerialize;
use zk_verification::credentials::{
    Credential, CredentialLevel, CredentialMetadata, RevocationRegistry,
};
use zk_verification::errors::ZkVerificationError;
use zk_verification::issuer::{IssuerRegistry, TrustedIssuer};
use zk_verification::nullifier::NullifierRegistry;
use zk_verification::proof_systems::ProofSystem;
use zk_verification::proof_types::{
    CompressedProof, Groth16VerifyingKey, VerificationContext, VerifyingKeyAccount,
};
use zk_verification::pubkey::Pubkey;
use zk_verification::selective_disclosure::{
    AgeRange, AttributeType, SelectiveDisclosureProof, SelectiveDisclosureRequest,
};
use zk_verification::zk_verification::{
    initialize_nullifier_registry, issue_credential, register_issuer,
    register_universal_verifier, register_verifying_key, revoke_credential,
    selective_disclosure, verify_proof, check_proof, try_verify_proof, NEUTRAL_REPUTATION,
};

fn key(b: u8) -> Pubkey {
    Pubkey::new_from_array([b; 32])
}

fn compressed<P: CanonicalSerialize>(p: P) -> Vec<u8> {
    let mut c = Vec::new();
    p.serialize_compressed(&mut c).unwrap();
    c
}

fn valid_proof() -> CompressedProof {
    let g1 = G1Affine::generator();
    let g2 = G2Affine::generator();
    let a = compressed((g1 * Fr::from(2u64)).into_affine());
    let b = compressed((g2 * Fr::from(3u64)).into_affine());
    CompressedProof {
        a: a.clone().try_into().unwrap(),
        b: b.try_into().unwrap(),
        c: a.try_into().unwrap(),
    }
}

fn vk_account(authority: Pubkey) -> VerifyingKeyAccount {
    register_verifying_key(
        authority,
        "kyc".to_string(),
        Groth16VerifyingKey {
            alpha_g1: [1; 32],
            beta_g2: [1; 64],
            gamma_g2: [1; 64],
            delta_g2: [1; 64],
            gamma_abc_g1: vec![[1; 32], [1; 32], [1; 32]],
        },
    )
}

fn context(inputs: Vec<[u8; 32]>, proof: CompressedProof) -> VerificationContext {
    VerificationContext { verification_type: "kyc".to_string(), public_inputs: inputs, proof }
}

#[test]
fn verify_proof_records_nullifier_and_result() {
    let authority = key(1);
    let subject = key(2);
    let vk = vk_account(authority);
    let mut registry = initialize_nullifier_registry(authority, 254);
    assert_eq!(registry.total_nullifiers, 0);
    assert_eq!(registry.merkle_root, [0u8; 32]);

    let ctx = context(vec![[7u8; 32], [8u8; 32]], valid_proof());
    let (nullifier, result, event) =
        verify_proof(&vk, authority, subject, ctx, [9u8; 32], 1000, 3, &mut registry).unwrap();
    assert_eq!(registry.total_nullifiers, 1);
    assert_eq!(nullifier.nullifier_hash, [9u8; 32]);
    assert_eq!(nullifier.used_at, 1000);
    assert_eq!(nullifier.verification_type, "kyc");
    assert_eq!(nullifier.subject, subject);
    assert_eq!(nullifier.bump, 3);
    assert_eq!(result.subject, subject);
    assert_eq!(result.verifier, authority);
    assert!(result.is_valid);
    assert_eq!(result.timestamp, 1000);
    assert_eq!(result.commitment, Some([7u8; 32]));
    assert_eq!(result.expiration, None);
    assert_eq!(event.nullifier_hash, [9u8; 32]);
    assert_eq!(event.timestamp, 1000);

    // A zero first input is not recorded as a commitment.
    let ctx = context(vec![[0u8; 32], [8u8; 32]], valid_proof());
    let (_, result, _) =
        verify_proof(&vk, authority, subject, ctx, [10u8; 32], 1001, 3, &mut registry).unwrap();
    assert_eq!(result.commitment, None);
    assert_eq!(registry.total_nullifiers, 2);
}

#[test]
fn verify_proof_refusals_leave_registry_alone() {
    let authority = key(1);
    let vk = vk_account(authority);
    let mut registry = initialize_nullifier_registry(authority, 254);

    let wrong_authority =
        verify_proof(&vk, key(5), key(2), context(vec![[1; 32], [1; 32]], valid_proof()), [0; 32], 1, 0, &mut registry);
    assert_eq!(wrong_authority.err(), Some(ZkVerificationError::InvalidProofFormat));

    let empty = verify_proof(&vk, authority, key(2), context(vec![], valid_proof()), [0; 32], 1, 0, &mut registry);
    assert_eq!(empty.err(), Some(ZkVerificationError::InvalidPublicInputsLength));

    let too_many =
        verify_proof(&vk, authority, key(2), context(vec![[1; 32]; 33], valid_proof()), [0; 32], 1, 0, &mut registry);
    assert_eq!(too_many.err(), Some(ZkVerificationError::InvalidPublicInputsLength));

    let mismatch =
        verify_proof(&vk, authority, key(2), context(vec![[1; 32]; 3], valid_proof()), [0; 32], 1, 0, &mut registry);
    assert_eq!(mismatch.err(), Some(ZkVerificationError::InvalidPublicInputsLength));

    let bad_points = verify_proof(
        &vk,
        authority,
        key(2),
        context(vec![[1; 32]; 2], CompressedProof { a: [0xff; 32], b: [0xff; 64], c: [0xff; 32] }),
        [0; 32],
        1,
        0,
        &mut registry,
    );
    assert_eq!(bad_points.err(), Some(ZkVerificationError::DecompressG1Failed));
    assert_eq!(registry.total_nullifiers, 0);
}

fn metadata(level: CredentialLevel) -> CredentialMetadata {
    CredentialMetadata {
        level,
        issuer_authority: key(3),
        valid_from: 100,
        valid_until: 200,
        revocation_registry: key(4),
        jurisdiction: *b"US",
    }
}

fn new_issuer() -> (IssuerRegistry, TrustedIssuer) {
    let mut registry = IssuerRegistry {
        authority: key(1),
        total_issuers: 4,
        active_issuers: 3,
        min_stake_amount: 10,
        bump: 1,
    };
    let (issuer, stake, event) = register_issuer(
        &mut registry,
        key(3),
        "Acme KYC".to_string(),
        *b"US",
        vec!["kyc".to_string(), "aml".to_string()],
        500,
        50,
        7,
        8,
    );
    assert_eq!(stake.issuer, key(3));
    assert_eq!(stake.amount, 500);
    assert!(stake.slashing_rules.is_empty());
    assert_eq!(stake.total_slashed, 0);
    assert_eq!(stake.staked_at, 50);
    assert_eq!(stake.bump, 8);
    assert_eq!(event.name, "Acme KYC");
    assert_eq!(event.staked_amount, 500);
    (registry, issuer)
}

#[test]
fn register_issuer_starts_neutral_and_counts() {
    let (registry, issuer) = new_issuer();
    assert_eq!(registry.total_issuers, 5);
    assert_eq!(registry.active_issuers, 4);
    assert!(registry.active_issuers <= registry.total_issuers);
    assert_eq!(issuer.reputation_score, NEUTRAL_REPUTATION);
    assert_eq!(issuer.reputation_score, 5000);
    assert!(issuer.is_active);
    assert_eq!(issuer.total_issued, 0);
    assert_eq!(issuer.revoked_count, 0);
    assert_eq!(issuer.registered_at, 50);
    assert_eq!(issuer.last_activity, 50);
    assert_eq!(issuer.name, "Acme KYC");
}

#[test]
fn can_issue_needs_active_issuer_and_listed_type() {
    let (_, mut issuer) = new_issuer();
    assert!(issuer.can_issue("kyc"));
    assert!(issuer.can_issue("aml"));
    assert!(!issuer.can_issue("ky"));
    assert!(!issuer.can_issue("accredited"));
    issuer.is_active = false;
    assert!(!issuer.can_issue("kyc"));
}

#[test]
fn issue_and_revoke_credential() {
    let (_, mut issuer) = new_issuer();
    let (mut credential, event) = issue_credential(
        &mut issuer,
        key(9),
        key(10),
        metadata(CredentialLevel::Enhanced),
        [5u8; 32],
        11,
        150,
    )
    .unwrap();
    assert_eq!(issuer.total_issued, 1);
    assert_eq!(issuer.last_activity, 150);
    assert_eq!(credential.owner, key(9));
    assert!(!credential.is_revoked);
    assert_eq!(credential.revoked_at, None);
    assert_eq!(credential.bump, 11);
    assert_eq!(event.credential, key(10));
    assert_eq!(event.level, CredentialLevel::Enhanced);
    assert_eq!(event.issuer, key(3));

    let mut revocations = RevocationRegistry {
        authority: key(3),
        revocation_root: [0; 32],
        total_revoked: 0,
        last_updated: 0,
        bump: 2,
    };
    // Neither the issuer nor the owner: refused, nothing changes.
    let before = (credential, revocations, issuer.clone());
    let stranger = revoke_credential(
        &mut credential,
        &mut revocations,
        &mut issuer,
        key(10),
        key(1),
        "fraud".to_string(),
        160,
    );
    assert_eq!(stranger.err(), Some(ZkVerificationError::InvalidProofFormat));
    assert!(!credential.is_revoked);
    assert_eq!(credential.revoked_at, before.0.revoked_at);
    assert_eq!(revocations.total_revoked, before.1.total_revoked);
    assert_eq!(revocations.last_updated, before.1.last_updated);
    assert_eq!(issuer.revoked_count, before.2.revoked_count);

    // The issuer (key 3) may revoke.
    let revoked = revoke_credential(
        &mut credential,
        &mut revocations,
        &mut issuer,
        key(10),
        key(3),
        "fraud".to_string(),
        170,
    )
    .unwrap();
    assert!(credential.is_revoked);
    assert_eq!(credential.revoked_at, Some(170));
    assert_eq!(revocations.total_revoked, 1);
    assert_eq!(revocations.last_updated, 170);
    assert_eq!(issuer.revoked_count, 1);
    assert_eq!(revoked.owner, key(9));
    assert_eq!(revoked.revoked_by, key(3));
    assert_eq!(revoked.reason, "fraud");

    // A revoked credential backs no disclosure.
    let refused = selective_disclosure(&credential, key(9), key(20), request(1), [0; 32], 10, 150);
    assert_eq!(refused.err(), Some(ZkVerificationError::InvalidProofFormat));
}

#[test]
fn owner_may_revoke_own_credential() {
    let (_, mut issuer) = new_issuer();
    let mut c = credential(CredentialLevel::Basic);
    let mut revocations = RevocationRegistry {
        authority: key(3),
        revocation_root: [0; 32],
        total_revoked: 4,
        last_updated: 0,
        bump: 2,
    };
    let event = revoke_credential(&mut c, &mut revocations, &mut issuer, key(10), key(9), "lost".to_string(), 90)
        .unwrap();
    assert!(c.is_revoked);
    assert_eq!(c.revoked_at, Some(90));
    assert_eq!(revocations.total_revoked, 5);
    assert_eq!(issuer.revoked_count, 1);
    assert_eq!(event.revoked_by, key(9));
}

#[test]
fn inactive_issuer_cannot_issue() {
    let (_, mut issuer) = new_issuer();
    issuer.is_active = false;
    let before_issued = issuer.total_issued;
    let r = issue_credential(&mut issuer, key(9), key(10), metadata(CredentialLevel::Basic), [0; 32], 1, 150);
    assert_eq!(r.err(), Some(ZkVerificationError::InvalidProofFormat));
    assert_eq!(issuer.total_issued, before_issued);
}

fn request(min_level: u8) -> SelectiveDisclosureRequest {
    SelectiveDisclosureRequest {
        required_attributes: vec![AttributeType::Age(AgeRange::Over21), AttributeType::NotSanctioned],
        optional_attributes: vec![AttributeType::Custom("employer".to_string())],
        jurisdiction: *b"US",
        min_credential_level: min_level,
    }
}

fn credential(level: CredentialLevel) -> Credential {
    Credential {
        owner: key(9),
        metadata: metadata(level),
        commitment: [5u8; 32],
        is_revoked: false,
        revoked_at: None,
        bump: 1,
    }
}

#[test]
fn selective_disclosure_records_and_expires() {
    let c = credential(CredentialLevel::Standard);
    let (proof, event) = selective_disclosure(&c, key(9), key(20), request(2), [4u8; 32], 30, 150).unwrap();
    assert_eq!(proof.subject, key(9));
    assert_eq!(proof.verifier, key(20));
    assert_eq!(proof.proven_attributes.len(), 2);
    assert_eq!(proof.credential_commitment, [5u8; 32]);
    assert_eq!(proof.nullifier, [4u8; 32]);
    assert_eq!(proof.timestamp, 150);
    assert_eq!(proof.expires_at, 180);
    assert!(proof.is_valid);
    assert_eq!(event.attribute_count, 2);
    assert!(proof.check_validity(150));
    assert!(proof.check_validity(179));
    assert!(!proof.check_validity(180));
    assert!(!proof.check_validity(500));

    let (instant, _) = selective_disclosure(&c, key(9), key(20), request(2), [4u8; 32], 0, 150).unwrap();
    assert!(!instant.check_validity(150));
}

#[test]
fn selective_disclosure_refusals() {
    let c = credential(CredentialLevel::Standard);
    let too_high = selective_disclosure(&c, key(9), key(20), request(3), [0; 32], 30, 150);
    assert_eq!(too_high.err(), Some(ZkVerificationError::InvalidProofFormat));
    let early = selective_disclosure(&c, key(9), key(20), request(1), [0; 32], 30, 99);
    assert_eq!(early.err(), Some(ZkVerificationError::InvalidProofFormat));
    let late = selective_disclosure(&c, key(9), key(20), request(1), [0; 32], 30, 201);
    assert_eq!(late.err(), Some(ZkVerificationError::InvalidProofFormat));
    assert!(selective_disclosure(&c, key(9), key(20), request(1), [0; 32], 30, 100).is_ok());
    assert!(selective_disclosure(&c, key(9), key(20), request(1), [0; 32], 30, 200).is_ok());
}

#[test]
fn metadata_window_is_inclusive() {
    let m = metadata(CredentialLevel::Basic);
    assert!(!m.is_valid(99));
    assert!(m.is_valid(100));
    assert!(m.is_valid(150));
    assert!(m.is_valid(200));
    assert!(!m.is_valid(201));
}

#[test]
fn levels_rank_and_order() {
    let levels = [
        CredentialLevel::Basic,
        CredentialLevel::Standard,
        CredentialLevel::Enhanced,
        CredentialLevel::Institutional,
    ];
    for (i, a) in levels.iter().enumerate() {
        assert_eq!(a.level() as usize, i + 1);
        for (j, b) in levels.iter().enumerate() {
            assert_eq!(a.meets_requirement(b), i >= j);
        }
    }
}

#[test]
fn disclosure_validity_checks_flag_and_expiry() {
    let p = SelectiveDisclosureProof {
        subject: key(1),
        verifier: key(2),
        proven_attributes: vec![],
        credential_commitment: [0; 32],
        nullifier: [0; 32],
        timestamp: 0,
        expires_at: 10,
        is_valid: false,
    };
    assert!(!p.check_validity(5));
}

#[test]
fn proof_system_capabilities() {
    let g = ProofSystem::Groth16.capabilities();
    assert!(g.requires_trusted_setup && !g.supports_recursion);
    assert_eq!((g.avg_proof_size, g.avg_verification_cu), (192, 50_000));
    let p = ProofSystem::Plonk.capabilities();
    assert!(p.requires_trusted_setup && p.supports_recursion);
    assert_eq!((p.avg_proof_size, p.avg_verification_cu), (512, 100_000));
    let s = ProofSystem::Stark.capabilities();
    assert!(!s.requires_trusted_setup && s.supports_recursion);
    assert_eq!((s.avg_proof_size, s.avg_verification_cu), (2048, 200_000));
    let h = ProofSystem::Halo2.capabilities();
    assert!(!h.requires_trusted_setup && h.supports_recursion);
    assert_eq!((h.avg_proof_size, h.avg_verification_cu), (768, 150_000));
}

#[test]
fn universal_verifier_registration() {
    let v = register_universal_verifier(key(1), ProofSystem::Halo2, "age".to_string(), vec![1, 2, 3], 77);
    assert_eq!(v.proof_system, ProofSystem::Halo2);
    assert_eq!(v.authority, key(1));
    assert_eq!(v.circuit_id, "age");
    assert_eq!(v.verifying_key, vec![1, 2, 3]);
    assert_eq!(v.created_at, 77);
    assert!(v.is_active);
}

#[test]
fn pubkey_equality() {
    assert!(key(1).key_eq(&key(1)));
    assert!(!key(1).key_eq(&key(2)));
    let mut b = [1u8; 32];
    b[31] = 2;
    assert!(!key(1).key_eq(&Pubkey::new_from_array(b)));
}

#[test]
fn full_nullifier_registry() {
    let authority = key(1);
    let vk = vk_account(authority);
    let mut registry = initialize_nullifier_registry(authority, 254);
    registry.total_nullifiers = u64::MAX;

    assert_eq!(check_proof(&vk, authority, &context(vec![[7u8; 32], [8u8; 32]], valid_proof())), Ok(()));
    let accepted = try_verify_proof(
        &vk, authority, key(2), context(vec![[7u8; 32], [8u8; 32]], valid_proof()), [9u8; 32], 1, 3, &mut registry,
    );
    assert!(accepted.is_none());
    assert_eq!(registry.total_nullifiers, u64::MAX);

    // A refused proof is still answered with its error.
    let refused = try_verify_proof(
        &vk, authority, key(2), context(vec![[7u8; 32]], valid_proof()), [9u8; 32], 1, 3, &mut registry,
    );
    assert_eq!(refused.unwrap().err(), Some(ZkVerificationError::InvalidPublicInputsLength));
    assert_eq!(
        check_proof(&vk, key(4), &context(vec![[7u8; 32], [8u8; 32]], valid_proof())),
        Err(ZkVerificationError::InvalidProofFormat)
    );

    // With room left, it is verify_proof.
    registry.total_nullifiers = 7;
    let done = try_verify_proof(
        &vk, authority, key(2), context(vec![[7u8; 32], [8u8; 32]], valid_proof()), [9u8; 32], 1, 3, &mut registry,
    );
    assert!(done.unwrap().is_ok());
    assert_eq!(registry.total_nullifiers, 8);
}
