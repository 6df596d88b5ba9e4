use zk_verification::errors::ZkVerificationError;
use zk_verification::public_inputs::patterns::{
    AccreditedInvestorVerification, AgeVerification, CreditScoreVerification, KycVerification,
};
use zk_verification::public_inputs::{PublicInputsHandler, ToPublicInputs, MAX_PUBLIC_INPUTS};

#[test]
fn test_public_inputs_handler() {
    let inputs = vec![[1u8; 32], [2u8; 32], [3u8; 32]];
    let handler = PublicInputsHandler::new(inputs.clone()).unwrap();

    assert_eq!(handler.len(), 3);
    assert!(!handler.is_empty());
    assert_eq!(handler.get(0), Some(&[1u8; 32]));
}

#[test]
fn test_validate_count() {
    let inputs = vec![[1u8; 32], [2u8; 32]];
    let handler = PublicInputsHandler::new(inputs).unwrap();

    assert!(handler.validate_count(2).is_ok());
    assert!(handler.validate_count(3).is_err());
}

#[test]
fn test_age_verification_pattern() {
    let age_proof = AgeVerification {
        age_commitment: [1u8; 32],
        minimum_age: 21,
        current_timestamp: 1234567890,
    };

    let inputs = age_proof.to_public_inputs();
    assert_eq!(inputs.len(), 3);
    assert_eq!(inputs[0], [1u8; 32]);
    assert_eq!(inputs[1][0], 21);
}

#[test]
fn test_kyc_verification_pattern() {
    let kyc_proof = KycVerification {
        identity_commitment: [1u8; 32],
        country_code_hash: [2u8; 32],
        sanctions_list_hash: [3u8; 32],
    };

    let inputs = kyc_proof.to_public_inputs();
    assert_eq!(inputs.len(), 3);
}

fn le_word(bytes: &[u8]) -> [u8; 32] {
    let mut w = [0u8; 32];
    w[..bytes.len()].copy_from_slice(bytes);
    w
}

fn word_value(w: &[u8; 32]) -> u128 {
    let mut v: u128 = 0;
    for i in (0..16).rev() {
        v = v * 256 + w[i] as u128;
    }
    v
}

#[test]
fn handler_rejects_empty_and_oversized_inputs() {
    assert_eq!(
        PublicInputsHandler::new(vec![]).err(),
        Some(ZkVerificationError::InvalidPublicInputsLength)
    );
    assert_eq!(
        PublicInputsHandler::new(vec![[0u8; 32]; MAX_PUBLIC_INPUTS + 1]).err(),
        Some(ZkVerificationError::InvalidPublicInputsLength)
    );
    let full = PublicInputsHandler::new(vec![[9u8; 32]; MAX_PUBLIC_INPUTS]).unwrap();
    assert_eq!(full.len(), 32);
    let single = PublicInputsHandler::new(vec![[9u8; 32]]).unwrap();
    assert_eq!(single.len(), 1);
}

#[test]
fn handler_accessors() {
    let handler = PublicInputsHandler::new(vec![[1u8; 32], [0u8; 32]]).unwrap();
    assert_eq!(handler.get(1), Some(&[0u8; 32]));
    assert_eq!(handler.get(2), None);
    assert_eq!(handler.as_slice(), &[[1u8; 32], [0u8; 32]][..]);
    assert_eq!(handler.extract_commitment(), Some([1u8; 32]));
    assert!(!handler.all_zero());
    let zeros = PublicInputsHandler::new(vec![[0u8; 32], [0u8; 32]]).unwrap();
    assert!(zeros.all_zero());
    let mut last = [0u8; 32];
    last[31] = 1;
    let almost = PublicInputsHandler::new(vec![[0u8; 32], last]).unwrap();
    assert!(!almost.all_zero());
}

#[test]
fn validate_against_vk_expects_one_fewer_than_key_points() {
    let handler = PublicInputsHandler::new(vec![[1u8; 32], [2u8; 32]]).unwrap();
    assert_eq!(handler.validate_against_vk(3), Ok(()));
    assert_eq!(
        handler.validate_against_vk(2),
        Err(ZkVerificationError::InvalidPublicInputsLength)
    );
    assert_eq!(
        handler.validate_against_vk(0),
        Err(ZkVerificationError::InvalidPublicInputsLength)
    );
    let single = PublicInputsHandler::new(vec![[1u8; 32]]).unwrap();
    assert_eq!(single.validate_against_vk(2), Ok(()));
    assert_eq!(
        single.validate_against_vk(1),
        Err(ZkVerificationError::InvalidPublicInputsLength)
    );
}

#[test]
fn to_fixed_array_round_trips() {
    let handler = PublicInputsHandler::new(vec![[1u8; 32], [2u8; 32], [3u8; 32]]).unwrap();
    let a: [[u8; 32]; 3] = handler.to_fixed_array::<3>().unwrap();
    assert_eq!(a, [[1u8; 32], [2u8; 32], [3u8; 32]]);
    assert_eq!(
        handler.to_fixed_array::<2>().err(),
        Some(ZkVerificationError::InvalidPublicInputsLength)
    );
    assert_eq!(
        handler.to_fixed_array::<4>().err(),
        Some(ZkVerificationError::InvalidPublicInputsLength)
    );
}

#[test]
fn age_pattern_encodes_timestamp_little_endian() {
    let age = AgeVerification {
        age_commitment: [7u8; 32],
        minimum_age: 21,
        current_timestamp: 1234567890,
    };
    let inputs = age.to_public_inputs();
    assert_eq!(inputs[1], le_word(&[21]));
    assert_eq!(inputs[2], le_word(&1234567890i64.to_le_bytes()));
    assert_eq!(word_value(&inputs[2]), 1234567890);

    let negative = AgeVerification {
        age_commitment: [0u8; 32],
        minimum_age: 0,
        current_timestamp: -1,
    };
    let inputs = negative.to_public_inputs();
    assert_eq!(inputs[2], le_word(&[0xff; 8]));
}

#[test]
fn investor_and_credit_patterns_encode_thresholds() {
    let investor = AccreditedInvestorVerification {
        investor_commitment: [5u8; 32],
        net_worth_threshold: 1_000_000,
        income_threshold: u64::MAX,
    };
    let inputs = investor.to_public_inputs();
    assert_eq!(inputs.len(), 3);
    assert_eq!(inputs[0], [5u8; 32]);
    assert_eq!(inputs[1], le_word(&1_000_000u64.to_le_bytes()));
    assert_eq!(word_value(&inputs[1]), 1_000_000);
    assert_eq!(inputs[2], le_word(&[0xff; 8]));
    assert_eq!(word_value(&inputs[2]), u64::MAX as u128);

    let credit = CreditScoreVerification {
        credit_commitment: [6u8; 32],
        minimum_score: 700,
        verification_timestamp: 1_700_000_000,
    };
    let inputs = credit.to_public_inputs();
    assert_eq!(inputs.len(), 3);
    assert_eq!(inputs[0], [6u8; 32]);
    assert_eq!(inputs[1], le_word(&700u16.to_le_bytes()));
    assert_eq!(word_value(&inputs[1]), 700);
    assert_eq!(inputs[2], le_word(&1_700_000_000i64.to_le_bytes()));
}

#[test]
fn kyc_pattern_keeps_order() {
    let kyc = KycVerification {
        identity_commitment: [1u8; 32],
        country_code_hash: [2u8; 32],
        sanctions_list_hash: [3u8; 32],
    };
    assert_eq!(kyc.to_public_inputs(), vec![[1u8; 32], [2u8; 32], [3u8; 32]]);
}
