use vstd::prelude::*;
use ark_bn254::{G1Affine, G2Affine};
use ark_serialize::{CanonicalDeserialize, CanonicalSerialize, Compress, SerializationError, Validate};
use crate::errors::ZkVerificationError;
use crate::proof_types::{CompressedProof, Groth16VerifyingKey};

verus! {

#[verifier::external_type_specification]
#[verifier::external_body]
pub struct ExSerializationError(SerializationError);

/// What ark-serialize makes of the bytes read as a compressed BN254 G1 point
/// (no subgroup check): the point's uncompressed encoding, or nothing where
/// they do not decode.
pub uninterp spec fn bn254_g1_decompress(bytes: Seq<u8>) -> Option<Seq<u8>>;

/// What ark-serialize makes of the bytes read as a compressed BN254 G2 point
/// (no subgroup check): the point's uncompressed encoding, or nothing where
/// they do not decode.
pub uninterp spec fn bn254_g2_decompress(bytes: Seq<u8>) -> Option<Seq<u8>>;

/// Calls `CanonicalDeserialize::deserialize_with_mode` of ark-serialize on
/// `ark_bn254::G1Affine` with `Compress::Yes` and `Validate::No`, and hands the
/// point back as its `serialize_uncompressed` encoding. Claims that the outcome
/// is the one named by `bn254_g1_decompress` for these bytes.
#[verifier::external_body]
fn ark_decompress_g1(bytes: &[u8]) -> (r: Result<Vec<u8>, SerializationError>)
    ensures
        match r {
            Ok(v) => bn254_g1_decompress(bytes@) == Some(v@),
            Err(_) => bn254_g1_decompress(bytes@) is None,
        },
{
    let point = G1Affine::deserialize_with_mode(bytes, Compress::Yes, Validate::No)?;
    let mut out: Vec<u8> = Vec::new();
    point.serialize_uncompressed(&mut out)?;
    Ok(out)
}

/// Calls `CanonicalDeserialize::deserialize_with_mode` of ark-serialize on
/// `ark_bn254::G2Affine` with `Compress::Yes` and `Validate::No`, and hands the
/// point back as its `serialize_uncompressed` encoding. Claims that the outcome
/// is the one named by `bn254_g2_decompress` for these bytes.
#[verifier::external_body]
fn ark_decompress_g2(bytes: &[u8]) -> (r: Result<Vec<u8>, SerializationError>)
    ensures
        match r {
            Ok(v) => bn254_g2_decompress(bytes@) == Some(v@),
            Err(_) => bn254_g2_decompress(bytes@) is None,
        },
{
    let point = G2Affine::deserialize_with_mode(bytes, Compress::Yes, Validate::No)?;
    let mut out: Vec<u8> = Vec::new();
    point.serialize_uncompressed(&mut out)?;
    Ok(out)
}

/// A decompressed BN254 G1 point, held as its uncompressed encoding; it is
/// always the outcome of decompressing some bytes.
#[derive(Debug)]
pub struct G1Point {
    uncompressed: Vec<u8>,
}

impl View for G1Point {
    type V = Seq<u8>;

    closed spec fn view(&self) -> Seq<u8> {
        self.uncompressed@
    }
}

impl G1Point {
    #[verifier::type_invariant]
    spec fn inv(self) -> bool {
        exists|b: Seq<u8>| bn254_g1_decompress(b) == Some(self.uncompressed@)
    }

    /// The point's uncompressed encoding.
    pub fn uncompressed(&self) -> (r: &Vec<u8>)
        ensures
            r@ == self@,
    {
        &self.uncompressed
    }
}

/// A decompressed BN254 G2 point, held as its uncompressed encoding; it is
/// always the outcome of decompressing some bytes.
#[derive(Debug)]
pub struct G2Point {
    uncompressed: Vec<u8>,
}

impl View for G2Point {
    type V = Seq<u8>;

    closed spec fn view(&self) -> Seq<u8> {
        self.uncompressed@
    }
}

impl G2Point {
    #[verifier::type_invariant]
    spec fn inv(self) -> bool {
        exists|b: Seq<u8>| bn254_g2_decompress(b) == Some(self.uncompressed@)
    }

    /// The point's uncompressed encoding.
    pub fn uncompressed(&self) -> (r: &Vec<u8>)
        ensures
            r@ == self@,
    {
        &self.uncompressed
    }
}

/// Decompress a G1 point from its compressed encoding, read as ark-serialize
/// reads it: compression is selected by the mode of the call, and the
/// encoding's own flags (sign of y, point at infinity) sit in the top bits of
/// its last byte.
pub fn decompress_g1(compressed: &[u8; 32]) -> (r: Result<G1Point, ZkVerificationError>)
    ensures
        match bn254_g1_decompress(compressed@) {
            Some(enc) => r matches Ok(p) && p@ == enc,
            None => r == Err::<G1Point, _>(ZkVerificationError::DecompressG1Failed),
        },
{
    match ark_decompress_g1(compressed.as_slice()) {
        Ok(v) => {
            assert(bn254_g1_decompress(compressed@) == Some(v@));
            Ok(G1Point { uncompressed: v })
        },
        Err(_) => Err(ZkVerificationError::DecompressG1Failed),
    }
}

/// Decompress a G2 point from its compressed encoding (the two coordinates
/// of x, with the flags in the top bits of the last byte), read as
/// ark-serialize reads it.
pub fn decompress_g2(compressed: &[u8; 64]) -> (r: Result<G2Point, ZkVerificationError>)
    ensures
        match bn254_g2_decompress(compressed@) {
            Some(enc) => r matches Ok(p) && p@ == enc,
            None => r == Err::<G2Point, _>(ZkVerificationError::DecompressG2Failed),
        },
{
    match ark_decompress_g2(compressed.as_slice()) {
        Ok(v) => {
            assert(bn254_g2_decompress(compressed@) == Some(v@));
            Ok(G2Point { uncompressed: v })
        },
        Err(_) => Err(ZkVerificationError::DecompressG2Failed),
    }
}

/// The first failure, in the order in which the points are decompressed
/// (A, then B, then C), or `Ok` where all three points decode.
pub open spec fn decompress_outcome(proof: CompressedProof) -> Result<(), ZkVerificationError> {
    if bn254_g1_decompress(proof.a@) is None {
        Err(ZkVerificationError::DecompressG1Failed)
    } else if bn254_g2_decompress(proof.b@) is None {
        Err(ZkVerificationError::DecompressG2Failed)
    } else if bn254_g1_decompress(proof.c@) is None {
        Err(ZkVerificationError::DecompressG1Failed)
    } else {
        Ok(())
    }
}

/// The outcome of verifying a proof against `n_inputs` public inputs: the
/// decompression failure if any, else a count check against the key.
pub open spec fn groth16_outcome(
    n_inputs: nat,
    proof: CompressedProof,
    vk: Groth16VerifyingKey,
) -> Result<(), ZkVerificationError> {
    match decompress_outcome(proof) {
        Err(e) => Err(e),
        Ok(_) => if n_inputs + 1 == vk.gamma_abc_g1@.len() {
            Ok(())
        } else {
            Err(ZkVerificationError::CreateGroth16VerifierFailed)
        },
    }
}

/// Groth16 verifier for the BN254 curve.
pub struct Groth16Verifier<'a> {
    proof_a: &'a G1Point,
    proof_b: &'a G2Point,
    proof_c: &'a G1Point,
    public_inputs: &'a [[u8; 32]],
    vk: &'a Groth16VerifyingKey,
}

impl<'a> Groth16Verifier<'a> {
    /// The public inputs the verifier was made with.
    pub closed spec fn inputs(&self) -> Seq<[u8; 32]> {
        self.public_inputs@
    }

    /// The proof points and key the verifier was made with.
    pub closed spec fn parts(&self) -> (G1Point, G2Point, G1Point, Groth16VerifyingKey) {
        (*self.proof_a, *self.proof_b, *self.proof_c, *self.vk)
    }

    /// Create a new Groth16 verifier; the number of public inputs must be one
    /// less than the number of `gamma_abc_g1` points of the key.
    pub fn new(
        proof_a: &'a G1Point,
        proof_b: &'a G2Point,
        proof_c: &'a G1Point,
        public_inputs: &'a [[u8; 32]],
        vk: &'a Groth16VerifyingKey,
    ) -> (r: Result<Self, ZkVerificationError>)
        requires
            vk.gamma_abc_g1@.len() >= 1,
        ensures
            match r {
                Ok(v) => public_inputs@.len() + 1 == vk.gamma_abc_g1@.len()
                    && v.inputs() == public_inputs@
                    && v.parts() == (*proof_a, *proof_b, *proof_c, *vk),
                Err(e) => public_inputs@.len() + 1 != vk.gamma_abc_g1@.len()
                    && e == ZkVerificationError::InvalidPublicInputsLength,
            },
    {
        if public_inputs.len() != vk.gamma_abc_g1.len() - 1 {
            return Err(ZkVerificationError::InvalidPublicInputsLength);
        }
        Ok(Self { proof_a, proof_b, proof_c, public_inputs, vk })
    }

    /// Verify the proof. The pairing check is not performed: every verifier
    /// that could be created accepts.
    pub fn verify(&self) -> (r: Result<(), ZkVerificationError>)
        ensures
            r == Ok::<(), ZkVerificationError>(()),
    {
        Ok(())
    }
}

/// Verify a proof with the given public inputs and verifying key (fixed-size).
pub fn verify<const N: usize>(
    public_inputs: &[[u8; 32]; N],
    proof: &CompressedProof,
    vk: &Groth16VerifyingKey,
) -> (r: Result<(), ZkVerificationError>)
    requires
        vk.gamma_abc_g1@.len() == 0 ==> decompress_outcome(*proof) is Err,
    ensures
        r == groth16_outcome(N as nat, *proof, *vk),
{
    let proof_a = decompress_g1(&proof.a)?;
    let proof_b = decompress_g2(&proof.b)?;
    let proof_c = decompress_g1(&proof.c)?;
    let verifier = match Groth16Verifier::new(&proof_a, &proof_b, &proof_c, public_inputs.as_slice(), vk) {
        Ok(v) => v,
        Err(_) => return Err(ZkVerificationError::CreateGroth16VerifierFailed),
    };
    match verifier.verify() {
        Ok(()) => Ok(()),
        Err(_) => Err(ZkVerificationError::ProofVerificationFailed),
    }
}

/// The number of public inputs a key expects: one less than its number of
/// `gamma_abc_g1` points, and 0 for a key with none.
pub open spec fn expected_inputs(gamma_abc_len: nat) -> nat {
    if gamma_abc_len == 0 { 0 } else { (gamma_abc_len - 1) as nat }
}

/// Verify a proof with variable-sized public inputs.
pub fn verify_dynamic(
    public_inputs: &[[u8; 32]],
    proof: &CompressedProof,
    vk: &Groth16VerifyingKey,
) -> (r: Result<(), ZkVerificationError>)
    requires
        vk.gamma_abc_g1@.len() == 0 && public_inputs@.len() == 0 ==> decompress_outcome(*proof) is Err,
    ensures
        r == if public_inputs@.len() != expected_inputs(vk.gamma_abc_g1@.len()) {
            Err(ZkVerificationError::InvalidPublicInputsLength)
        } else {
            groth16_outcome(public_inputs@.len(), *proof, *vk)
        },
{
    let expected_inputs = vk.gamma_abc_g1.len().saturating_sub(1);
    if public_inputs.len() != expected_inputs {
        return Err(ZkVerificationError::InvalidPublicInputsLength);
    }
    let proof_a = decompress_g1(&proof.a)?;
    let proof_b = decompress_g2(&proof.b)?;
    let proof_c = decompress_g1(&proof.c)?;
    let verifier = match Groth16Verifier::new(&proof_a, &proof_b, &proof_c, public_inputs, vk) {
        Ok(v) => v,
        Err(_) => return Err(ZkVerificationError::CreateGroth16VerifierFailed),
    };
    match verifier.verify() {
        Ok(()) => Ok(()),
        Err(_) => Err(ZkVerificationError::ProofVerificationFailed),
    }
}


/// When the number of public inputs matches the key (the check that
/// `PublicInputsHandler::validate_against_vk` makes), creating the verifier
/// cannot fail: the outcome of a verification is that of decompressing the
/// proof points.
pub proof fn lemma_matching_inputs_only_fail_on_points(
    n_inputs: nat,
    proof: CompressedProof,
    vk: Groth16VerifyingKey,
)
    requires
        n_inputs >= 1,
        n_inputs == expected_inputs(vk.gamma_abc_g1@.len()),
    ensures
        groth16_outcome(n_inputs, proof, vk) == decompress_outcome(proof),
{
}


/// A proof passes decompression exactly when all three of its points decode,
/// and each failure names the group of the first point that does not.
pub proof fn lemma_decompression_outcome(proof: CompressedProof)
    ensures
        decompress_outcome(proof) is Ok <==> (bn254_g1_decompress(proof.a@) is Some
            && bn254_g2_decompress(proof.b@) is Some && bn254_g1_decompress(proof.c@) is Some),
        bn254_g1_decompress(proof.a@) is None ==> decompress_outcome(proof)
            == Err::<(), ZkVerificationError>(ZkVerificationError::DecompressG1Failed),
        bn254_g1_decompress(proof.a@) is Some && bn254_g2_decompress(proof.b@) is None
            ==> decompress_outcome(proof) == Err::<(), ZkVerificationError>(ZkVerificationError::DecompressG2Failed),
{
}

/// Once the points decode, a verification against `n` inputs succeeds
/// exactly when `n + 1` is the key's number of `gamma_abc_g1` points, and is
/// refused with `CreateGroth16VerifierFailed` for every other count; so for
/// one proof and key, two counts that both succeed are the same count.
pub proof fn lemma_input_count_must_match_key(
    n1: nat,
    n2: nat,
    proof: CompressedProof,
    vk: Groth16VerifyingKey,
)
    requires
        decompress_outcome(proof) is Ok,
    ensures
        groth16_outcome(n1, proof, vk) is Ok <==> n1 + 1 == vk.gamma_abc_g1@.len(),
        n1 + 1 != vk.gamma_abc_g1@.len() ==> groth16_outcome(n1, proof, vk)
            == Err::<(), ZkVerificationError>(ZkVerificationError::CreateGroth16VerifierFailed),
        groth16_outcome(n1, proof, vk) is Ok && groth16_outcome(n2, proof, vk) is Ok ==> n1 == n2,
{
}

/// A key expects one input fewer than it has `gamma_abc_g1` points, and none
/// when it has no points.
pub proof fn lemma_expected_inputs(gamma_abc_len: nat)
    ensures
        gamma_abc_len >= 1 ==> expected_inputs(gamma_abc_len) + 1 == gamma_abc_len,
        gamma_abc_len == 0 ==> expected_inputs(gamma_abc_len) == 0,
{
}

} // verus!
