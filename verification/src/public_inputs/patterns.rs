use vstd::prelude::*;
use vstd::arithmetic::power::{pow, lemma_pow_positive};
use vstd::arithmetic::div_mod::{lemma_mod_breakdown, lemma_small_mod};
use crate::public_inputs::{ToPublicInputs, words_match};

verus! {

/// The lowest `n` bytes of `v`, least significant first.
pub open spec fn le_bytes(v: nat, n: nat) -> Seq<u8>
    decreases n,
{
    if n == 0 {
        Seq::empty()
    } else {
        seq![(v % 256) as u8] + le_bytes(v / 256, (n - 1) as nat)
    }
}

/// A 32-byte field element holding the lowest `n` bytes of `v`, least
/// significant first, followed by zeros.
pub open spec fn le_word(v: nat, n: nat) -> Seq<u8> {
    le_bytes(v, n) + Seq::new((32 - n) as nat, |i: int| 0u8)
}

/// The number that a byte string denotes, read least significant byte first.
pub open spec fn le_value(s: Seq<u8>) -> nat
    decreases s.len(),
{
    if s.len() == 0 {
        0
    } else {
        s[0] as nat + 256 * le_value(s.drop_first())
    }
}

proof fn lemma_le_bytes_len(v: nat, n: nat)
    ensures
        le_bytes(v, n).len() == n,
    decreases n,
{
    if n > 0 {
        lemma_le_bytes_len(v / 256, (n - 1) as nat);
    }
}

proof fn lemma_le_value_zeros(s: Seq<u8>, k: nat)
    ensures
        le_value(s + Seq::new(k, |i: int| 0u8)) == le_value(s),
    decreases s.len() + k,
{
    let z = Seq::new(k, |i: int| 0u8);
    if s.len() == 0 {
        assert(s + z =~= z);
        if k > 0 {
            let z1 = Seq::new((k - 1) as nat, |i: int| 0u8);
            assert(z.drop_first() =~= Seq::empty() + z1);
            lemma_le_value_zeros(Seq::empty(), (k - 1) as nat);
        }
    } else {
        assert((s + z).drop_first() =~= s.drop_first() + z);
        lemma_le_value_zeros(s.drop_first(), k);
    }
}

proof fn lemma_le_bytes_value(v: nat, n: nat)
    ensures
        le_value(le_bytes(v, n)) == v % (pow(256, n) as nat),
    decreases n,
{
    lemma_pow_positive(256, n);
    if n == 0 {
        assert(pow(256, 0) == 1) by {
            reveal(pow);
        }
    } else {
        let rest = le_bytes(v / 256, (n - 1) as nat);
        assert((seq![(v % 256) as u8] + rest).drop_first() =~= rest);
        lemma_le_bytes_value(v / 256, (n - 1) as nat);
        lemma_pow_positive(256, (n - 1) as nat);
        assert(pow(256, n) == 256 * pow(256, (n - 1) as nat)) by {
            reveal(pow);
        }
        lemma_mod_breakdown(v as int, 256, pow(256, (n - 1) as nat));
    }
}

/// Reading an encoded field element back gives the encoded value, for every
/// value that fits in the bytes it is given.
pub proof fn lemma_le_word_value(v: nat, n: nat)
    requires
        n <= 32,
        v < pow(256, n),
    ensures
        le_word(v, n).len() == 32,
        le_value(le_word(v, n)) == v,
{
    lemma_le_bytes_len(v, n);
    lemma_le_value_zeros(le_bytes(v, n), (32 - n) as nat);
    lemma_le_bytes_value(v, n);
    lemma_small_mod(v, pow(256, n) as nat);
}

/// The field element holding the lowest `n` bytes of `v`.
fn encode_le_word(v: u64, n: usize) -> (w: [u8; 32])
    requires
        n <= 8,
    ensures
        w@ == le_word(v as nat, n as nat),
{
    let mut w: [u8; 32] = [0u8; 32];
    let mut x: u64 = v;
    let mut i: usize = 0;
    while i < n
        invariant
            i <= n <= 8,
            w@.len() == 32,
            le_bytes(v as nat, n as nat) == w@.subrange(0, i as int) + le_bytes(x as nat, (n - i) as nat),
            forall|j: int| i <= j < 32 ==> w@[j] == 0,
        decreases n - i,
    {
        let ghost old_w = w@;
        w[i] = (x % 256) as u8;
        assert(w@.subrange(0, i + 1) =~= old_w.subrange(0, i as int) + seq![(x % 256) as u8]);
        assert(le_bytes(x as nat, (n - i) as nat) == seq![(x as nat % 256) as u8] + le_bytes(x as nat / 256, (n - i - 1) as nat));
        assert(old_w.subrange(0, i as int) + le_bytes(x as nat, (n - i) as nat)
            =~= w@.subrange(0, i + 1) + le_bytes(x as nat / 256, (n - i - 1) as nat));
        x = x / 256;
        i = i + 1;
    }
    assert(w@ =~= le_word(v as nat, n as nat));
    w
}

/// Public inputs of an age check.
pub struct AgeVerification {
    pub age_commitment: [u8; 32],
    pub minimum_age: u8,
    pub current_timestamp: i64,
}

impl ToPublicInputs for AgeVerification {
    /// The commitment, the minimum age in the first byte of a field element,
    /// and the timestamp's eight little-endian bytes (two's complement).
    open spec fn public_inputs_spec(&self) -> Seq<Seq<u8>> {
        seq![
            self.age_commitment@,
            le_word(self.minimum_age as nat, 1),
            le_word((self.current_timestamp as u64) as nat, 8),
        ]
    }

    fn to_public_inputs(&self) -> (r: Vec<[u8; 32]>) {
        let mut inputs: Vec<[u8; 32]> = Vec::new();
        inputs.push(self.age_commitment);
        let min_age_bytes = encode_le_word(self.minimum_age as u64, 1);
        inputs.push(min_age_bytes);
        let timestamp_bytes = encode_le_word(self.current_timestamp as u64, 8);
        inputs.push(timestamp_bytes);
        assert(words_match(inputs@, self.public_inputs_spec()));
        inputs
    }
}

/// Public inputs of a KYC check.
pub struct KycVerification {
    pub identity_commitment: [u8; 32],
    pub country_code_hash: [u8; 32],
    pub sanctions_list_hash: [u8; 32],
}

impl ToPublicInputs for KycVerification {
    /// The identity commitment, the country code hash and the sanctions list
    /// hash.
    open spec fn public_inputs_spec(&self) -> Seq<Seq<u8>> {
        seq![self.identity_commitment@, self.country_code_hash@, self.sanctions_list_hash@]
    }

    fn to_public_inputs(&self) -> (r: Vec<[u8; 32]>) {
        let inputs: Vec<[u8; 32]> = vec![
            self.identity_commitment,
            self.country_code_hash,
            self.sanctions_list_hash,
        ];
        assert(words_match(inputs@, self.public_inputs_spec()));
        inputs
    }
}

/// Public inputs of an accredited-investor check.
pub struct AccreditedInvestorVerification {
    pub investor_commitment: [u8; 32],
    pub net_worth_threshold: u64,
    pub income_threshold: u64,
}

impl ToPublicInputs for AccreditedInvestorVerification {
    /// The commitment, then each threshold as eight little-endian bytes.
    open spec fn public_inputs_spec(&self) -> Seq<Seq<u8>> {
        seq![
            self.investor_commitment@,
            le_word(self.net_worth_threshold as nat, 8),
            le_word(self.income_threshold as nat, 8),
        ]
    }

    fn to_public_inputs(&self) -> (r: Vec<[u8; 32]>) {
        let mut inputs: Vec<[u8; 32]> = Vec::new();
        inputs.push(self.investor_commitment);
        let net_worth_bytes = encode_le_word(self.net_worth_threshold, 8);
        inputs.push(net_worth_bytes);
        let income_bytes = encode_le_word(self.income_threshold, 8);
        inputs.push(income_bytes);
        assert(words_match(inputs@, self.public_inputs_spec()));
        inputs
    }
}

/// Public inputs of a credit-score check.
pub struct CreditScoreVerification {
    pub credit_commitment: [u8; 32],
    pub minimum_score: u16,
    pub verification_timestamp: i64,
}

impl ToPublicInputs for CreditScoreVerification {
    /// The commitment, the minimum score as two little-endian bytes, and the
    /// timestamp's eight little-endian bytes (two's complement).
    open spec fn public_inputs_spec(&self) -> Seq<Seq<u8>> {
        seq![
            self.credit_commitment@,
            le_word(self.minimum_score as nat, 2),
            le_word((self.verification_timestamp as u64) as nat, 8),
        ]
    }

    fn to_public_inputs(&self) -> (r: Vec<[u8; 32]>) {
        let mut inputs: Vec<[u8; 32]> = Vec::new();
        inputs.push(self.credit_commitment);
        let score_bytes = encode_le_word(self.minimum_score as u64, 2);
        inputs.push(score_bytes);
        let timestamp_bytes = encode_le_word(self.verification_timestamp as u64, 8);
        inputs.push(timestamp_bytes);
        assert(words_match(inputs@, self.public_inputs_spec()));
        inputs
    }
}

} // verus!
