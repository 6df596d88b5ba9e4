use vstd::prelude::*;
use crate::errors::ZkVerificationError;

pub mod patterns;

verus! {

/// The most public inputs a proof may carry.
pub const MAX_PUBLIC_INPUTS: usize = 32;

/// A non-empty list of at most `MAX_PUBLIC_INPUTS` public inputs, each a
/// 32-byte field element.
pub struct PublicInputsHandler {
    inputs: Vec<[u8; 32]>,
}

impl View for PublicInputsHandler {
    type V = Seq<[u8; 32]>;

    closed spec fn view(&self) -> Seq<[u8; 32]> {
        self.inputs@
    }
}

/// Whether every byte of every input is zero.
pub open spec fn all_inputs_zero(inputs: Seq<[u8; 32]>) -> bool {
    forall|i: int, j: int| 0 <= i < inputs.len() && 0 <= j < 32 ==> #[trigger] inputs[i]@[j] == 0
}

impl PublicInputsHandler {
    #[verifier::type_invariant]
    spec fn inv(self) -> bool {
        1 <= self.inputs@.len() <= MAX_PUBLIC_INPUTS
    }

    /// Wrap the inputs; there must be at least one and at most
    /// `MAX_PUBLIC_INPUTS`.
    pub fn new(inputs: Vec<[u8; 32]>) -> (r: Result<Self, ZkVerificationError>)
        ensures
            match r {
                Ok(h) => 1 <= inputs@.len() <= MAX_PUBLIC_INPUTS && h@ == inputs@,
                Err(e) => (inputs@.len() == 0 || inputs@.len() > MAX_PUBLIC_INPUTS)
                    && e == ZkVerificationError::InvalidPublicInputsLength,
            },
    {
        if inputs.len() == 0 {
            return Err(ZkVerificationError::InvalidPublicInputsLength);
        }
        if inputs.len() > MAX_PUBLIC_INPUTS {
            return Err(ZkVerificationError::InvalidPublicInputsLength);
        }
        Ok(Self { inputs })
    }

    /// The number of inputs, which lies between 1 and `MAX_PUBLIC_INPUTS`.
    pub fn len(&self) -> (r: usize)
        ensures
            r == self@.len(),
            1 <= r <= MAX_PUBLIC_INPUTS,
    {
        proof {
            use_type_invariant(self);
        }
        self.inputs.len()
    }

    /// Whether there are no inputs, which never holds.
    pub fn is_empty(&self) -> (r: bool)
        ensures
            r == (self@.len() == 0),
            !r,
    {
        proof {
            use_type_invariant(self);
        }
        self.inputs.len() == 0
    }

    /// The inputs in order.
    pub fn as_slice(&self) -> (r: &[[u8; 32]])
        ensures
            r@ == self@,
    {
        self.inputs.as_slice()
    }

    /// The input at `index`, if there is one.
    pub fn get(&self, index: usize) -> (r: Option<&[u8; 32]>)
        ensures
            r is Some <==> index < self@.len(),
            r matches Some(x) ==> *x == self@[index as int],
    {
        if index < self.inputs.len() {
            Some(&self.inputs[index])
        } else {
            None
        }
    }

    /// Succeeds exactly when there are `expected` inputs.
    pub fn validate_count(&self, expected: usize) -> (r: Result<(), ZkVerificationError>)
        ensures
            r == if self@.len() == expected {
                Ok::<(), ZkVerificationError>(())
            } else {
                Err(ZkVerificationError::InvalidPublicInputsLength)
            },
    {
        if self.inputs.len() != expected {
            return Err(ZkVerificationError::InvalidPublicInputsLength);
        }
        Ok(())
    }

    /// Succeeds exactly when there is one input fewer than the key's
    /// `gamma_abc_g1` points (none fewer where the key has none).
    pub fn validate_against_vk(&self, vk_gamma_abc_len: usize) -> (r: Result<(), ZkVerificationError>)
        ensures
            r == if self@.len() == crate::groth16::expected_inputs(vk_gamma_abc_len as nat) {
                Ok::<(), ZkVerificationError>(())
            } else {
                Err(ZkVerificationError::InvalidPublicInputsLength)
            },
    {
        let expected_inputs = vk_gamma_abc_len.saturating_sub(1);
        self.validate_count(expected_inputs)
    }

    /// The inputs as an array of exactly `N` elements.
    pub fn to_fixed_array<const N: usize>(&self) -> (r: Result<[[u8; 32]; N], ZkVerificationError>)
        ensures
            match r {
                Ok(a) => self@.len() == N && a@ == self@,
                Err(e) => self@.len() != N && e == ZkVerificationError::InvalidPublicInputsLength,
            },
    {
        if self.inputs.len() != N {
            return Err(ZkVerificationError::InvalidPublicInputsLength);
        }
        let mut array: [[u8; 32]; N] = [[0u8; 32]; N];
        let mut i: usize = 0;
        while i < N
            invariant
                i <= N,
                self.inputs@.len() == N,
                array@.len() == N,
                forall|j: int| 0 <= j < i ==> array@[j] == self.inputs@[j],
            decreases N - i,
        {
            array[i] = self.inputs[i];
            i = i + 1;
        }
        assert(array@ =~= self.inputs@);
        Ok(array)
    }

    /// The first input, which serves as the commitment; always present.
    pub fn extract_commitment(&self) -> (r: Option<[u8; 32]>)
        ensures
            r == if self@.len() > 0 { Some(self@[0]) } else { None::<[u8; 32]> },
            r is Some,
    {
        proof {
            use_type_invariant(self);
        }
        if self.inputs.len() > 0 {
            Some(self.inputs[0])
        } else {
            None
        }
    }

    /// Whether every byte of every input is zero.
    pub fn all_zero(&self) -> (r: bool)
        ensures
            r == all_inputs_zero(self@),
    {
        let mut i: usize = 0;
        while i < self.inputs.len()
            invariant
                i <= self.inputs@.len(),
                forall|k: int, j: int| 0 <= k < i && 0 <= j < 32 ==> #[trigger] self.inputs@[k]@[j] == 0,
            decreases self.inputs@.len() - i,
        {
            let input: [u8; 32] = self.inputs[i];
            let mut j: usize = 0;
            while j < 32
                invariant
                    j <= 32,
                    i < self.inputs@.len(),
                    input == self.inputs@[i as int],
                    forall|m: int| 0 <= m < j ==> input@[m] == 0,
                decreases 32 - j,
            {
                if input[j] != 0 {
                    assert(self@[i as int]@[j as int] != 0);
                    return false;
                }
                j = j + 1;
            }
            i = i + 1;
        }
        true
    }
}

/// Whether the words hold, in order, the given byte strings.
pub open spec fn words_match(words: Seq<[u8; 32]>, expected: Seq<Seq<u8>>) -> bool {
    &&& words.len() == expected.len()
    &&& forall|i: int| 0 <= i < words.len() ==> #[trigger] words[i]@ == expected[i]
}

/// Something that can be handed to a circuit as its list of public inputs.
pub trait ToPublicInputs {
    /// The bytes of each input, in the order the circuit expects them.
    spec fn public_inputs_spec(&self) -> Seq<Seq<u8>>;

    /// The inputs, in the order the circuit expects them.
    fn to_public_inputs(&self) -> (r: Vec<[u8; 32]>)
        ensures
            words_match(r@, self.public_inputs_spec()),
    ;
}


/// The inputs are all zero exactly when no byte of any input is nonzero: one
/// nonzero byte anywhere, in any input, makes them not all zero.
pub proof fn lemma_all_zero_means_every_byte(inputs: Seq<[u8; 32]>, i: int, j: int)
    ensures
        0 <= i < inputs.len() && 0 <= j < 32 && inputs[i]@[j] != 0 ==> !all_inputs_zero(inputs),
        all_inputs_zero(inputs) && 0 <= i < inputs.len() && 0 <= j < 32 ==> inputs[i]@[j] == 0,
{
}


/// Words match a list of byte strings exactly when there are as many words as
/// strings and each word holds, byte for byte, the string at its position.
pub proof fn lemma_words_match_bytewise(words: Seq<[u8; 32]>, expected: Seq<Seq<u8>>, i: int, j: int)
    ensures
        words_match(words, expected) ==> words.len() == expected.len(),
        words_match(words, expected) && 0 <= i < words.len() && 0 <= j < 32 ==> expected[i].len() == 32
            && words[i]@[j] == expected[i][j],
{
    if words_match(words, expected) && 0 <= i < words.len() && 0 <= j < 32 {
        assert(words[i]@ == expected[i]);
        assert(words[i]@.len() == 32);
    }
}

} // verus!
