# zk_verification

The verified core of a Solana program for zero-knowledge compliance checks
(KYC credentials, trusted issuers, selective disclosure, nullifiers and
Groth16 proofs). Proofs are checked only as far as their points decompress
and their public inputs match the verifying key: the pairing check itself is
a placeholder that accepts.

- `src/` is the library, written in Verus. Each instruction of the program is
  a function from the accounts it reads, the clock and the caller's arguments
  to the accounts it writes and the event it emits (`src/zk_verification.rs`).
  Proof points are decompressed through ark-serialize behind two trusted
  wrappers in `src/groth16.rs`.
- `tests/` runs the library with the real arkworks crates linked.
- `app/` is the Anchor program: account validation, the clock, logging,
  events, and the issuer reputation score (computed in floating point).
