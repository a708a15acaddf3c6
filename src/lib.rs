//! Keccak-256 digests of byte strings, with an input-size guard for callers
//! that take their input from an untrusted boundary.
//!
//! The sponge itself (Keccak-f[1600], original Keccak padding, rate of 136
//! bytes) is computed by the `tiny-keccak` crate; this library states what its
//! entry points return and when they reject their input.
use tiny_keccak::{Hasher, Keccak};
use vstd::prelude::*;

verus! {

/// Number of bytes in a Keccak-256 digest.
pub const DIGEST_LEN: usize = 32;

/// Bound on the input length used by `keccak_256_checked`: 100,000,000 bytes.
pub const DEFAULT_MAX_INPUT_LEN: usize = 100_000_000;

/// Why a digest was not produced.
#[derive(Debug, Clone, Copy, PartialEq, Eq, Structural)]
pub enum KeccakError {
    /// The input is longer than the configured bound.
    InvalidInput,
    /// An internal failure; no function of this library returns it.
    HashError,
}

/// The Keccak-256 digest (original Keccak padding, not SHA3-256) of `data`.
pub uninterp spec fn keccak256_of(data: Seq<u8>) -> Seq<u8>;

/// Relies on tiny_keccak's `Keccak::v256`, `Hasher::update` and
/// `Hasher::finalize`: a fresh 256-bit Keccak sponge absorbs `input` and
/// squeezes 32 bytes. The result depends on the bytes of `input` alone, and
/// none of the three calls panics.
#[verifier::external_body]
fn keccak256_digest(input: &[u8]) -> (r: [u8; 32])
    ensures
        r@ == keccak256_of(input@),
{
    let mut hasher = Keccak::v256();
    hasher.update(input);
    let mut output = [0u8; 32];
    hasher.finalize(&mut output);
    output
}

/// Whether an input of `len` bytes is within the bound `max_len`.
pub open spec fn within_bound(len: nat, max_len: nat) -> bool {
    len <= max_len
}

/// The Keccak-256 digest of `input`, of any length.
pub fn keccak_256(input: &[u8]) -> (digest: [u8; 32])
    ensures
        digest@ == keccak256_of(input@),
        digest@.len() == DIGEST_LEN,
{
    keccak256_digest(input)
}

/// The Keccak-256 digest of `input`, or `InvalidInput` when `input` is longer
/// than `max_len` bytes. An input of exactly `max_len` bytes is accepted.
pub fn keccak_256_bounded(input: &[u8], max_len: usize) -> (r: Result<[u8; 32], KeccakError>)
    ensures
        r is Ok <==> within_bound(input@.len(), max_len as nat),
        r matches Ok(digest) ==> digest@ == keccak256_of(input@) && digest@.len() == DIGEST_LEN,
        r matches Err(e) ==> e == KeccakError::InvalidInput,
{
    if input.len() > max_len {
        Err(KeccakError::InvalidInput)
    } else {
        Ok(keccak_256(input))
    }
}

/// `keccak_256_bounded` under the default bound of `DEFAULT_MAX_INPUT_LEN`
/// bytes.
pub fn keccak_256_checked(input: &[u8]) -> (r: Result<[u8; 32], KeccakError>)
    ensures
        r is Ok <==> within_bound(input@.len(), DEFAULT_MAX_INPUT_LEN as nat),
        r matches Ok(digest) ==> digest@ == keccak256_of(input@) && digest@.len() == DIGEST_LEN,
        r matches Err(e) ==> e == KeccakError::InvalidInput,
{
    keccak_256_bounded(input, DEFAULT_MAX_INPUT_LEN)
}

/// Determinism: hashing equal byte strings gives equal digests. Every digest
/// returned above is `keccak256_of` of the input, a function of its bytes alone,
/// so two calls on the same input return the same 32 bytes.
pub proof fn lemma_digest_deterministic(x: Seq<u8>, y: Seq<u8>)
    requires
        x == y,
    ensures
        keccak256_of(x) == keccak256_of(y),
{
}

} // verus!
