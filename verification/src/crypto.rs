//! The cryptographic primitives behind seed derivation and random
//! aliases.  Their outputs are functions of their inputs alone; the
//! results are given names here, and everything the module does with
//! them is verified against those names.

use vstd::prelude::*;
use vstd::string::StringSliceAdditionalSpecFns;

verus! {

/// The standard, padded base64 rendering of a byte string.
pub uninterp spec fn base64_of(bytes: Seq<u8>) -> Seq<char>;

/// The SHA-256 digest (32 bytes) of a byte string.
pub uninterp spec fn sha256_of(bytes: Seq<u8>) -> Seq<u8>;

/// The first 32 bytes drawn from the deterministic byte-stream generator
/// once it has been seeded with `seed` and `entropy`.
pub uninterp spec fn prng_of(seed: Seq<u8>, entropy: Seq<u8>) -> Seq<u8>;

/// The persisted generator seed derived from caller-supplied entropy:
/// the SHA-256 digest of the base64 rendering of the entropy bytes.
pub open spec fn seed_of(entropy: Seq<char>) -> Seq<u8> {
    sha256_of(vstd::utf8::encode_utf8(base64_of(vstd::utf8::encode_utf8(entropy))))
}

/// Relies on `base64::Engine::encode` with the `STANDARD` engine (the
/// standard alphabet, padded): a function of the input bytes alone.
#[verifier::external_body]
pub fn base64_encode(s: &str) -> (r: String)
    ensures
        r@ == base64_of(s.spec_bytes()),
{
    base64::Engine::encode(&base64::engine::general_purpose::STANDARD, s)
}

/// Relies on `secret_toolkit::crypto::sha_256`: the SHA-256 digest of the
/// input, 32 bytes, a function of the input alone.
#[verifier::external_body]
pub fn sha256(data: &[u8]) -> (r: Vec<u8>)
    ensures
        r@ == sha256_of(data@),
        r@.len() == 32,
{
    secret_toolkit::crypto::sha_256(data).to_vec()
}

/// Relies on `secret_toolkit::crypto::ContractPrng`: seeded with
/// `sha256(seed || entropy)`, the generator's first 32-byte draw is a
/// deterministic function of `seed` and `entropy` alone.
#[verifier::external_body]
pub fn prng_bytes(seed: &[u8], entropy: &[u8]) -> (r: Vec<u8>)
    ensures
        r@ == prng_of(seed@, entropy@),
        r@.len() == 32,
{
    secret_toolkit::crypto::ContractPrng::new(seed, entropy).rand_bytes().to_vec()
}

} // verus!
