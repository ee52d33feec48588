//! The two fixed digests the protocol consumes: SHA-256 names a payment
//! record by its content, Keccak-256 seeds the passcode generator. Both are
//! pure functions of their input bytes; the digests themselves are beyond
//! stating, so each gets an opaque name that the callers' contracts share.

use vstd::prelude::*;

verus! {

/// The SHA-256 digest of `input`: a pure function of the input bytes alone.
pub uninterp spec fn sha256_of(input: Seq<u8>) -> Seq<u8>;

/// The Keccak-256 digest of `input`: a pure function of the input bytes
/// alone.
pub uninterp spec fn keccak256_of(input: Seq<u8>) -> Seq<u8>;

/// Relies on sha2's `Sha256` through the `Digest` trait: the digest is a
/// function of the input bytes alone and is exactly 32 bytes wide.
#[verifier::external_body]
pub(crate) fn sha256(input: &Vec<u8>) -> (r: Vec<u8>)
    ensures
        r@ == sha256_of(input@),
        r@.len() == 32,
{
    <sha2::Sha256 as sha2::Digest>::digest(input.as_slice()).to_vec()
}

/// Relies on sha3's `Keccak256` through the `Digest` trait: the digest is a
/// function of the input bytes alone and is exactly 32 bytes wide.
#[verifier::external_body]
pub(crate) fn keccak256(input: &Vec<u8>) -> (r: Vec<u8>)
    ensures
        r@ == keccak256_of(input@),
        r@.len() == 32,
{
    <sha3::Keccak256 as sha3::Digest>::digest(input.as_slice()).to_vec()
}

} // verus!
