//! The cryptographic hash behind seed mixing, behind a trusted wrapper.

use sha2::Digest;
use vstd::prelude::*;

verus! {

/// The SHA-256 digest of a byte sequence, left uninterpreted: the digest is
/// a function of the input bytes alone, and nothing shorter than the hash
/// construction itself says which bytes it holds.
pub uninterp spec fn sha256_of(input: Seq<u8>) -> Seq<u8>;

/// Relies on sha2::Sha256::digest: one pass over the input producing the
/// 32-byte SHA-256 digest, a function of the input bytes alone.
#[verifier::external_body]
pub(crate) fn sha256(input: &Vec<u8>) -> (r: Vec<u8>)
    ensures
        r@ == sha256_of(input@),
        r@.len() == 32,
{
    sha2::Sha256::digest(input.as_slice()).to_vec()
}

} // verus!
