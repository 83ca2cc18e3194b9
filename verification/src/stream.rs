//! RandomStreamGenerator: deterministic expansion of a seed into a
//! pseudorandom byte stream.

use rand::RngCore;
use rand::SeedableRng;
use vstd::prelude::*;

verus! {

/// The first `len` bytes of the deterministic stream that the ChaCha
/// generator emits when keyed with `seed`; a function of seed and length
/// alone, left uninterpreted because nothing shorter than the stream
/// construction itself says which bytes they are.
pub uninterp spec fn chacha_stream(seed: Seq<u8>, len: nat) -> Seq<u8>;

/// Relies on rand_chacha::ChaChaRng::from_seed and rand::RngCore::fill_bytes:
/// the generator is keyed with exactly the 32 seed bytes (no stretching) and
/// fills the whole buffer with its stream, which depends on the seed alone.
#[verifier::external_body]
fn chacha_fill(seed: &Vec<u8>, len: usize) -> (r: Vec<u8>)
    requires
        seed@.len() == 32,
    ensures
        r@ == chacha_stream(seed@, len as nat),
        r@.len() == len,
{
    let mut key = [0u8; 32];
    key.copy_from_slice(seed.as_slice());
    let mut rng = rand_chacha::ChaChaRng::from_seed(key);
    let mut buf = vec![0u8; len];
    rng.fill_bytes(&mut buf);
    buf
}

/// Expand a 32-byte seed into `length` pseudorandom bytes, emitted from
/// position 0 of the stream. Pure: the result is a function of seed and
/// length alone, and the seed is only read, never changed.
pub fn expand(seed: &Vec<u8>, length: usize) -> (r: Vec<u8>)
    requires
        seed@.len() == 32,
    ensures
        r@ == chacha_stream(seed@, length as nat),
        r@.len() == length,
{
    chacha_fill(seed, length)
}

/// Pure expansion: two expansions of the same seed to the same length give
/// identical bytes, as any two results that `expand` can return for the same
/// arguments are the same stream prefix.
pub proof fn lemma_expand_deterministic(seed: Seq<u8>, len: nat, r1: Seq<u8>, r2: Seq<u8>)
    requires
        r1 == chacha_stream(seed, len),
        r2 == chacha_stream(seed, len),
    ensures
        r1 == r2,
{
}

} // verus!
