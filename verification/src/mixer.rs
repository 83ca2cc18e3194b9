//! EntropyMixer: fold contributed bytes and call context into the seed.

use vstd::prelude::*;

verus! {

use crate::context::CallContext;
use crate::context::context_bytes;
use crate::hashing::sha256_of;

/// The seed that mixing produces: the SHA-256 digest of the current seed,
/// the payload and the fixed-order context encoding, concatenated in exactly
/// that order.
pub open spec fn mix_spec(
    seed: Seq<u8>,
    payload: Seq<u8>,
    sender: Seq<u8>,
    chain_id: Seq<u8>,
    height: u64,
    time: u64,
) -> Seq<u8> {
    sha256_of(seed + payload + context_bytes(sender, chain_id, height, time))
}

/// Mix `payload` and the call context into `seed`, producing the new 32-byte
/// seed. Used both for entropy contributions and, with the request's own
/// parameters as payload, for the post-generation ratchet.
pub fn mix(seed: &Vec<u8>, payload: &Vec<u8>, ctx: &CallContext) -> (r: Vec<u8>)
    ensures
        r@ == mix_spec(seed@, payload@, ctx.sender@, ctx.chain_id@, ctx.height, ctx.time),
        r@.len() == 32,
{
    let mut material: Vec<u8> = Vec::new();
    crate::bytes_util::push_all(&mut material, seed);
    crate::bytes_util::push_all(&mut material, payload);
    let ctx_bytes = crate::context::encode_context(ctx);
    crate::bytes_util::push_all(&mut material, &ctx_bytes);
    proof {
        assert(material@ =~= seed@ + payload@ + ctx.bytes());
    }
    crate::hashing::sha256(&material)
}

/// Determinism of mixing: two mixes of the same seed, payload and context
/// give identical new seeds, as any two results that `mix` can return for
/// the same arguments are the same digest.
pub proof fn lemma_mix_deterministic(
    seed: Seq<u8>,
    payload: Seq<u8>,
    sender: Seq<u8>,
    chain_id: Seq<u8>,
    height: u64,
    time: u64,
    r1: Seq<u8>,
    r2: Seq<u8>,
)
    requires
        r1 == mix_spec(seed, payload, sender, chain_id, height, time),
        r2 == mix_spec(seed, payload, sender, chain_id, height, time),
    ensures
        r1 == r2,
{
}

} // verus!
