//! The ambient context of one host invocation, and its fixed-width encoding.

use vstd::prelude::*;

verus! {

/// Ambient context delivered by the host with every call: the caller's
/// identity bytes, the chain identifier bytes, and the block height and
/// block time of the invocation.
pub struct CallContext {
    pub sender: Vec<u8>,
    pub chain_id: Vec<u8>,
    pub height: u64,
    pub time: u64,
}

/// The eight big-endian bytes of a 64-bit integer, most significant first.
pub open spec fn u64_be_seq(x: u64) -> Seq<u8> {
    seq![
        ((x as int / 0x100000000000000) % 256) as u8,
        ((x as int / 0x1000000000000) % 256) as u8,
        ((x as int / 0x10000000000) % 256) as u8,
        ((x as int / 0x100000000) % 256) as u8,
        ((x as int / 0x1000000) % 256) as u8,
        ((x as int / 0x10000) % 256) as u8,
        ((x as int / 0x100) % 256) as u8,
        (x as int % 256) as u8,
    ]
}

/// Fixed-width big-endian encoding of a 64-bit integer.
pub fn u64_to_be_bytes(x: u64) -> (r: Vec<u8>)
    ensures
        r@ == u64_be_seq(x),
{
    let mut r: Vec<u8> = Vec::new();
    r.push(((x / 0x100000000000000) % 256) as u8);
    r.push(((x / 0x1000000000000) % 256) as u8);
    r.push(((x / 0x10000000000) % 256) as u8);
    r.push(((x / 0x100000000) % 256) as u8);
    r.push(((x / 0x1000000) % 256) as u8);
    r.push(((x / 0x10000) % 256) as u8);
    r.push(((x / 0x100) % 256) as u8);
    r.push((x % 256) as u8);
    proof {
        assert(r@ =~= u64_be_seq(x));
    }
    r
}

/// The context bytes folded into the seed on every mix, in their fixed
/// order: sender, chain identifier, height (8 big-endian bytes), time
/// (8 big-endian bytes).
pub open spec fn context_bytes(
    sender: Seq<u8>,
    chain_id: Seq<u8>,
    height: u64,
    time: u64,
) -> Seq<u8> {
    sender + chain_id + u64_be_seq(height) + u64_be_seq(time)
}

impl CallContext {
    /// The fixed-order encoding of this context.
    pub open spec fn bytes(&self) -> Seq<u8> {
        context_bytes(self.sender@, self.chain_id@, self.height, self.time)
    }
}

/// Encode a whole context, sender then chain identifier then height then
/// time, as `context_bytes` states.
pub fn encode_context(ctx: &CallContext) -> (r: Vec<u8>)
    ensures
        r@ == ctx.bytes(),
{
    let mut r: Vec<u8> = Vec::new();
    crate::bytes_util::push_all(&mut r, &ctx.sender);
    crate::bytes_util::push_all(&mut r, &ctx.chain_id);
    let h = u64_to_be_bytes(ctx.height);
    crate::bytes_util::push_all(&mut r, &h);
    let t = u64_to_be_bytes(ctx.time);
    crate::bytes_util::push_all(&mut r, &t);
    proof {
        assert(r@ =~= ctx.bytes());
    }
    r
}

} // verus!
