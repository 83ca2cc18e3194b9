//! Small verified helpers on byte vectors.

use vstd::prelude::*;

verus! {

/// Append every byte of `src` to `dst`, in order.
pub fn push_all(dst: &mut Vec<u8>, src: &Vec<u8>)
    ensures
        final(dst)@ == old(dst)@ + src@,
{
    let mut i: usize = 0;
    while i < src.len()
        invariant
            i <= src.len(),
            dst@ == old(dst)@ + src@.take(i as int),
        decreases src.len() - i,
    {
        dst.push(src[i]);
        proof {
            assert(old(dst)@ + src@.take(i as int + 1) =~= (old(dst)@ + src@.take(
                i as int,
            )).push(src@[i as int]));
        }
        i = i + 1;
    }
    proof {
        assert(src@.take(src@.len() as int) =~= src@);
    }
}

/// A fresh vector holding the same bytes as `src`.
pub fn copy_bytes(src: &Vec<u8>) -> (r: Vec<u8>)
    ensures
        r@ == src@,
{
    let mut r: Vec<u8> = Vec::new();
    push_all(&mut r, src);
    proof {
        assert(Seq::<u8>::empty() + src@ =~= src@);
    }
    r
}

} // verus!
