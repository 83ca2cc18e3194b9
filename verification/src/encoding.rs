//! The callback payload's wire format: standard base64 inside a fixed JSON
//! frame `{"random_bytes":"...","input":"..."}`, built and proved here so
//! that the bytes put on the wire are pinned exactly.

use vstd::prelude::*;

verus! {

use crate::msg::RandomAnswer;

/// The byte of the standard base64 alphabet at position `v`, for
/// `0 <= v < 64`: `A`..`Z`, `a`..`z`, `0`..`9`, `+`, `/`.
pub open spec fn b64_char_spec(v: int) -> u8 {
    if v < 26 {
        (65 + v) as u8
    } else if v < 52 {
        (97 + (v - 26)) as u8
    } else if v < 62 {
        (48 + (v - 52)) as u8
    } else if v == 62 {
        43u8
    } else {
        47u8
    }
}

/// Four alphabet bytes encoding a full group of three input bytes.
pub open spec fn b64_group3(b0: u8, b1: u8, b2: u8) -> Seq<u8> {
    seq![
        b64_char_spec(b0 as int / 4),
        b64_char_spec((b0 as int % 4) * 16 + b1 as int / 16),
        b64_char_spec((b1 as int % 16) * 4 + b2 as int / 64),
        b64_char_spec(b2 as int % 64),
    ]
}

/// Four bytes encoding a trailing group of two input bytes, padded with
/// one `=` (61).
pub open spec fn b64_group2(b0: u8, b1: u8) -> Seq<u8> {
    seq![
        b64_char_spec(b0 as int / 4),
        b64_char_spec((b0 as int % 4) * 16 + b1 as int / 16),
        b64_char_spec((b1 as int % 16) * 4),
        61u8,
    ]
}

/// Four bytes encoding a trailing group of one input byte, padded with
/// two `=` (61).
pub open spec fn b64_group1(b0: u8) -> Seq<u8> {
    seq![b64_char_spec(b0 as int / 4), b64_char_spec((b0 as int % 4) * 16), 61u8, 61u8]
}

/// Standard base64 with padding: the input three bytes at a time, each group
/// becoming four alphabet bytes, a short trailing group padded with `=`.
pub open spec fn base64_spec(s: Seq<u8>) -> Seq<u8>
    decreases s.len(),
{
    if s.len() == 0 {
        Seq::empty()
    } else if s.len() == 1 {
        b64_group1(s[0])
    } else if s.len() == 2 {
        b64_group2(s[0], s[1])
    } else {
        b64_group3(s[0], s[1], s[2]) + base64_spec(s.skip(3))
    }
}

/// Base64 encodes group by group: splitting the input after any whole number
/// of groups splits the output.
pub proof fn lemma_base64_append(s: Seq<u8>, t: Seq<u8>)
    requires
        s.len() % 3 == 0,
    ensures
        base64_spec(s + t) == base64_spec(s) + base64_spec(t),
    decreases s.len(),
{
    if s.len() == 0 {
        assert(s + t =~= t);
        assert(base64_spec(s) + base64_spec(t) =~= base64_spec(t));
    } else {
        let s2 = s.skip(3);
        lemma_base64_append(s2, t);
        assert((s + t).skip(3) =~= s2 + t);
        assert(base64_spec(s + t) =~= base64_spec(s) + base64_spec(t));
    }
}

/// The alphabet byte at position `v`.
fn b64_char(v: u8) -> (r: u8)
    requires
        v < 64,
    ensures
        r == b64_char_spec(v as int),
{
    if v < 26 {
        65 + v
    } else if v < 52 {
        97 + (v - 26)
    } else if v < 62 {
        48 + (v - 52)
    } else if v == 62 {
        43
    } else {
        47
    }
}

/// Append the four bytes of a full group.
fn push_group3(out: &mut Vec<u8>, b0: u8, b1: u8, b2: u8)
    ensures
        final(out)@ == old(out)@ + b64_group3(b0, b1, b2),
{
    out.push(b64_char(b0 / 4));
    out.push(b64_char((b0 % 4) * 16 + b1 / 16));
    out.push(b64_char((b1 % 16) * 4 + b2 / 64));
    out.push(b64_char(b2 % 64));
    proof {
        assert(out@ =~= old(out)@ + b64_group3(b0, b1, b2));
    }
}

/// Append the four bytes of a trailing two-byte group.
fn push_group2(out: &mut Vec<u8>, b0: u8, b1: u8)
    ensures
        final(out)@ == old(out)@ + b64_group2(b0, b1),
{
    out.push(b64_char(b0 / 4));
    out.push(b64_char((b0 % 4) * 16 + b1 / 16));
    out.push(b64_char((b1 % 16) * 4));
    out.push(61);
    proof {
        assert(out@ =~= old(out)@ + b64_group2(b0, b1));
    }
}

/// Append the four bytes of a trailing one-byte group.
fn push_group1(out: &mut Vec<u8>, b0: u8)
    ensures
        final(out)@ == old(out)@ + b64_group1(b0),
{
    out.push(b64_char(b0 / 4));
    out.push(b64_char((b0 % 4) * 16));
    out.push(61);
    out.push(61);
    proof {
        assert(out@ =~= old(out)@ + b64_group1(b0));
    }
}

/// Standard base64 encoding of `input`, with `=` padding.
pub fn base64_encode(input: &Vec<u8>) -> (r: Vec<u8>)
    ensures
        r@ == base64_spec(input@),
{
    let mut out: Vec<u8> = Vec::new();
    let len = input.len();
    let mut i: usize = 0;
    while len - i >= 3
        invariant
            i <= len,
            len == input@.len(),
            i % 3 == 0,
            out@ == base64_spec(input@.take(i as int)),
        decreases len - i,
    {
        let b0 = input[i];
        let b1 = input[i + 1];
        let b2 = input[i + 2];
        push_group3(&mut out, b0, b1, b2);
        proof {
            let pre = input@.take(i as int);
            let grp = seq![b0, b1, b2];
            lemma_base64_append(pre, grp);
            assert(grp.skip(3) =~= Seq::<u8>::empty());
            assert(base64_spec(Seq::<u8>::empty()) == Seq::<u8>::empty());
            assert(base64_spec(grp) == b64_group3(grp[0], grp[1], grp[2]) + base64_spec(
                grp.skip(3),
            ));
            assert(base64_spec(grp) =~= b64_group3(b0, b1, b2));
            assert(input@.take(i as int + 3) =~= pre + grp);
        }
        i = i + 3;
    }
    if len - i == 1 {
        let b0 = input[i];
        push_group1(&mut out, b0);
        proof {
            let pre = input@.take(i as int);
            let grp = seq![b0];
            lemma_base64_append(pre, grp);
            assert(base64_spec(grp) =~= b64_group1(b0));
            assert(input@ =~= pre + grp);
        }
    } else if len - i == 2 {
        let b0 = input[i];
        let b1 = input[i + 1];
        push_group2(&mut out, b0, b1);
        proof {
            let pre = input@.take(i as int);
            let grp = seq![b0, b1];
            lemma_base64_append(pre, grp);
            assert(base64_spec(grp) =~= b64_group2(b0, b1));
            assert(input@ =~= pre + grp);
        }
    } else {
        proof {
            assert(input@.take(i as int) =~= input@);
        }
    }
    out
}

/// The JSON frame's opening bytes: `{"random_bytes":"`.
pub open spec fn payload_prefix() -> Seq<u8> {
    seq![
        123u8,
        34u8,
        114u8,
        97u8,
        110u8,
        100u8,
        111u8,
        109u8,
        95u8,
        98u8,
        121u8,
        116u8,
        101u8,
        115u8,
        34u8,
        58u8,
        34u8,
    ]
}

/// The bytes between the two fields: `","input":"`.
pub open spec fn payload_mid() -> Seq<u8> {
    seq![34u8, 44u8, 34u8, 105u8, 110u8, 112u8, 117u8, 116u8, 34u8, 58u8, 34u8]
}

/// The closing bytes: `"}`.
pub open spec fn payload_suffix() -> Seq<u8> {
    seq![34u8, 125u8]
}

/// The whole callback payload: the generated bytes and the echoed input,
/// each base64-encoded, inside the fixed JSON frame
/// `{"random_bytes":"...","input":"..."}`.
pub open spec fn callback_payload_spec(random_bytes: Seq<u8>, input: Seq<u8>) -> Seq<u8> {
    payload_prefix() + base64_spec(random_bytes) + payload_mid() + base64_spec(input)
        + payload_suffix()
}

/// Append the opening bytes of the JSON frame.
fn push_prefix(out: &mut Vec<u8>)
    ensures
        final(out)@ == old(out)@ + payload_prefix(),
{
    out.push(123);
    out.push(34);
    out.push(114);
    out.push(97);
    out.push(110);
    out.push(100);
    out.push(111);
    out.push(109);
    out.push(95);
    out.push(98);
    out.push(121);
    out.push(116);
    out.push(101);
    out.push(115);
    out.push(34);
    out.push(58);
    out.push(34);
    proof {
        assert(out@ =~= old(out)@ + payload_prefix());
    }
}

/// Append the bytes between the two fields.
fn push_mid(out: &mut Vec<u8>)
    ensures
        final(out)@ == old(out)@ + payload_mid(),
{
    out.push(34);
    out.push(44);
    out.push(34);
    out.push(105);
    out.push(110);
    out.push(112);
    out.push(117);
    out.push(116);
    out.push(34);
    out.push(58);
    out.push(34);
    proof {
        assert(out@ =~= old(out)@ + payload_mid());
    }
}

/// Serialize a RandomAnswer into the callback payload bytes.
pub fn encode_random_answer(answer: &RandomAnswer) -> (r: Vec<u8>)
    ensures
        r@ == callback_payload_spec(answer.random_bytes@, answer.input@),
{
    let mut out: Vec<u8> = Vec::new();
    push_prefix(&mut out);
    let encoded_random = base64_encode(&answer.random_bytes);
    crate::bytes_util::push_all(&mut out, &encoded_random);
    push_mid(&mut out);
    let encoded_input = base64_encode(&answer.input);
    crate::bytes_util::push_all(&mut out, &encoded_input);
    out.push(34);
    out.push(125);
    proof {
        assert(out@ =~= callback_payload_spec(answer.random_bytes@, answer.input@));
    }
    out
}

} // verus!
