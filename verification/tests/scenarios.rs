//! End-to-end scenarios against reference implementations of the hash and
//! the stream construction.

use base64::Engine;
use entropy_beacon::context::CallContext;
use entropy_beacon::handler::handle;
use entropy_beacon::handler::init;
use entropy_beacon::msg::HandleMsg;
use entropy_beacon::msg::InitMsg;
use rand::RngCore;
use rand::SeedableRng;
use sha2::Digest;
use sha2::Sha256;

fn test_context() -> CallContext {
    CallContext {
        sender: b"caller-s".to_vec(),
        chain_id: b"chain-c".to_vec(),
        height: 12345,
        time: 1_600_000_000,
    }
}

fn reference_hash(parts: &[&[u8]]) -> Vec<u8> {
    let mut material: Vec<u8> = Vec::new();
    for p in parts {
        material.extend_from_slice(p);
    }
    let digest: [u8; 32] = Sha256::digest(&material).into();
    digest.to_vec()
}

fn reference_stream(seed: &[u8], len: usize) -> Vec<u8> {
    let mut key = [0u8; 32];
    key.copy_from_slice(seed);
    let mut rng = rand_chacha::ChaChaRng::from_seed(key);
    let mut out = vec![0u8; len];
    rng.fill_bytes(&mut out);
    out
}

fn reference_payload(random_bytes: &[u8], input: &[u8]) -> Vec<u8> {
    let engine = base64::engine::general_purpose::STANDARD;
    format!(
        "{{\"random_bytes\":\"{}\",\"input\":\"{}\"}}",
        engine.encode(random_bytes),
        engine.encode(input)
    )
    .into_bytes()
}

#[test]
fn scenario_a_add_entropy_folds_payload_and_context() {
    let seed0 = init(InitMsg {});
    assert_eq!(seed0, vec![0u8; 32]);
    let ctx = test_context();
    let t = handle(
        Some(seed0.clone()),
        HandleMsg::AddEntropy { entropy: vec![0x01, 0x02] },
        &ctx,
    )
    .unwrap();
    let expected = reference_hash(&[
        &[0u8; 32],
        &[0x01, 0x02],
        b"caller-s",
        b"chain-c",
        &12345u64.to_be_bytes(),
        &1_600_000_000u64.to_be_bytes(),
    ]);
    assert_eq!(t.new_seed, expected);
    assert!(t.message.is_none());
}

#[test]
fn scenario_b_get_random_matches_reference_stream() {
    let s0: Vec<u8> = (0u8..32).collect();
    let ctx = test_context();
    let t = handle(
        Some(s0.clone()),
        HandleMsg::GetRandom {
            bytes: 16,
            callback_address: b"addr-a".to_vec(),
            callback_input: vec![0xAA],
        },
        &ctx,
    )
    .unwrap();
    let message = t.message.expect("one outbound message");
    assert_eq!(message.destination, b"addr-a".to_vec());
    let expected_bytes = reference_stream(&s0, 16);
    assert_eq!(message.payload, reference_payload(&expected_bytes, &[0xAA]));
}

#[test]
fn scenario_c_ratchet_and_fresh_bytes_on_repeat() {
    let s0: Vec<u8> = (0u8..32).collect();
    let ctx = test_context();
    let request = || HandleMsg::GetRandom {
        bytes: 16,
        callback_address: b"addr-a".to_vec(),
        callback_input: vec![0xAA],
    };
    let first = handle(Some(s0.clone()), request(), &ctx).unwrap();
    let expected_seed = reference_hash(&[
        &s0,
        b"addr-a",
        &[0xAA],
        b"caller-s",
        b"chain-c",
        &12345u64.to_be_bytes(),
        &1_600_000_000u64.to_be_bytes(),
    ]);
    assert_eq!(first.new_seed, expected_seed);

    let second = handle(Some(first.new_seed.clone()), request(), &ctx).unwrap();
    let first_bytes = reference_stream(&s0, 16);
    let second_bytes = reference_stream(&first.new_seed, 16);
    assert_ne!(first_bytes, second_bytes);
    let second_message = second.message.expect("one outbound message");
    assert_eq!(second_message.payload, reference_payload(&second_bytes, &[0xAA]));
}

#[test]
fn get_random_is_not_idempotent() {
    let seed0 = init(InitMsg {});
    let ctx = test_context();
    let request = || HandleMsg::GetRandom {
        bytes: 8,
        callback_address: b"dest".to_vec(),
        callback_input: vec![0x01],
    };
    let first = handle(Some(seed0.clone()), request(), &ctx).unwrap();
    let second = handle(Some(first.new_seed.clone()), request(), &ctx).unwrap();
    assert_ne!(seed0, first.new_seed);
    assert_ne!(first.new_seed, second.new_seed);
    let first_bytes = reference_stream(&seed0, 8);
    let second_bytes = reference_stream(&first.new_seed, 8);
    assert_ne!(first_bytes, second_bytes);
    assert_eq!(
        first.message.unwrap().payload,
        reference_payload(&first_bytes, &[0x01])
    );
    assert_eq!(
        second.message.unwrap().payload,
        reference_payload(&second_bytes, &[0x01])
    );
}

#[test]
fn zero_length_request_returns_empty_bytes_and_advances_seed() {
    let seed0 = init(InitMsg {});
    let ctx = test_context();
    let t = handle(
        Some(seed0.clone()),
        HandleMsg::GetRandom {
            bytes: 0,
            callback_address: b"dest".to_vec(),
            callback_input: vec![0xBB, 0xCC],
        },
        &ctx,
    )
    .unwrap();
    let message = t.message.expect("one outbound message");
    assert_eq!(message.payload, reference_payload(&[], &[0xBB, 0xCC]));
    assert_ne!(t.new_seed, seed0);
    let expected_seed = reference_hash(&[
        &seed0,
        b"dest",
        &[0xBB, 0xCC],
        b"caller-s",
        b"chain-c",
        &12345u64.to_be_bytes(),
        &1_600_000_000u64.to_be_bytes(),
    ]);
    assert_eq!(t.new_seed, expected_seed);
}
