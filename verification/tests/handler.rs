//! Error paths, the compliance stubs, and determinism of the pure functions.

use entropy_beacon::context::CallContext;
use entropy_beacon::handler::handle;
use entropy_beacon::handler::init;
use entropy_beacon::handler::migrate;
use entropy_beacon::handler::query;
use entropy_beacon::handler::MAX_RANDOM_BYTES;
use entropy_beacon::msg::HandleError;
use entropy_beacon::msg::HandleMsg;
use entropy_beacon::msg::InitMsg;
use entropy_beacon::msg::MigrateMsg;
use entropy_beacon::msg::QueryMsg;
use entropy_beacon::mixer::mix;
use entropy_beacon::stream::expand;

fn test_context() -> CallContext {
    CallContext {
        sender: b"caller".to_vec(),
        chain_id: b"chain".to_vec(),
        height: 7,
        time: 99,
    }
}

#[test]
fn init_returns_all_zero_seed() {
    assert_eq!(init(InitMsg {}), vec![0u8; 32]);
}

#[test]
fn absent_seed_is_uninitialized() {
    let ctx = test_context();
    let r = handle(None, HandleMsg::AddEntropy { entropy: vec![1] }, &ctx);
    assert_eq!(r.unwrap_err(), HandleError::UninitializedSeed);
    let r = handle(
        None,
        HandleMsg::GetRandom {
            bytes: 4,
            callback_address: b"a".to_vec(),
            callback_input: vec![],
        },
        &ctx,
    );
    assert_eq!(r.unwrap_err(), HandleError::UninitializedSeed);
}

#[test]
fn wrong_length_seed_is_uninitialized() {
    let ctx = test_context();
    let r = handle(
        Some(vec![0u8; 31]),
        HandleMsg::AddEntropy { entropy: vec![1] },
        &ctx,
    );
    assert_eq!(r.unwrap_err(), HandleError::UninitializedSeed);
    let r = handle(
        Some(vec![0u8; 33]),
        HandleMsg::AddEntropy { entropy: vec![1] },
        &ctx,
    );
    assert_eq!(r.unwrap_err(), HandleError::UninitializedSeed);
}

#[test]
fn excessive_length_is_rejected_before_any_work() {
    let ctx = test_context();
    let seed = init(InitMsg {});
    let r = handle(
        Some(seed.clone()),
        HandleMsg::GetRandom {
            bytes: MAX_RANDOM_BYTES + 1,
            callback_address: b"a".to_vec(),
            callback_input: vec![],
        },
        &ctx,
    );
    assert_eq!(r.unwrap_err(), HandleError::ExcessiveLength);
}

#[test]
fn maximal_length_is_served() {
    let ctx = test_context();
    let seed = init(InitMsg {});
    let t = handle(
        Some(seed),
        HandleMsg::GetRandom {
            bytes: MAX_RANDOM_BYTES,
            callback_address: b"a".to_vec(),
            callback_input: vec![],
        },
        &ctx,
    )
    .unwrap();
    assert!(t.message.is_some());
}

#[test]
fn mix_is_deterministic() {
    let ctx = test_context();
    let seed = init(InitMsg {});
    let payload = vec![9, 8, 7];
    let first = mix(&seed, &payload, &ctx);
    let second = mix(&seed, &payload, &ctx);
    assert_eq!(first, second);
    assert_eq!(first.len(), 32);
}

#[test]
fn expand_is_pure_and_leaves_seed_unchanged() {
    let seed: Vec<u8> = (100u8..132).collect();
    let before = seed.clone();
    let first = expand(&seed, 24);
    let second = expand(&seed, 24);
    assert_eq!(first, second);
    assert_eq!(first.len(), 24);
    assert_eq!(seed, before);
}

#[test]
fn expand_zero_length_is_empty() {
    let seed: Vec<u8> = (0u8..32).collect();
    assert_eq!(expand(&seed, 0), Vec::<u8>::new());
}

#[test]
fn expand_prefix_property_of_stream() {
    let seed: Vec<u8> = (0u8..32).collect();
    let long = expand(&seed, 64);
    let short = expand(&seed, 16);
    assert_eq!(&long[..16], &short[..]);
}

#[test]
fn query_returns_empty() {
    assert_eq!(query(&QueryMsg {}), Vec::<u8>::new());
}

#[test]
fn migrate_returns_empty() {
    assert_eq!(migrate(&MigrateMsg {}), Vec::<u8>::new());
}
