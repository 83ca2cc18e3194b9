//! An entropy accumulator and deterministic pseudorandom-byte service.
//!
//! A single 32-byte seed is the only persistent state. Callers contribute
//! entropy, which is folded into the seed by cryptographic hashing, and
//! request pseudorandom byte streams, which are expanded from the seed by a
//! deterministic keyed stream generator and delivered as a single outbound
//! callback message. After every generation the seed is ratcheted forward
//! with the request's own parameters, so no output is ever reproducible from
//! the state it leaves behind.
//!
//! The host that orders invocations, stores the seed and routes messages is
//! kept outside: every function here is a pure transition on plain values.

pub mod bytes_util;
pub mod context;
pub mod encoding;
pub mod handler;
pub mod hashing;
pub mod msg;
pub mod mixer;
pub mod stream;
