//! Request, answer and transition types of the service, as plain values.

use vstd::prelude::*;

verus! {

/// Initialization takes no meaningful input.
#[derive(Debug, PartialEq, Eq, Structural)]
pub struct InitMsg {}

/// The two requests the service answers: contribute entropy, or ask for
/// pseudorandom bytes delivered to a callback address.
#[derive(Debug)]
pub enum HandleMsg {
    AddEntropy { entropy: Vec<u8> },
    GetRandom { bytes: u64, callback_address: Vec<u8>, callback_input: Vec<u8> },
}

/// The answer carried to the callback address: the generated bytes and the
/// caller's opaque input, echoed verbatim.
#[derive(Debug)]
pub struct RandomAnswer {
    pub random_bytes: Vec<u8>,
    pub input: Vec<u8>,
}

/// The read-only query entry point takes no input; it exists only to
/// satisfy the host interface.
#[derive(Debug, PartialEq, Eq, Structural)]
pub struct QueryMsg {}

/// Migration carries no data; the entry point exists only to satisfy the
/// host interface and does nothing.
#[derive(Debug, PartialEq, Eq, Structural)]
pub struct MigrateMsg {}

/// The one outbound message of a generation call: a destination and the
/// payload bytes to deliver there.
#[derive(Debug)]
pub struct OutboundMessage {
    pub destination: Vec<u8>,
    pub payload: Vec<u8>,
}

/// What one invocation commits as a unit: the seed to persist and the
/// outbound message, if the call produces one.
#[derive(Debug)]
pub struct Transition {
    pub new_seed: Vec<u8>,
    pub message: Option<OutboundMessage>,
}

/// Why an invocation aborts with no state change.
#[derive(Clone, Copy, Debug, PartialEq, Eq, Structural)]
pub enum HandleError {
    /// The durable seed is absent or not exactly 32 bytes: initialization
    /// is broken.
    UninitializedSeed,
    /// The requested output length exceeds the metering bound.
    ExcessiveLength,
}

} // verus!
