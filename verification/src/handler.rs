//! RequestHandler: the state machine over the persisted seed. Each entry
//! point is a pure transition from the stored seed and the call's inputs to
//! the seed to persist and the outbound message, committed as a unit by the
//! host's atomic invocation boundary.

use vstd::prelude::*;

verus! {

use crate::context::CallContext;
use crate::encoding::callback_payload_spec;
use crate::mixer::mix_spec;
use crate::msg::HandleError;
use crate::msg::HandleMsg;
use crate::msg::InitMsg;
use crate::msg::MigrateMsg;
use crate::msg::OutboundMessage;
use crate::msg::QueryMsg;
use crate::msg::RandomAnswer;
use crate::msg::Transition;
use crate::stream::chacha_stream;

/// Most bytes one generation request may ask for: the practical bound
/// derived from the host's metering budget. Longer requests are rejected
/// before any hashing or expansion work.
pub const MAX_RANDOM_BYTES: u64 = 65536;

/// The all-zero 32-byte seed that initialization persists.
pub open spec fn zero_seed() -> Seq<u8> {
    Seq::new(32, |i: int| 0u8)
}

/// A stored value is a usable seed exactly when it is present and holds
/// exactly 32 bytes.
pub open spec fn seed_ok(stored: Option<Vec<u8>>) -> bool {
    stored matches Some(s) && s@.len() == 32
}

/// The seed bytes of a usable stored value.
pub open spec fn seed_of(stored: Option<Vec<u8>>) -> Seq<u8>
    recommends
        seed_ok(stored),
{
    stored->0@
}

/// A request's length is within the metering bound; an entropy contribution
/// always is.
pub open spec fn request_len_ok(msg: HandleMsg) -> bool {
    msg matches HandleMsg::GetRandom { bytes, .. } ==> bytes <= MAX_RANDOM_BYTES
}

/// Initialization: the only other entry into the state machine. The seed to
/// persist is the all-zero 32-byte value, a known low-entropy start; outputs
/// are not unpredictable until enough independent contributions accumulate.
pub fn init(_msg: InitMsg) -> (seed: Vec<u8>)
    ensures
        seed@ == zero_seed(),
        seed@.len() == 32,
{
    let mut seed: Vec<u8> = Vec::new();
    let mut i: usize = 0;
    while i < 32
        invariant
            i <= 32,
            seed@.len() == i,
            forall|k: int| 0 <= k < i ==> seed@[k] == 0u8,
        decreases 32 - i,
    {
        seed.push(0u8);
        i = i + 1;
    }
    proof {
        assert(seed@ =~= zero_seed());
    }
    seed
}

/// Build the one outbound message of a generation call: addressed to
/// `destination`, carrying the generated bytes and the echoed input inside
/// the fixed JSON frame. Nothing else is attached.
pub fn build_callback(
    random_bytes: &Vec<u8>,
    echo_input: &Vec<u8>,
    destination: &Vec<u8>,
) -> (m: OutboundMessage)
    ensures
        m.destination@ == destination@,
        m.payload@ == callback_payload_spec(random_bytes@, echo_input@),
{
    let answer = RandomAnswer {
        random_bytes: crate::bytes_util::copy_bytes(random_bytes),
        input: crate::bytes_util::copy_bytes(echo_input),
    };
    OutboundMessage {
        destination: crate::bytes_util::copy_bytes(destination),
        payload: crate::encoding::encode_random_answer(&answer),
    }
}

/// One handle invocation: from the stored seed, the request and the call
/// context to the transition the host commits atomically.
///
/// An entropy contribution mixes the contributed bytes and the context into
/// the seed and sends nothing. A generation request expands the pre-update
/// seed into the requested bytes, wraps them in the one callback message,
/// and ratchets the seed forward with the request's own destination and
/// echoed input, so the persisted seed never reveals the bytes it released.
/// A zero-length request still advances the seed and carries empty bytes.
pub fn handle(stored: Option<Vec<u8>>, msg: HandleMsg, ctx: &CallContext) -> (r: Result<
    Transition,
    HandleError,
>)
    ensures
        r is Ok <==> seed_ok(stored) && request_len_ok(msg),
        r is Err ==> (r->Err_0 is UninitializedSeed <==> !seed_ok(stored)),
        r is Err ==> (r->Err_0 is ExcessiveLength <==> seed_ok(stored) && !request_len_ok(msg)),
        r matches Ok(t) ==> t.new_seed@.len() == 32,
        r matches Ok(t) ==> (msg matches HandleMsg::AddEntropy { entropy } ==> t.new_seed@
            == mix_spec(
            seed_of(stored),
            entropy@,
            ctx.sender@,
            ctx.chain_id@,
            ctx.height,
            ctx.time,
        ) && t.message is None),
        r matches Ok(t) ==> (msg matches HandleMsg::GetRandom {
            bytes,
            callback_address,
            callback_input,
        } ==> t.new_seed@ == mix_spec(
            seed_of(stored),
            callback_address@ + callback_input@,
            ctx.sender@,
            ctx.chain_id@,
            ctx.height,
            ctx.time,
        )),
        r matches Ok(t) ==> (msg matches HandleMsg::GetRandom { .. } ==> t.message is Some),
        r matches Ok(t) ==> (msg matches HandleMsg::GetRandom { callback_address, .. }
            ==> t.message->0.destination@ == callback_address@),
        r matches Ok(t) ==> (msg matches HandleMsg::GetRandom { bytes, callback_input, .. }
            ==> t.message->0.payload@ == callback_payload_spec(
            chacha_stream(seed_of(stored), bytes as nat),
            callback_input@,
        )),
        r matches Ok(t) ==> (msg matches HandleMsg::GetRandom { bytes, callback_input, .. } ==> (
        bytes == 0 ==> t.message->0.payload@ == callback_payload_spec(
            Seq::<u8>::empty(),
            callback_input@,
        ))),
{
    let seed: Vec<u8> = match stored {
        Option::Some(s) => {
            if s.len() != 32 {
                return Result::Err(HandleError::UninitializedSeed);
            }
            s
        },
        Option::None => {
            return Result::Err(HandleError::UninitializedSeed);
        },
    };
    match msg {
        HandleMsg::AddEntropy { entropy } => {
            let new_seed = crate::mixer::mix(&seed, &entropy, ctx);
            Result::Ok(Transition { new_seed, message: Option::None })
        },
        HandleMsg::GetRandom { bytes, callback_address, callback_input } => {
            if bytes > MAX_RANDOM_BYTES {
                return Result::Err(HandleError::ExcessiveLength);
            }
            let length = bytes as usize;
            let random_bytes = crate::stream::expand(&seed, length);
            let message = build_callback(&random_bytes, &callback_input, &callback_address);
            let mut ratchet_payload = crate::bytes_util::copy_bytes(&callback_address);
            crate::bytes_util::push_all(&mut ratchet_payload, &callback_input);
            let new_seed = crate::mixer::mix(&seed, &ratchet_payload, ctx);
            proof {
                if bytes == 0 {
                    assert(random_bytes@ =~= Seq::<u8>::empty());
                }
            }
            Result::Ok(Transition { new_seed, message: Option::Some(message) })
        },
    }
}

/// The read-only query entry point: a host-compliance stub returning empty
/// success and no data.
pub fn query(_msg: &QueryMsg) -> (r: Vec<u8>)
    ensures
        r@ == Seq::<u8>::empty(),
{
    Vec::new()
}

/// The migration entry point: a host-compliance stub returning empty
/// success, changing nothing.
pub fn migrate(_msg: &MigrateMsg) -> (r: Vec<u8>)
    ensures
        r@ == Seq::<u8>::empty(),
{
    Vec::new()
}

} // verus!
