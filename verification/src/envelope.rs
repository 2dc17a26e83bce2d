//! Request envelopes and the replies the worker computes for them.

use vstd::prelude::*;

verus! {

/// One unit of work handed to the worker: an opaque integer payload
/// bundled with the identity of the one-shot reply channel on which
/// the caller blocks. An envelope is created per call and consumed
/// exactly once.
#[derive(Clone, Copy, Debug, PartialEq, Eq, Structural)]
pub struct Envelope {
    /// Identity of the caller's one-shot reply channel.
    pub id: u64,
    /// The value the caller wants echoed back.
    pub payload: i64,
}

/// The worker's answer to one envelope, addressed to the reply channel
/// of exactly that envelope.
#[derive(Clone, Copy, Debug, PartialEq, Eq, Structural)]
pub struct Reply {
    /// Identity of the reply channel the answer is sent on.
    pub id: u64,
    /// The computed reply value.
    pub value: i64,
}

/// What the worker computes for a payload: the identity function.
pub open spec fn reply_value(payload: i64) -> i64 {
    payload
}

/// The one reply an envelope is owed: the echoed payload, addressed to
/// the envelope's own reply channel.
pub open spec fn reply_to(env: Envelope) -> Reply {
    Reply { id: env.id, value: reply_value(env.payload) }
}

/// Computes the reply value for one payload.
pub fn compute_reply(payload: i64) -> (r: i64)
    ensures
        r == reply_value(payload),
{
    payload
}

/// Answers one envelope: the reply carries the envelope's own channel
/// identity, so it can never be delivered to another caller.
pub fn handle_envelope(env: &Envelope) -> (r: Reply)
    ensures
        r == reply_to(*env),
{
    Reply { id: env.id, value: compute_reply(env.payload) }
}

} // verus!
