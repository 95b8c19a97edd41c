use vstd::prelude::*;
use crate::correlation::{CorrelationTable, Outcome, Resolution, has_id};
use crate::envelope::{Envelope, decode, decoded, encode, frame_of, opens_array};
use crate::queue::OutboundQueue;

verus! {

/// What the dispatcher did with one inbound frame.
#[derive(Debug)]
pub enum Dispatched {
    /// The frame is not a well-formed envelope; it was dropped.
    Malformed,
    /// A response resolved the pending request with its message ID.
    Resolved(Resolution),
    /// A response whose message ID is not pending; it was discarded.
    Unmatched(String),
    /// A CSMS-initiated call, for the incoming-call handler.
    IncomingCall { message_id: String, action: String, payload: String },
}

/// A structured failure returned by the incoming-call handler.
#[derive(Debug)]
pub struct HandlerError {
    pub code: String,
    pub description: String,
    /// Error details as a JSON object text.
    pub details: String,
}

/// The outcome that a response envelope resolves its request with; `None` for
/// a call.
pub open spec fn outcome_of(env: Envelope) -> Option<Outcome> {
    match env {
        Envelope::Call { .. } => None,
        Envelope::CallResult { payload, .. } => Some(Outcome::Response(payload)),
        Envelope::CallError { error_code, error_description, details, .. } => Some(
            Outcome::Failed { code: error_code, description: error_description, details },
        ),
    }
}

/// How routing `env` relates the table before and after, and the result.
pub open spec fn routed(
    env: Envelope,
    before: Seq<crate::correlation::PendingRequest>,
    after: Seq<crate::correlation::PendingRequest>,
    r: Dispatched,
) -> bool {
    match outcome_of(env) {
        None => after == before && match env {
            Envelope::Call { message_id, action, payload } => r == Dispatched::IncomingCall {
                message_id,
                action,
                payload,
            },
            _ => false,
        },
        Some(o) => if has_id(before, env.id()) {
            exists|i: int|
                0 <= i < before.len() && before[i].message_id@ == env.id() && after
                    == before.remove(i) && r == Dispatched::Resolved(
                    Resolution { message_id: before[i].message_id, outcome: o },
                )
        } else {
            after == before && match r {
                Dispatched::Unmatched(id) => id@ == env.id(),
                _ => false,
            }
        },
    }
}

/// Routes a decoded envelope: a response resolves its pending request, an
/// unknown response is discarded without touching the table, and a call goes
/// to the incoming-call handler.
pub fn route(table: &mut CorrelationTable, env: Envelope) -> (r: Dispatched)
    requires
        old(table).wf(),
    ensures
        final(table).wf(),
        routed(env, old(table)@, final(table)@, r),
{
    match env {
        Envelope::Call { message_id, action, payload } => Dispatched::IncomingCall {
            message_id,
            action,
            payload,
        },
        Envelope::CallResult { message_id, payload } => {
            match table.resolve(&message_id, Outcome::Response(payload)) {
                Ok(res) => Dispatched::Resolved(res),
                Err(_) => Dispatched::Unmatched(message_id),
            }
        },
        Envelope::CallError { message_id, error_code, error_description, details } => {
            let outcome = Outcome::Failed {
                code: error_code,
                description: error_description,
                details,
            };
            match table.resolve(&message_id, outcome) {
                Ok(res) => Dispatched::Resolved(res),
                Err(_) => Dispatched::Unmatched(message_id),
            }
        },
    }
}

/// Decodes and routes one inbound text frame. A malformed frame is dropped
/// and leaves every pending request as it was.
pub fn dispatch(table: &mut CorrelationTable, frame: &str) -> (r: Dispatched)
    requires
        old(table).wf(),
    ensures
        final(table).wf(),
        decoded(frame@) is None ==> r is Malformed && final(table)@ == old(table)@,
        !opens_array(frame@) ==> r is Malformed && final(table)@ == old(table)@,
        decoded(frame@) is Some ==> routed(decoded(frame@).unwrap(), old(table)@, final(table)@, r),
{
    match decode(frame) {
        None => Dispatched::Malformed,
        Some(env) => route(table, env),
    }
}

/// The envelope that answers the call `message_id` with the handler's result.
pub open spec fn answer_of(message_id: String, result: Result<String, HandlerError>) -> Envelope {
    match result {
        Ok(payload) => Envelope::CallResult { message_id, payload },
        Err(e) => Envelope::CallError {
            message_id,
            error_code: e.code,
            error_description: e.description,
            details: e.details,
        },
    }
}

/// Builds the `CallResult` or `CallError` that answers a CSMS-initiated call,
/// keeping its message ID.
pub fn answer(message_id: String, result: Result<String, HandlerError>) -> (r: Envelope)
    ensures
        r == answer_of(message_id, result),
{
    match result {
        Ok(payload) => Envelope::CallResult { message_id, payload },
        Err(e) => Envelope::CallError {
            message_id,
            error_code: e.code,
            error_description: e.description,
            details: e.details,
        },
    }
}

/// Answers a CSMS-initiated call by queueing the framed response.
pub fn answer_call(
    queue: &mut OutboundQueue,
    message_id: String,
    result: Result<String, HandlerError>,
)
    ensures
        final(queue)@.len() == old(queue)@.len() + 1,
        final(queue)@.drop_last() == old(queue)@,
        final(queue)@.last()@ == frame_of(answer_of(message_id, result)),
{
    let env = answer(message_id, result);
    let frame = encode(&env);
    queue.enqueue(frame);
    proof {
        assert(queue@.drop_last() =~= old(queue)@);
    }
}

} // verus!
