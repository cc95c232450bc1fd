//! Inbound envelopes: an unsolicited event, or the response to an earlier call.
use vstd::prelude::*;
use crate::call::CallId;
use crate::json::{
    is_json_bytes, json_bytes_valid, json_member_str, json_member_text, json_member_u64, member_str,
    member_text, member_u64, opt_view,
};

verus! {

/// A notification the remote side sent on its own: a method name and its
/// parameters as JSON text.
#[derive(Clone, Debug, PartialEq, Eq)]
pub struct EventMessage {
    pub method: String,
    pub params: String,
}

/// The answer to an earlier call; `result` and `error` hold JSON text when present.
#[derive(Clone, Debug, PartialEq, Eq)]
pub struct Response {
    pub id: CallId,
    pub result: Option<String>,
    pub error: Option<String>,
}

/// One decoded inbound frame.
#[derive(Clone, Debug, PartialEq, Eq)]
pub enum Message {
    Event(EventMessage),
    Response(Response),
}

/// Why an inbound frame could not be decoded.
#[derive(Clone, Copy, Debug, PartialEq, Eq, Structural)]
pub enum DecodeError {
    /// The frame is not JSON.
    Malformed,
    /// The frame is JSON but neither a response nor an event.
    NotAnEnvelope,
}

/// What an envelope with the given members decodes to: a response where it has
/// an `id` that is a call id, otherwise an event where it has a string `method`
/// and `params`, otherwise nothing.
pub open spec fn envelope_of(
    id: Option<u64>,
    method: Option<String>,
    params: Option<String>,
    result: Option<String>,
    error: Option<String>,
) -> Result<Message, DecodeError> {
    if id is Some && id->Some_0 <= usize::MAX {
        Ok(Message::Response(Response { id: CallId(id->Some_0 as usize), result, error }))
    } else if method is Some && params is Some {
        Ok(Message::Event(EventMessage { method: method->Some_0, params: params->Some_0 }))
    } else {
        Err(DecodeError::NotAnEnvelope)
    }
}

/// Builds the message from the members read out of an envelope.
pub fn classify_envelope(
    id: Option<u64>,
    method: Option<String>,
    params: Option<String>,
    result: Option<String>,
    error: Option<String>,
) -> (r: Result<Message, DecodeError>)
    ensures
        r == envelope_of(id, method, params, result, error),
{
    match id {
        Some(i) if i as u128 <= usize::MAX as u128 => {
            return Ok(Message::Response(Response { id: CallId(i as usize), result, error }));
        },
        _ => {},
    }
    match (method, params) {
        (Some(m), Some(p)) => Ok(Message::Event(EventMessage { method: m, params: p })),
        _ => Err(DecodeError::NotAnEnvelope),
    }
}

/// What a frame decodes to: `Malformed` when it is not JSON, otherwise the
/// envelope built from what serde_json reads of its `id`, `method`, `params`,
/// `result` and `error` members.
pub open spec fn frame_decodes_to(b: Seq<u8>, r: Result<Message, DecodeError>) -> bool {
    if !json_bytes_valid(b) {
        r == Err::<Message, DecodeError>(DecodeError::Malformed)
    } else {
        exists|method: Option<String>, params: Option<String>, result: Option<String>, error: Option<String>|
            {
                &&& opt_view(method) == json_member_str(b, "method"@)
                &&& opt_view(params) == json_member_text(b, "params"@)
                &&& opt_view(result) == json_member_text(b, "result"@)
                &&& opt_view(error) == json_member_text(b, "error"@)
                &&& r == envelope_of(json_member_u64(b, "id"@), method, params, result, error)
            }
    }
}

/// Decodes one inbound frame.
pub fn decode_frame(bytes: &[u8]) -> (r: Result<Message, DecodeError>)
    ensures
        frame_decodes_to(bytes@, r),
{
    if !is_json_bytes(bytes) {
        return Err(DecodeError::Malformed);
    }
    let id = member_u64(bytes, "id");
    let method = member_str(bytes, "method");
    let params = member_text(bytes, "params");
    let result = member_text(bytes, "result");
    let error = member_text(bytes, "error");
    classify_envelope(id, method, params, result, error)
}

} // verus!
