//! What a backend reply means: the client's verdict on it, and the gateway's
//! own HTTP answer.
use crate::types::HealthResponse;
use vstd::prelude::*;

verus! {

/// Whether `s` is one well-formed JSON document.
pub uninterp spec fn is_json_text(s: Seq<char>) -> bool;

/// Relies on `serde_json::from_str::<serde_json::Value>`: it succeeds exactly on
/// the texts that hold one JSON document, and which those are is fixed by the text alone.
#[verifier::external_body]
fn parses_as_json(text: &str) -> (r: bool)
    ensures
        r == is_json_text(text@),
{
    serde_json::from_str::<serde_json::Value>(text).is_ok()
}

/// What came back from one backend call.
#[derive(Debug, Clone)]
pub enum BackendReply {
    /// No answer: the connection or the exchange failed.
    Unreachable,
    /// An HTTP answer with its status code and body text.
    Answered { code: u16, body: String },
}

/// Why a backend call failed.
#[derive(Debug, Clone)]
pub enum CallError {
    /// The backend could not be reached.
    Transport,
    /// The backend answered with a status outside 200..=299; its body text is kept.
    Status { code: u16, body: String },
    /// The body of a successful answer did not have the expected shape.
    Decode,
}

/// A status code in the success class 200..=299.
pub open spec fn is_success(code: u16) -> bool {
    200 <= code <= 299
}

/// Whether `code` is in the success class 200..=299.
pub fn status_is_success(code: u16) -> (r: bool)
    ensures
        r == is_success(code),
{
    200 <= code && code <= 299
}

/// Whether a call whose answer is any JSON document succeeded: the backend
/// answered with a success status and a JSON body.
pub open spec fn reply_succeeded(reply: BackendReply) -> bool {
    match reply {
        BackendReply::Unreachable => false,
        BackendReply::Answered { code, body } => is_success(code) && is_json_text(body@),
    }
}

/// The gateway's status for a call that changes the backend: 200 (with an
/// empty body) when the call succeeded, 500 otherwise.
pub open spec fn mutation_status_of(reply: BackendReply) -> u16 {
    if reply_succeeded(reply) {
        200
    } else {
        500
    }
}

/// The client's verdict on a reply whose body is used: the body text of a
/// success, or the failure.
pub fn check_status(reply: BackendReply) -> (r: Result<String, CallError>)
    ensures
        match reply {
            BackendReply::Unreachable => r matches Err(CallError::Transport),
            BackendReply::Answered { code, body } => if is_success(code) {
                r matches Ok(b) && b@ == body@
            } else {
                r matches Err(CallError::Status { code: c, body: b }) && c == code && b@ == body@
            },
        },
{
    match reply {
        BackendReply::Unreachable => Err(CallError::Transport),
        BackendReply::Answered { code, body } => {
            if status_is_success(code) {
                Ok(body)
            } else {
                Err(CallError::Status { code, body })
            }
        },
    }
}

/// The client's verdict on a reply whose body is any JSON document and is then
/// dropped, given whether the body parses as JSON.
pub fn json_verdict(reply: &BackendReply, body_parses: bool) -> (r: Result<(), CallError>)
    ensures
        match *reply {
            BackendReply::Unreachable => r matches Err(CallError::Transport),
            BackendReply::Answered { code, body } => if !is_success(code) {
                r matches Err(CallError::Status { code: c, body: b }) && c == code && b@ == body@
            } else if body_parses {
                r is Ok
            } else {
                r matches Err(CallError::Decode)
            },
        },
{
    match reply {
        BackendReply::Unreachable => Err(CallError::Transport),
        BackendReply::Answered { code, body } => {
            if !status_is_success(*code) {
                Err(CallError::Status { code: *code, body: body.clone() })
            } else if body_parses {
                Ok(())
            } else {
                Err(CallError::Decode)
            }
        },
    }
}

/// The client's verdict on a reply whose body is any JSON document and is then
/// dropped: the probe and every call that changes the backend.
pub fn expect_json(reply: &BackendReply) -> (r: Result<(), CallError>)
    ensures
        r is Ok <==> reply_succeeded(*reply),
        match *reply {
            BackendReply::Unreachable => r matches Err(CallError::Transport),
            BackendReply::Answered { code, body } => if !is_success(code) {
                r matches Err(CallError::Status { code: c, body: b }) && c == code && b@ == body@
            } else if is_json_text(body@) {
                r is Ok
            } else {
                r matches Err(CallError::Decode)
            },
        },
{
    let body_parses = match reply {
        BackendReply::Unreachable => false,
        BackendReply::Answered { body, .. } => parses_as_json(body.as_str()),
    };
    json_verdict(reply, body_parses)
}

/// The gateway's status for a finished call: 200 on success, 500 on any failure.
pub fn gateway_status<T>(result: &Result<T, CallError>) -> (r: u16)
    ensures
        r == (if result is Ok {
            200u16
        } else {
            500u16
        }),
{
    match result {
        Ok(_) => 200,
        Err(_) => 500,
    }
}

/// The gateway's status for a call that changes the backend, from the backend's reply.
pub fn mutation_status(reply: &BackendReply) -> (r: u16)
    ensures
        r == mutation_status_of(*reply),
{
    let verdict = expect_json(reply);
    gateway_status(&verdict)
}

/// The answer of the health route, from the reply to the probe: the status is
/// always "ok", and the backend counts as connected exactly when the probe succeeded.
pub fn health_response(probe: &BackendReply) -> (r: HealthResponse)
    ensures
        r.status@ == "ok"@,
        r.backend_connected == reply_succeeded(*probe),
{
    let verdict = expect_json(probe);
    HealthResponse { status: String::from_str("ok"), backend_connected: verdict.is_ok() }
}

} // verus!
