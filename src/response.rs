use vstd::prelude::*;
use crate::envelope::{envelope_of, Envelope, ErrorType, Failure, UNKNOWN_ERROR_MESSAGE};
use crate::json::{is_json_text, parse_json};

verus! {

/// Whether an HTTP status reports success (2xx).
pub open spec fn is_success_status(status: u16) -> bool {
    200 <= status <= 299
}

/// The error kind that a failed backend call is answered with.
pub open spec fn error_type_for_status(status: u16) -> ErrorType {
    if status == 401 || status == 403 {
        ErrorType::InvalidAuthorizationCredential
    } else {
        ErrorType::InternalError
    }
}

/// The message of an error response: the backend's text, where it gave any.
pub open spec fn error_message(body: Option<String>) -> Seq<char> {
    match body {
        Some(t) if t@.len() > 0 => t@,
        _ => UNKNOWN_ERROR_MESSAGE@,
    }
}

/// What is handed back to the caller of a forwarded directive.
pub enum Output {
    /// The backend's own JSON response, unchanged.
    Backend(serde_json::Value),
    /// A synthesized error response.
    Error(Envelope),
}

/// Whether an HTTP status reports success.
pub fn is_success(status: u16) -> (r: bool)
    ensures
        r == is_success_status(status),
{
    200 <= status && status <= 299
}

/// The error response for a backend answer with a non-success status.
pub fn error_envelope(status: u16, body: Option<String>) -> (r: Envelope)
    ensures
        r@ == envelope_of(error_type_for_status(status), error_message(body)),
{
    let error_type = if status == 401 || status == 403 {
        ErrorType::InvalidAuthorizationCredential
    } else {
        ErrorType::InternalError
    };
    match body {
        Some(text) if !text.as_str().is_empty() => Envelope { error_type, message: text },
        _ => Envelope::new(error_type, UNKNOWN_ERROR_MESSAGE),
    }
}

/// The output for a successful backend answer, from the outcome of parsing its body.
pub fn success_output(parsed: Result<serde_json::Value, serde_json::Error>) -> (r: Result<Output, Failure>)
    ensures
        parsed matches Ok(v) ==> r == Ok::<Output, Failure>(Output::Backend(v)),
        parsed is Err ==> r == Err::<Output, Failure>(Failure::MalformedResponse),
{
    match parsed {
        Ok(v) => Ok(Output::Backend(v)),
        Err(_) => Err(Failure::MalformedResponse),
    }
}

/// Classifies the backend's answer: its status, and its body where it could be read.
pub fn classify_response(status: u16, body: Option<String>) -> (r: Result<Output, Failure>)
    ensures
        !is_success_status(status) ==> (r matches Ok(Output::Error(e))
            && e@ == envelope_of(error_type_for_status(status), error_message(body))),
        is_success_status(status) && body is None
            ==> r == Err::<Output, Failure>(Failure::UnreadableResponse),
        is_success_status(status) && body is Some
            ==> (r is Ok <==> is_json_text(body->0@)),
        is_success_status(status) && body is Some
            ==> (r is Ok ==> r->Ok_0 is Backend),
        is_success_status(status) && body is Some && !is_json_text(body->0@)
            ==> r == Err::<Output, Failure>(Failure::MalformedResponse),
{
    if !is_success(status) {
        return Ok(Output::Error(error_envelope(status, body)));
    }
    match body {
        Some(text) => success_output(parse_json(text.as_str())),
        None => Err(Failure::UnreadableResponse),
    }
}

} // verus!
