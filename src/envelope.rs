use vstd::prelude::*;

verus! {

/// The error kinds of a directive response.
#[derive(Clone, Copy, Debug, PartialEq, Eq, Structural)]
pub enum ErrorType {
    InvalidDirective,
    InvalidScope,
    InvalidAuthorizationCredential,
    InternalError,
}

impl ErrorType {
    /// The tag that the `type` field of an error response carries.
    pub open spec fn spec_tag(self) -> Seq<char> {
        match self {
            ErrorType::InvalidDirective => "INVALID_DIRECTIVE"@,
            ErrorType::InvalidScope => "INVALID_SCOPE"@,
            ErrorType::InvalidAuthorizationCredential => "INVALID_AUTHORIZATION_CREDENTIAL"@,
            ErrorType::InternalError => "INTERNAL_ERROR"@,
        }
    }

    /// The text of the `type` field.
    pub fn tag(&self) -> (r: &'static str)
        ensures
            r@ == self.spec_tag(),
    {
        match self {
            ErrorType::InvalidDirective => "INVALID_DIRECTIVE",
            ErrorType::InvalidScope => "INVALID_SCOPE",
            ErrorType::InvalidAuthorizationCredential => "INVALID_AUTHORIZATION_CREDENTIAL",
            ErrorType::InternalError => "INTERNAL_ERROR",
        }
    }
}

/// Message of the response to a directive of an unsupported payload version.
pub const UNSUPPORTED_VERSION_MESSAGE: &'static str = "Only payloadVersion 3 is supported";

/// Message of the response to a directive whose scope is not a bearer token.
pub const UNSUPPORTED_SCOPE_MESSAGE: &'static str = "Only BearerToken is supported";

/// Message of an error response when the backend gave no readable text.
pub const UNKNOWN_ERROR_MESSAGE: &'static str = "Unknown error";

/// A synthesized error response: `{"event":{"payload":{"type":..,"message":..}}}`.
pub struct Envelope {
    pub error_type: ErrorType,
    pub message: String,
}

/// What an error response says, as values.
pub struct EnvelopeView {
    pub error_type: ErrorType,
    pub message: Seq<char>,
}

impl View for Envelope {
    type V = EnvelopeView;

    open spec fn view(&self) -> EnvelopeView {
        EnvelopeView { error_type: self.error_type, message: self.message@ }
    }
}

/// The error response of the given kind and message.
pub open spec fn envelope_of(error_type: ErrorType, message: Seq<char>) -> EnvelopeView {
    EnvelopeView { error_type, message }
}

impl Envelope {
    /// The error response of the given kind, with a copy of `message`.
    pub fn new(error_type: ErrorType, message: &str) -> (r: Envelope)
        ensures
            r@ == envelope_of(error_type, message@),
    {
        Envelope { error_type, message: String::from_str(message) }
    }
}

/// A failure of the whole invocation: no directive response is produced.
#[derive(Clone, Copy, Debug, PartialEq, Eq, Structural)]
pub enum Failure {
    /// `directive.header.payloadVersion` is absent or not a string.
    MissingPayloadVersion,
    /// None of the scope locations holds an object.
    MissingScope,
    /// The scope's `type` is absent or not a string.
    MissingScopeType,
    /// Neither the scope nor the configuration provides a token.
    MissingToken,
    /// The backend reported success but its body could not be read.
    UnreadableResponse,
    /// The backend reported success but its body is not JSON.
    MalformedResponse,
}

impl Failure {
    /// A short text that says what went wrong.
    pub fn description(&self) -> &'static str {
        match self {
            Failure::MissingPayloadVersion => "Only payloadVersion 3 is supported",
            Failure::MissingScope => "Malformatted request - missing endpoint.scope",
            Failure::MissingScopeType => "Invalid scope type",
            Failure::MissingToken => "Missing token",
            Failure::UnreadableResponse => "Backend response body could not be read",
            Failure::MalformedResponse => "Backend response body is not valid JSON",
        }
    }
}

} // verus!
