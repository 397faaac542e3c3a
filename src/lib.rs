//! Translation of smart-home directives into requests to a home-automation
//! backend, and of the backend's answers into directive responses.
//!
//! The library decides; the surrounding program performs the one HTTP call.
mod directive;
mod envelope;
mod json;
mod laws;
mod response;
mod target;
mod translate;

pub use directive::{
    first_present, resolve_token, resolved_token, scope_candidates, select_scope, selected_scope,
    Config, Directive, Scope,
};
pub use envelope::{
    envelope_of, Envelope, EnvelopeView, ErrorType, Failure, UNKNOWN_ERROR_MESSAGE,
    UNSUPPORTED_SCOPE_MESSAGE, UNSUPPORTED_VERSION_MESSAGE,
};
pub use json::is_json_text;
pub use laws::{
    lemma_endpoint_scope_first, lemma_token_precedence, lemma_unsupported_scope_answered,
    lemma_unsupported_version_answered,
};
pub use response::{
    classify_response, error_envelope, error_message, error_type_for_status, is_success,
    is_success_status, success_output, Output,
};
pub use target::{
    endpoint_url, lemma_trailing_slash_ignored, normalized_base_url, trim_trailing_slashes,
    ENDPOINT_PATH,
};
pub use translate::{
    planned_step, prepare_request, request_for, step_result_view, OutboundRequest, RequestView,
    Step, StepView, BEARER_PREFIX, BEARER_TOKEN_SCOPE, JSON_CONTENT_TYPE, REQUEST_TIMEOUT_SECS,
    SUPPORTED_PAYLOAD_VERSION,
};
