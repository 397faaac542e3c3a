use vstd::prelude::*;
use crate::directive::{resolve_token, resolved_token, select_scope, selected_scope, Config, Directive};
use crate::envelope::{
    envelope_of, Envelope, EnvelopeView, ErrorType, Failure, UNSUPPORTED_SCOPE_MESSAGE,
    UNSUPPORTED_VERSION_MESSAGE,
};
use crate::target::{endpoint_url, normalized_base_url, ENDPOINT_PATH};

verus! {

/// The one payload version that is forwarded.
pub const SUPPORTED_PAYLOAD_VERSION: &'static str = "3";

/// The one scope type that is forwarded.
pub const BEARER_TOKEN_SCOPE: &'static str = "BearerToken";

/// What the `Authorization` header holds before the token.
pub const BEARER_PREFIX: &'static str = "Bearer ";

/// The `Content-Type` of a forwarded directive.
pub const JSON_CONTENT_TYPE: &'static str = "application/json";

/// The total time that a forwarded directive may take.
pub const REQUEST_TIMEOUT_SECS: u64 = 10;

/// The HTTP POST that forwards a directive to the backend.
pub struct OutboundRequest {
    pub url: String,
    /// Value of the `Authorization` header.
    pub authorization: String,
    /// Value of the `Content-Type` header.
    pub content_type: String,
    pub timeout_secs: u64,
    pub accept_invalid_certs: bool,
    /// The inbound directive document, sent as it came.
    pub body: serde_json::Value,
}

pub struct RequestView {
    pub url: Seq<char>,
    pub authorization: Seq<char>,
    pub content_type: Seq<char>,
    pub timeout_secs: u64,
    pub accept_invalid_certs: bool,
    pub body: serde_json::Value,
}

impl View for OutboundRequest {
    type V = RequestView;

    open spec fn view(&self) -> RequestView {
        RequestView {
            url: self.url@,
            authorization: self.authorization@,
            content_type: self.content_type@,
            timeout_secs: self.timeout_secs,
            accept_invalid_certs: self.accept_invalid_certs,
            body: self.body,
        }
    }
}

/// What to do with a directive that can be handled.
pub enum Step {
    /// Answer at once, without contacting the backend.
    Respond(Envelope),
    /// Forward the directive to the backend.
    Send(OutboundRequest),
}

pub enum StepView {
    Respond(EnvelopeView),
    Send(RequestView),
}

impl View for Step {
    type V = StepView;

    open spec fn view(&self) -> StepView {
        match self {
            Step::Respond(e) => StepView::Respond(e@),
            Step::Send(q) => StepView::Send(q@),
        }
    }
}

pub open spec fn step_result_view(r: Result<Step, Failure>) -> Result<StepView, Failure> {
    match r {
        Ok(s) => Ok(s@),
        Err(e) => Err(e),
    }
}

/// The request that forwards `d` with the given token.
pub open spec fn request_for(d: Directive, c: Config, token: Seq<char>) -> RequestView {
    RequestView {
        url: endpoint_url(c.base_url@),
        authorization: BEARER_PREFIX@ + token,
        content_type: JSON_CONTENT_TYPE@,
        timeout_secs: REQUEST_TIMEOUT_SECS,
        accept_invalid_certs: c.accept_invalid_certs,
        body: d.document,
    }
}

/// The step for a directive: the checks of payload version, scope and token,
/// in that order, and then the request.
pub open spec fn planned_step(d: Directive, c: Config) -> Result<StepView, Failure> {
    match d.payload_version {
        None => Err(Failure::MissingPayloadVersion),
        Some(v) => if v@ != SUPPORTED_PAYLOAD_VERSION@ {
            Ok(StepView::Respond(envelope_of(ErrorType::InvalidDirective, UNSUPPORTED_VERSION_MESSAGE@)))
        } else {
            match selected_scope(d) {
                None => Err(Failure::MissingScope),
                Some(s) => match s.scope_type {
                    None => Err(Failure::MissingScopeType),
                    Some(t) => if t@ != BEARER_TOKEN_SCOPE@ {
                        Ok(StepView::Respond(envelope_of(ErrorType::InvalidScope, UNSUPPORTED_SCOPE_MESSAGE@)))
                    } else {
                        match resolved_token(s.token, c.fallback_token) {
                            None => Err(Failure::MissingToken),
                            Some(token) => Ok(StepView::Send(request_for(d, c, token))),
                        }
                    },
                },
            }
        },
    }
}

/// Decides what to do with an inbound directive.
pub fn prepare_request(directive: Directive, config: &Config) -> (r: Result<Step, Failure>)
    ensures
        step_result_view(r) == planned_step(directive, *config),
{
    let ghost d = directive;
    let version = match &directive.payload_version {
        Some(v) => v,
        None => return Err(Failure::MissingPayloadVersion),
    };
    if *version != String::from_str(SUPPORTED_PAYLOAD_VERSION) {
        return Ok(Step::Respond(Envelope::new(ErrorType::InvalidDirective, UNSUPPORTED_VERSION_MESSAGE)));
    }
    let scope = match select_scope(&directive) {
        Some(s) => s,
        None => return Err(Failure::MissingScope),
    };
    let scope_type = match &scope.scope_type {
        Some(t) => t,
        None => return Err(Failure::MissingScopeType),
    };
    if *scope_type != String::from_str(BEARER_TOKEN_SCOPE) {
        return Ok(Step::Respond(Envelope::new(ErrorType::InvalidScope, UNSUPPORTED_SCOPE_MESSAGE)));
    }
    let token = match resolve_token(&scope.token, &config.fallback_token) {
        Some(t) => t,
        None => return Err(Failure::MissingToken),
    };
    let mut authorization = String::from_str(BEARER_PREFIX);
    authorization.append(token.as_str());
    let mut url = normalized_base_url(config.base_url.as_str());
    url.append(ENDPOINT_PATH);
    let request = OutboundRequest {
        url,
        authorization,
        content_type: String::from_str(JSON_CONTENT_TYPE),
        timeout_secs: REQUEST_TIMEOUT_SECS,
        accept_invalid_certs: config.accept_invalid_certs,
        body: directive.document,
    };
    assert(request@ == request_for(d, *config, resolved_token(selected_scope(d)->0.token, config.fallback_token)->0));
    Ok(Step::Send(request))
}

} // verus!
