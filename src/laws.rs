use vstd::prelude::*;
use crate::directive::{scope_candidates, selected_scope, Config, Directive};
use crate::envelope::{
    envelope_of, ErrorType, Failure, UNSUPPORTED_SCOPE_MESSAGE, UNSUPPORTED_VERSION_MESSAGE,
};
use crate::translate::{planned_step, StepView, BEARER_PREFIX, BEARER_TOKEN_SCOPE, SUPPORTED_PAYLOAD_VERSION};

verus! {

/// A directive whose payload version is a string other than the supported one
/// is answered with the invalid-directive response, and nothing is sent.
pub proof fn lemma_unsupported_version_answered(d: Directive, c: Config)
    requires
        d.payload_version is Some,
        d.payload_version->0@ != SUPPORTED_PAYLOAD_VERSION@,
    ensures
        planned_step(d, c) == Ok::<StepView, Failure>(
            StepView::Respond(envelope_of(ErrorType::InvalidDirective, UNSUPPORTED_VERSION_MESSAGE@)),
        ),
{
}

/// A directive of the supported version whose scope has a type other than a
/// bearer token is answered with the invalid-scope response, and nothing is sent.
pub proof fn lemma_unsupported_scope_answered(d: Directive, c: Config)
    requires
        d.payload_version is Some,
        d.payload_version->0@ == SUPPORTED_PAYLOAD_VERSION@,
        selected_scope(d) is Some,
        selected_scope(d)->0.scope_type is Some,
        selected_scope(d)->0.scope_type->0@ != BEARER_TOKEN_SCOPE@,
    ensures
        planned_step(d, c) == Ok::<StepView, Failure>(
            StepView::Respond(envelope_of(ErrorType::InvalidScope, UNSUPPORTED_SCOPE_MESSAGE@)),
        ),
{
}

/// For a directive that passes the version and scope checks, the scope's own
/// non-empty token wins over the configured one; without it the configured one
/// is used; without both the invocation fails.
pub proof fn lemma_token_precedence(d: Directive, c: Config)
    requires
        d.payload_version is Some,
        d.payload_version->0@ == SUPPORTED_PAYLOAD_VERSION@,
        selected_scope(d) is Some,
        selected_scope(d)->0.scope_type is Some,
        selected_scope(d)->0.scope_type->0@ == BEARER_TOKEN_SCOPE@,
    ensures
        ({
            let token = selected_scope(d)->0.token;
            let own = token is Some && token->0@.len() > 0;
            &&& own ==> (planned_step(d, c) matches Ok(StepView::Send(q))
                && q.authorization == BEARER_PREFIX@ + token->0@)
            &&& !own && c.fallback_token is Some ==> (planned_step(d, c) matches Ok(StepView::Send(q))
                && q.authorization == BEARER_PREFIX@ + c.fallback_token->0@)
            &&& !own && c.fallback_token is None ==> planned_step(d, c) == Err::<StepView, Failure>(
                Failure::MissingToken,
            )
        }),
{
}

/// Where `directive.endpoint.scope` is present, it is the scope consulted, and
/// the scopes at the other two locations make no difference.
pub proof fn lemma_endpoint_scope_first(d: Directive, c: Config)
    requires
        d.endpoint_scope is Some,
    ensures
        selected_scope(d) == d.endpoint_scope,
        planned_step(d, c) == planned_step(Directive { payload_scope: None, grantee: None, ..d }, c),
{
    let alone = Directive { payload_scope: None, grantee: None, ..d };
    assert(scope_candidates(d)[0] is Some);
    assert(scope_candidates(alone)[0] == d.endpoint_scope);
}

} // verus!
