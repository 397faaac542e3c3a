use vstd::prelude::*;

verus! {

/// The authorization metadata of a directive.
pub struct Scope {
    /// `type`, where it is a string.
    pub scope_type: Option<String>,
    /// `token`, where it is a string.
    pub token: Option<String>,
}

/// What the translation reads of an inbound directive document.
pub struct Directive {
    /// The whole document, forwarded unchanged.
    pub document: serde_json::Value,
    /// `directive.header.payloadVersion`, where it is a string.
    pub payload_version: Option<String>,
    /// `directive.endpoint.scope`, where it is an object.
    pub endpoint_scope: Option<Scope>,
    /// `directive.payload.scope`, where it is an object.
    pub payload_scope: Option<Scope>,
    /// `directive.payload.grantee`, where it is an object.
    pub grantee: Option<Scope>,
}

/// Process-wide configuration, read once.
pub struct Config {
    /// Where the backend is; trailing slashes do not matter.
    pub base_url: String,
    /// The token used when a directive carries none.
    pub fallback_token: Option<String>,
    /// Whether the backend's TLS certificate goes unchecked.
    pub accept_invalid_certs: bool,
}

/// The locations where a scope may stand, in the order they are consulted:
/// `directive.endpoint.scope`, `directive.payload.scope`, `directive.payload.grantee`.
pub open spec fn scope_candidates(d: Directive) -> Seq<Option<Scope>> {
    seq![d.endpoint_scope, d.payload_scope, d.grantee]
}

/// The first of the candidates that holds a scope.
pub open spec fn first_present(candidates: Seq<Option<Scope>>) -> Option<Scope>
    decreases candidates.len(),
{
    if candidates.len() == 0 {
        None
    } else if candidates[0] is Some {
        candidates[0]
    } else {
        first_present(candidates.drop_first())
    }
}

/// The scope consulted: the first of the three locations that holds one.
pub open spec fn selected_scope(d: Directive) -> Option<Scope> {
    first_present(scope_candidates(d))
}

/// The token in use: the scope's own where it is non-empty, else the fallback.
pub open spec fn resolved_token(token: Option<String>, fallback: Option<String>) -> Option<Seq<char>> {
    match token {
        Some(t) if t@.len() > 0 => Some(t@),
        _ => match fallback {
            Some(f) => Some(f@),
            None => None,
        },
    }
}

/// The scope at the first location that holds one.
pub fn select_scope(d: &Directive) -> (r: Option<&Scope>)
    ensures
        r == match selected_scope(*d) {
            Some(s) => Some(&s),
            None => None::<&Scope>,
        },
{
    let candidates: [&Option<Scope>; 3] = [&d.endpoint_scope, &d.payload_scope, &d.grantee];
    let ghost locations = candidates@.map_values(|c: &Option<Scope>| *c);
    assert(locations.subrange(0, 3) =~= scope_candidates(*d));
    let mut i: usize = 0;
    while i < 3
        invariant
            i <= 3,
            candidates@.len() == 3,
            locations == candidates@.map_values(|c: &Option<Scope>| *c),
            first_present(locations.subrange(i as int, 3)) == selected_scope(*d),
        decreases 3 - i,
    {
        assert(locations.subrange(i as int, 3).drop_first() =~= locations.subrange(i + 1, 3));
        if let Some(s) = candidates[i] {
            return Some(s);
        }
        i = i + 1;
    }
    None
}

/// The token to present: the scope's own where it is non-empty, else the fallback.
pub fn resolve_token<'a>(token: &'a Option<String>, fallback: &'a Option<String>) -> (r: Option<&'a String>)
    ensures
        match r {
            Some(t) => resolved_token(*token, *fallback) == Some(t@),
            None => resolved_token(*token, *fallback) is None,
        },
{
    match token {
        Some(t) if !t.as_str().is_empty() => Some(t),
        _ => fallback.as_ref(),
    }
}

} // verus!
