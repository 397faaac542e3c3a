use vstd::prelude::*;

verus! {

#[verifier::external_type_specification]
#[verifier::external_body]
pub struct ExValue(serde_json::Value);

#[verifier::external_type_specification]
#[verifier::external_body]
pub struct ExJsonError(serde_json::Error);

/// Whether serde_json accepts the text as one JSON document.
pub uninterp spec fn is_json_text(s: Seq<char>) -> bool;

/// Relies on serde_json::from_str: it succeeds exactly when the text is one
/// JSON document, which depends on the text alone.
#[verifier::external_body]
pub(crate) fn parse_json(s: &str) -> (r: Result<serde_json::Value, serde_json::Error>)
    ensures
        r is Ok <==> is_json_text(s@),
{
    serde_json::from_str(s)
}

} // verus!
