use vstd::prelude::*;

verus! {

/// The path on the backend that accepts smart-home directives.
pub const ENDPOINT_PATH: &'static str = "/api/alexa/smart_home";

/// `s` without the run of `/` characters at its end.
pub open spec fn trim_trailing_slashes(s: Seq<char>) -> Seq<char>
    decreases s.len(),
{
    if s.len() > 0 && s.last() == '/' {
        trim_trailing_slashes(s.drop_last())
    } else {
        s
    }
}

/// The URL that a directive is posted to, for a configured base URL.
pub open spec fn endpoint_url(base: Seq<char>) -> Seq<char> {
    trim_trailing_slashes(base) + ENDPOINT_PATH@
}

/// A slash added at the end of a base URL does not change where directives go.
pub proof fn lemma_trailing_slash_ignored(base: Seq<char>)
    ensures
        endpoint_url(base.push('/')) == endpoint_url(base),
{
    assert(base.push('/').drop_last() =~= base);
}

/// The base URL with its trailing slashes removed.
pub fn normalized_base_url(base: &str) -> (r: String)
    ensures
        r@ == trim_trailing_slashes(base@),
{
    let n = base.unicode_len();
    let mut end: usize = n;
    assert(base@.subrange(0, n as int) =~= base@);
    while end > 0 && base.get_char(end - 1) == '/'
        invariant
            n == base@.len(),
            end <= n,
            trim_trailing_slashes(base@.subrange(0, end as int)) == trim_trailing_slashes(base@),
        decreases end,
    {
        assert(base@.subrange(0, end as int).drop_last() =~= base@.subrange(0, end - 1));
        end = end - 1;
    }
    String::from_str(base.substring_char(0, end))
}

} // verus!
