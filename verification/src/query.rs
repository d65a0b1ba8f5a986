//! Building catalog request URLs.  The library assembles the base URL
//! and the raw query parameters itself; turning them into one
//! percent-encoded URL string is delegated to the `url` parser that
//! `reqwest` re-exports, behind a single trusted wrapper.

use vstd::prelude::*;
use vstd::string::StrSliceExecFns;

verus! {

/// The percent-encoded URL that parsing `base` as an absolute URL and
/// appending `params` to its query string yields, or `None` when
/// `base` is not a well-formed absolute URL.  The encoding is a pure
/// function of the two arguments; its full definition lives in the URL
/// standard and is not restated here.
pub uninterp spec fn url_with_params(base: Seq<char>, params: Seq<(Seq<char>, Seq<char>)>) -> Option<
    Seq<char>,
>;

/// The views of a list of parameter pairs.
pub open spec fn param_views(params: Seq<(String, String)>) -> Seq<(Seq<char>, Seq<char>)> {
    params.map_values(|p: (String, String)| (p.0@, p.1@))
}

/// Relies on `reqwest::Url::parse_with_params` (the `url` crate): it
/// parses `base` as an absolute URL, appends each pair of `params`
/// percent-encoded to the query string, and fails exactly when `base`
/// cannot be parsed as an absolute URL; the result depends on the
/// arguments alone.
#[verifier::external_body]
pub fn build_url(base: &str, params: &Vec<(String, String)>) -> (r: Option<String>)
    ensures
        match r {
            Some(u) => url_with_params(base@, param_views(params@)) == Some(u@),
            None => url_with_params(base@, param_views(params@)) is None,
        },
{
    match reqwest::Url::parse_with_params(base, params.iter().map(|p| (p.0.as_str(), p.1.as_str())))
    {
        Ok(u) => Some(u.as_str().to_owned()),
        Err(_) => None,
    }
}

} // verus!
