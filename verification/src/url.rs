//! Absolute URLs, as the `url` crate behind `reqwest::Url` reads them.
//!
//! The library keeps a URL as the text that `Url` writes for it. Parsing and
//! joining are left to `Url`; what is said of them here is believed, not
//! proved.

use vstd::prelude::*;

verus! {

/// What `Url::parse` makes of a text: the text that the parsed URL is
/// written as, or nothing where the text is no absolute URL.
pub uninterp spec fn url_parsed(raw: Seq<char>) -> Option<Seq<char>>;

/// What `Url::join` makes of a reference read against the base URL that
/// `base` parses to: the text that the joined URL is written as, or
/// nothing where `base` is no absolute URL or admits no such reference.
pub uninterp spec fn url_joined(base: Seq<char>, reference: Seq<char>) -> Option<Seq<char>>;

/// Calls `Url::parse` and hands out the URL as text. Believed: the outcome
/// is a function of the text alone, that is `url_parsed`.
#[verifier::external_body]
pub(crate) fn parse_url(raw: &str) -> (r: Option<String>)
    ensures
        match r {
            Some(url) => url_parsed(raw@) == Some(url@),
            None => url_parsed(raw@) is None,
        },
{
    reqwest::Url::parse(raw).ok().map(String::from)
}

/// Parses `base` and calls `Url::join` on it with `reference`. Believed:
/// the outcome is a function of the two texts alone, that is `url_joined`.
#[verifier::external_body]
pub(crate) fn join_url(base: &str, reference: &str) -> (r: Option<String>)
    ensures
        match r {
            Some(url) => url_joined(base@, reference@) == Some(url@),
            None => url_joined(base@, reference@) is None,
        },
{
    reqwest::Url::parse(base).ok()?.join(reference).ok().map(String::from)
}

} // verus!
