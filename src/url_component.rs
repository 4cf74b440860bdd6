//! Host names as the cookie jar compares them.

use crate::text::{contains_seq, contains_str, starts_with_seq, starts_with_str};
use vstd::prelude::*;
use vstd::string::{StrSliceExecFns, StringExecFns};

verus! {

/// Errors of reading a URL.
#[derive(Debug, Clone, PartialEq)]
pub enum UrlParseError {
    InvalidUrl(String),
    NoHost,
    ParseError,
}

/// The lower-case form of a string.
pub uninterp spec fn lower_of(s: Seq<char>) -> Seq<char>;

/// Relies on `str::to_lowercase`: the result depends on the characters alone,
/// and the empty string stays empty.
#[verifier::external_body]
fn lowercase(s: &str) -> (r: String)
    ensures
        r@ == lower_of(s@),
        s@.len() == 0 ==> r@.len() == 0,
{
    s.to_lowercase()
}

/// A lower-cased host without a leading `www.`.
pub open spec fn strip_www(lower: Seq<char>) -> Seq<char> {
    if starts_with_seq(lower, "www."@) {
        lower.subrange(4, lower.len() as int)
    } else {
        lower
    }
}

/// The host in lower case, without a leading `www.`.
pub fn normalize_domain(host: &str) -> (r: String)
    ensures
        r@ == strip_www(lower_of(host@)),
{
    let lower = lowercase(host);
    strip_www_prefix(lower)
}

/// `lower` without a leading `www.`.
pub fn strip_www_prefix(lower: String) -> (r: String)
    ensures
        r@ == strip_www(lower@),
{
    if starts_with_str(lower.as_str(), "www.") {
        proof {
            reveal_strlit("www.");
        }
        let n = lower.as_str().unicode_len();
        String::from_str(lower.as_str().substring_char(4, n))
    } else {
        lower
    }
}

/// A URL with a scheme: as given when it holds `://`, else with `http://`
/// put in front.
pub fn with_scheme(url: &str) -> (r: String)
    ensures
        contains_seq(url@, "://"@) ==> r@ == url@,
        !contains_seq(url@, "://"@) ==> r@ == "http://"@ + url@,
{
    if contains_str(url, "://") {
        String::from_str(url)
    } else {
        let mut out = String::from_str("http://");
        out.append(url);
        out
    }
}

} // verus!
