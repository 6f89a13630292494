//! Regular-expression matching, delegated to the `regex` crate.
//!
//! What a pattern matches is not modelled here. Each call is given a name, a
//! function of the pattern and the text alone, and the library's contracts
//! speak of those names.

use regex::Regex;
use vstd::prelude::*;

verus! {

/// The text of capture group 1 in the leftmost match of `pattern` in `text`.
/// `None` when the pattern does not compile, when it matches nowhere, or when
/// group 1 took no part in the match.
pub uninterp spec fn regex_capture(pattern: Seq<char>, text: Seq<char>) -> Option<Seq<char>>;

/// `text` with the leftmost match of `pattern` removed; `text` itself when the
/// pattern does not compile or matches nowhere.
pub uninterp spec fn regex_strip(pattern: Seq<char>, text: Seq<char>) -> Seq<char>;

/// The characters of an optional string.
pub open spec fn opt_view(o: Option<String>) -> Option<Seq<char>> {
    match o {
        Some(s) => Some(s@),
        None => None,
    }
}

/// The characters of each of a run of optional strings.
pub open spec fn opt_views(s: Seq<Option<String>>) -> Seq<Option<Seq<char>>> {
    Seq::new(s.len(), |i: int| opt_view(s[i]))
}

/// Compiles `pattern` with `Regex::new`, runs `Regex::captures` on `text` and
/// hands back the text of group 1. The contract only names the result: equal
/// patterns and texts give equal results.
#[verifier::external_body]
pub(crate) fn capture_group(pattern: &str, text: &str) -> (r: Option<String>)
    ensures
        opt_view(r) == regex_capture(pattern@, text@),
{
    match Regex::new(pattern) {
        Ok(re) => match re.captures(text) {
            Some(caps) => match caps.get(1) {
                Some(m) => Some(m.as_str().to_string()),
                None => None,
            },
            None => None,
        },
        Err(_) => None,
    }
}

/// Compiles `pattern` with `Regex::new` and removes its leftmost match from
/// `text` with `Regex::replace`. The contract only names the result.
#[verifier::external_body]
pub(crate) fn strip_first_match(pattern: &str, text: &str) -> (r: String)
    ensures
        r@ == regex_strip(pattern@, text@),
{
    match Regex::new(pattern) {
        Ok(re) => re.replace(text, "").into_owned(),
        Err(_) => text.to_string(),
    }
}

} // verus!
