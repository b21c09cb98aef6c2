//! The pattern-matching interface the test discoverer consumes: compiling a
//! pattern and extracting the captured test identifier from a file name. The
//! engine is the `regex` crate; what it returns is a function of the pattern
//! and the text alone, named here by two uninterpreted spec functions.

use vstd::prelude::*;

verus! {

/// Whether the regex engine accepts `pattern` as well-formed syntax.
pub uninterp spec fn pattern_compiles(pattern: Seq<char>) -> bool;

/// The identifier the regex engine extracts when `pattern` is run against
/// `text`: the text of the pattern's first capture group at the leftmost
/// match, or `None` when the pattern does not match `text` or that group does
/// not participate in the match.
pub uninterp spec fn captured_id(pattern: Seq<char>, text: Seq<char>) -> Option<Seq<char>>;

/// Relies on `regex::Regex::new`: whether a pattern compiles depends on the
/// pattern text alone.
#[verifier::external_body]
pub(crate) fn pattern_is_valid(pattern: &str) -> (r: bool)
    ensures
        r == pattern_compiles(pattern@),
{
    regex::Regex::new(pattern).is_ok()
}

/// Relies on `regex::Regex::captures` (and `regex::Regex::new` to compile the
/// pattern): the leftmost match and its capture groups depend on the pattern
/// and the text alone. Returns the first capture group's text.
#[verifier::external_body]
pub(crate) fn pattern_extract_id(pattern: &str, text: &str) -> (r: Option<String>)
    requires
        pattern_compiles(pattern@),
    ensures
        r.deep_view() == captured_id(pattern@, text@),
{
    match regex::Regex::new(pattern) {
        Ok(re) => re.captures(text).and_then(|c| c.get(1)).map(|m| m.as_str().to_owned()),
        Err(_) => None,
    }
}

} // verus!
