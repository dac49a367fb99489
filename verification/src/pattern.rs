//! The regular-expression engine behind route patterns, and the URI parser
//! that judges a rewritten target. Nothing in this file is proved: each
//! contract states what the engine's documentation gives.
use vstd::prelude::*;

verus! {

/// A compiled regular expression of the `regex` crate.
#[verifier::external_type_specification]
#[verifier::external_body]
pub struct ExRegex(regex::Regex);

/// The error with which the `regex` crate refuses a pattern.
#[verifier::external_type_specification]
#[verifier::external_body]
pub struct ExRegexError(regex::Error);

/// Whether `regex::Regex::new` accepts `pattern`.
pub uninterp spec fn pattern_compiles(pattern: Seq<char>) -> bool;

/// Whether the regular expression written as `pattern` has a match anywhere
/// in `haystack`: what `regex::Regex::is_match` answers.
pub uninterp spec fn pattern_matches(pattern: Seq<char>, haystack: Seq<char>) -> bool;

/// The pattern text that a compiled expression holds: what
/// `regex::Regex::as_str` hands out.
pub uninterp spec fn regex_source(re: regex::Regex) -> Seq<char>;

/// Whether the `http` crate, as `hyper::Uri`, parses `text` as a URI.
pub uninterp spec fn uri_is_valid(text: Seq<char>) -> bool;

/// Calls `regex::Regex::new`. The call returns an error for a pattern with a
/// syntax error or one that compiles to more than the default size limit, and
/// otherwise an expression that holds the pattern it was made from. It depends
/// on the pattern alone.
#[verifier::external_body]
pub(crate) fn compile_pattern(pattern: &str) -> (r: Result<regex::Regex, regex::Error>)
    ensures
        r is Ok == pattern_compiles(pattern@),
        r is Ok ==> regex_source(r->Ok_0) == pattern@,
{
    regex::Regex::new(pattern)
}

/// Calls `regex::Regex::is_match`, which says whether the expression has a
/// match anywhere in the haystack. The answer depends on the expression's
/// pattern and the haystack alone.
#[verifier::external_body]
pub(crate) fn regex_is_match(re: &regex::Regex, haystack: &str) -> (r: bool)
    ensures
        r == pattern_matches(regex_source(*re), haystack@),
{
    re.is_match(haystack)
}

/// Parses `text` with `hyper::Uri`'s `FromStr` and says whether that
/// succeeded. The parser reads the bytes of the text and nothing else.
#[verifier::external_body]
pub(crate) fn parses_as_uri(text: &str) -> (r: bool)
    ensures
        r == uri_is_valid(text@),
{
    text.parse::<hyper::Uri>().is_ok()
}

} // verus!
