//! The boundary to the outside regular-expression engine: the compiled
//! pattern type is declared opaque, what it holds is named by `regex_pattern`,
//! and what matching computes by `regex_match`. Every compilation disables
//! Unicode mode, so matching is byte-oriented.

use vstd::prelude::*;

verus! {

#[verifier::external_type_specification]
#[verifier::external_body]
pub struct ExRegex(regex::bytes::Regex);

/// The pattern string a compiled regular expression was built from.
pub uninterp spec fn regex_pattern(re: regex::bytes::Regex) -> Seq<char>;

/// Whether the pattern, compiled byte-oriented, matches the text; a function
/// of the pattern string and the text alone.
pub uninterp spec fn regex_match(pattern: Seq<char>, text: Seq<u8>) -> bool;

/// A compilation failure of the outside engine.
#[derive(Debug, Clone, PartialEq, Eq)]
pub enum RegexError {
    /// The pattern is not valid regular-expression syntax; carries the
    /// engine's description.
    Syntax(String),
    /// The compiled program exceeded the configured size limit; carries that
    /// exact limit.
    CompiledTooBig(usize),
    /// Another failure of the engine.
    Other,
}

/// Relies on `regex::bytes::RegexBuilder`: `build` with Unicode mode disabled
/// compiles the pattern, `as_str` on the result returns the pattern it was
/// built from, and a `CompiledTooBig` error carries the size limit imposed
/// (here the builder's default). Whether a pattern compiles depends on the
/// engine's own syntax and size accounting, which varies across engine
/// versions and targets, so no success condition is stated.
#[verifier::external_body]
pub(crate) fn regex_build(pattern: &str) -> (r: Result<regex::bytes::Regex, RegexError>)
    ensures
        r matches Ok(re) ==> regex_pattern(re) == pattern@,
{
    match regex::bytes::RegexBuilder::new(pattern).unicode(false).build() {
        Ok(re) => Ok(re),
        Err(regex::Error::Syntax(s)) => Err(RegexError::Syntax(s)),
        Err(regex::Error::CompiledTooBig(l)) => Err(RegexError::CompiledTooBig(l)),
        Err(_) => Err(RegexError::Other),
    }
}

/// Relies on `regex::bytes::RegexBuilder`: as [`regex_build`], with
/// `size_limit` and `dfa_size_limit` applied; a `CompiledTooBig` error
/// carries exactly the imposed `size_limit`. Which patterns fit under a
/// limit is the engine's own accounting, so no success condition is stated.
#[verifier::external_body]
pub(crate) fn regex_build_limited(
    pattern: &str,
    size_limit: usize,
    dfa_size_limit: usize,
) -> (r: Result<regex::bytes::Regex, RegexError>)
    ensures
        r matches Ok(re) ==> regex_pattern(re) == pattern@,
        r matches Err(RegexError::CompiledTooBig(l)) ==> l == size_limit,
{
    match regex::bytes::RegexBuilder::new(pattern).unicode(false).size_limit(
        size_limit,
    ).dfa_size_limit(dfa_size_limit).build() {
        Ok(re) => Ok(re),
        Err(regex::Error::Syntax(s)) => Err(RegexError::Syntax(s)),
        Err(regex::Error::CompiledTooBig(l)) => Err(RegexError::CompiledTooBig(l)),
        Err(_) => Err(RegexError::Other),
    }
}

/// Relies on `regex::bytes::Regex::is_match`: the result is a function of the
/// compiled pattern and the haystack alone.
#[verifier::external_body]
pub(crate) fn regex_is_match(re: &regex::bytes::Regex, text: &[u8]) -> (r: bool)
    ensures
        r == regex_match(regex_pattern(*re), text@),
{
    re.is_match(text)
}

/// Relies on `regex::bytes::Regex`'s derived `Clone`: the clone shares the
/// compiled program and keeps the pattern it was built from.
#[verifier::external_body]
pub(crate) fn regex_clone(re: &regex::bytes::Regex) -> (r: regex::bytes::Regex)
    ensures
        regex_pattern(r) == regex_pattern(*re),
{
    re.clone()
}

} // verus!
