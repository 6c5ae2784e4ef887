//! The pluggable regular-expression value: a host may register a custom
//! matcher builder, in which case patterns are handed to it; otherwise the
//! default engine compiles them under caller-adjustable size limits, so that
//! adversarial patterns are rejected rather than compiled without bound.

use vstd::prelude::*;

use crate::regex_ext::{
    regex_build_limited, regex_is_match, regex_match, regex_pattern, RegexError,
};

verus! {

/// Where a pattern literal came from.
#[derive(Debug, Clone, Copy, PartialEq, Eq, Structural)]
pub enum RegexFormat {
    /// Written as a regular-expression literal.
    Literal,
    /// Derived from a wildcard expression.
    Wildcard,
}

/// A failure to build a regular-expression value.
#[derive(Debug, Clone, PartialEq, Eq)]
pub enum Error {
    /// The host's custom matcher builder declined the pattern; a recoverable
    /// per-pattern failure.
    UnsupportedPattern {
        /// The original pattern.
        pattern: String,
    },
    /// The default engine failed to compile the pattern.
    SimpleRegexErr(RegexError),
}

/// A matcher a host supplies in place of the default engine.
pub trait GenericRegexMatcher {
    /// Whether the matcher accepts the text.
    fn is_match(&self, text: &[u8]) -> bool;
}

/// The host's factory for custom matchers; it may decline a pattern.
pub trait GenericRegexBuilder {
    /// The matcher type this builder produces.
    type Matcher: GenericRegexMatcher;

    /// Builds a matcher for the pattern, or declines it.
    fn build_pattern(&self, pattern: &str) -> Option<Self::Matcher>;
}

/// A builder that is never registered: it produces no matcher, so the
/// default engine is always used.
#[derive(Debug, Clone, Copy, PartialEq, Eq, Structural)]
pub struct NoCustomMatchers;

impl GenericRegexMatcher for NoCustomMatchers {
    fn is_match(&self, _text: &[u8]) -> bool {
        false
    }
}

impl GenericRegexBuilder for NoCustomMatchers {
    type Matcher = NoCustomMatchers;

    fn build_pattern(&self, _pattern: &str) -> Option<NoCustomMatchers> {
        None
    }
}

/// The configuration handle the parser supplies for regex compilation: the
/// optional custom matcher builder and the resource limits for the default
/// engine.
#[derive(Debug)]
pub struct ParserSettings<B> {
    /// Bound on a compiled pattern's program size, in bytes.
    pub regex_compiled_size_limit: usize,
    /// Bound on a compiled pattern's lazy state-machine size, in bytes.
    pub regex_dfa_size_limit: usize,
    /// The host's custom matcher builder, if one was registered.
    pub gen_regex_builder: Option<B>,
}

impl ParserSettings<NoCustomMatchers> {
    /// Settings with the default engine's own limits (ten mebibytes for the
    /// compiled program, two for the lazy state machine) and no custom
    /// builder.
    pub fn new() -> (r: Self)
        ensures
            r.regex_compiled_size_limit == 10485760usize,
            r.regex_dfa_size_limit == 2097152usize,
            r.gen_regex_builder is None,
    {
        ParserSettings {
            regex_compiled_size_limit: 10485760,
            regex_dfa_size_limit: 2097152,
            gen_regex_builder: None,
        }
    }
}

impl<B> ParserSettings<B> {
    /// Replaces the compiled-size limit.
    pub fn regex_set_compiled_size_limit(&mut self, limit: usize)
        ensures
            final(self).regex_compiled_size_limit == limit,
            final(self).regex_dfa_size_limit == old(self).regex_dfa_size_limit,
            final(self).gen_regex_builder == old(self).gen_regex_builder,
    {
        self.regex_compiled_size_limit = limit;
    }
}

/// A pattern compiled by the default engine, byte-oriented (Unicode mode
/// disabled), under the configured size limits.
#[derive(Debug)]
pub struct SimpleRegex {
    compiled_regex: regex::bytes::Regex,
    source: String,
    format: RegexFormat,
}

impl SimpleRegex {
    /// The pattern string this value was built from.
    pub closed spec fn spec_source(&self) -> Seq<char> {
        self.source@
    }

    /// The format tag carried by this value.
    pub closed spec fn spec_format(&self) -> RegexFormat {
        self.format
    }

    /// The compiled pattern was built from the stored pattern string.
    pub closed spec fn wf(&self) -> bool {
        regex_pattern(self.compiled_regex) == self.source@
    }

    /// Compiles a pattern under the settings' size limits. On success the
    /// value carries exactly the given pattern and format; a
    /// compiled-too-big failure carries exactly the configured limit. Whether
    /// a pattern compiles is the engine's decision, so success is not owed
    /// for any input.
    pub fn new<B>(pattern: &str, format: RegexFormat, parser: &ParserSettings<B>) -> (r: Result<
        SimpleRegex,
        RegexError,
    >)
        ensures
            r matches Ok(re) ==> re.spec_source() == pattern@ && re.spec_format() == format
                && re.wf(),
            r matches Err(RegexError::CompiledTooBig(l)) ==> l == parser.regex_compiled_size_limit,
    {
        match regex_build_limited(
            pattern,
            parser.regex_compiled_size_limit,
            parser.regex_dfa_size_limit,
        ) {
            Ok(compiled_regex) => Ok(
                SimpleRegex { compiled_regex, source: pattern.to_owned(), format },
            ),
            Err(e) => Err(e),
        }
    }

    /// Returns true if and only if the pattern matches the given text.
    pub fn is_match(&self, text: &[u8]) -> (r: bool)
        requires
            self.wf(),
        ensures
            r == regex_match(self.spec_source(), text@),
    {
        regex_is_match(&self.compiled_regex, text)
    }

    /// Returns the original pattern string of this value.
    pub fn as_str(&self) -> (r: &str)
        ensures
            r@ == self.spec_source(),
    {
        self.source.as_str()
    }

    /// Returns the format behind this value.
    pub fn format(&self) -> (r: RegexFormat)
        ensures
            r == self.spec_format(),
    {
        self.format
    }
}

impl PartialEq for SimpleRegex {
    /// Equality is equality of the pattern strings.
    fn eq(&self, other: &Self) -> (r: bool) {
        self.source.eq(&other.source)
    }
}

impl vstd::std_specs::cmp::PartialEqSpecImpl for SimpleRegex {
    open spec fn obeys_eq_spec() -> bool {
        true
    }

    closed spec fn eq_spec(&self, other: &Self) -> bool {
        self.source@ == other.source@
    }
}

/// A pattern handed to the host's custom matcher, with the format tag.
#[derive(Debug)]
pub struct GenRegex<M> {
    matcher: M,
    source: String,
    format: RegexFormat,
}

impl<M> GenRegex<M> {
    /// The pattern string this value was built from.
    pub closed spec fn spec_source(&self) -> Seq<char> {
        self.source@
    }

    /// The format tag carried by this value.
    pub closed spec fn spec_format(&self) -> RegexFormat {
        self.format
    }
}

/// A regular-expression right-hand-side value: a matcher built by the host's
/// registered builder, or a pattern compiled by the default engine.
#[derive(Debug)]
pub enum RegexValue<M> {
    /// Built by the host's custom matcher builder.
    Gen(GenRegex<M>),
    /// Compiled by the default engine.
    Simple(SimpleRegex),
}

impl<M: GenericRegexMatcher> RegexValue<M> {
    /// The pattern string this value was built from.
    pub open spec fn spec_source(&self) -> Seq<char> {
        match self {
            RegexValue::Gen(g) => g.spec_source(),
            RegexValue::Simple(s) => s.spec_source(),
        }
    }

    /// The format tag carried by this value.
    pub open spec fn spec_format(&self) -> RegexFormat {
        match self {
            RegexValue::Gen(g) => g.spec_format(),
            RegexValue::Simple(s) => s.spec_format(),
        }
    }

    /// A simple value's compiled pattern was built from its stored pattern.
    pub open spec fn wf(&self) -> bool {
        match self {
            RegexValue::Gen(_) => true,
            RegexValue::Simple(s) => s.wf(),
        }
    }

    /// Builds a value for the pattern: with a registered builder the pattern
    /// is handed to it (which may decline it, a per-pattern failure naming
    /// the pattern); without one the default engine compiles it under the
    /// settings' limits. Whatever was built carries exactly the given
    /// pattern and format.
    pub fn new<B: GenericRegexBuilder<Matcher = M>>(
        pattern: &str,
        format: RegexFormat,
        parser: &ParserSettings<B>,
    ) -> (r: Result<Self, Error>)
        ensures
            r matches Ok(re) ==> re.spec_source() == pattern@ && re.spec_format() == format
                && re.wf(),
            parser.gen_regex_builder is None ==> ((r matches Ok(re) && re is Simple) || (
            r matches Err(Error::SimpleRegexErr(e)) && (e matches RegexError::CompiledTooBig(l)
                ==> l == parser.regex_compiled_size_limit))),
            parser.gen_regex_builder is Some ==> ((r matches Ok(re) && re is Gen) || (
            r matches Err(Error::UnsupportedPattern { pattern: p }) && p@ == pattern@)),
    {
        match &parser.gen_regex_builder {
            None => {
                match SimpleRegex::new(pattern, format, parser) {
                    Ok(simple_re) => Ok(RegexValue::Simple(simple_re)),
                    Err(e) => Err(Error::SimpleRegexErr(e)),
                }
            },
            Some(re_builder) => {
                match re_builder.build_pattern(pattern) {
                    Some(matcher) => Ok(
                        RegexValue::Gen(GenRegex { matcher, source: pattern.to_owned(), format }),
                    ),
                    None => Err(Error::UnsupportedPattern { pattern: pattern.to_owned() }),
                }
            },
        }
    }

    /// Whether this value matches the text: the custom matcher's answer, or
    /// the default engine's byte-oriented match.
    pub fn is_match(&self, text: &[u8]) -> (r: bool)
        requires
            self.wf(),
        ensures
            self matches RegexValue::Simple(s) ==> r == regex_match(self.spec_source(), text@),
    {
        match self {
            RegexValue::Gen(g) => g.matcher.is_match(text),
            RegexValue::Simple(s) => s.is_match(text),
        }
    }

    /// Returns the original pattern string of this value.
    pub fn as_str(&self) -> (r: &str)
        ensures
            r@ == self.spec_source(),
    {
        match self {
            RegexValue::Gen(g) => g.source.as_str(),
            RegexValue::Simple(s) => s.as_str(),
        }
    }

    /// Returns the format behind this value.
    pub fn format(&self) -> (r: RegexFormat)
        ensures
            r == self.spec_format(),
    {
        match self {
            RegexValue::Gen(g) => g.format,
            RegexValue::Simple(s) => s.format(),
        }
    }
}

} // verus!
