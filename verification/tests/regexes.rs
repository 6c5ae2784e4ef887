use filter_engine::regex_ext::RegexError;
use filter_engine::regex_pool::RegexPool;
use filter_engine::regex_value::{
    Error, GenericRegexBuilder, GenericRegexMatcher, NoCustomMatchers, ParserSettings,
    RegexFormat, RegexValue, SimpleRegex,
};

#[test]
fn test_compiled_size_limit() {
    let compiled_size_limit: usize = 1024 * 1024;
    let mut parser = ParserSettings::new();
    parser.regex_set_compiled_size_limit(compiled_size_limit);
    assert_eq!(
        SimpleRegex::new(".{4079,65535}", RegexFormat::Literal, &parser),
        Err(RegexError::CompiledTooBig(compiled_size_limit))
    );
}

#[test]
fn simple_regex_round_trips_and_matches() {
    let parser = ParserSettings::new();
    let re = SimpleRegex::new("a+b", RegexFormat::Literal, &parser).unwrap();
    assert_eq!(re.as_str(), "a+b");
    assert_eq!(re.format(), RegexFormat::Literal);
    assert!(re.is_match(b"xxaaab"));
    assert!(!re.is_match(b"xxb"));
}

#[test]
fn regex_value_without_builder_uses_the_default_engine() {
    let parser = ParserSettings::new();
    let re: RegexValue<NoCustomMatchers> =
        RegexValue::new("c.d", RegexFormat::Wildcard, &parser).unwrap();
    assert!(matches!(re, RegexValue::Simple(_)));
    assert_eq!(re.as_str(), "c.d");
    assert_eq!(re.format(), RegexFormat::Wildcard);
    assert!(re.is_match(b"cxd"));
    assert!(!re.is_match(b"cx"));
}

#[test]
fn regex_value_reports_syntax_errors() {
    let parser = ParserSettings::new();
    let err = RegexValue::<NoCustomMatchers>::new("[", RegexFormat::Literal, &parser).unwrap_err();
    assert!(matches!(err, Error::SimpleRegexErr(RegexError::Syntax(_))));
}

#[derive(Debug)]
struct SuffixMatcher {
    suffix: Vec<u8>,
}

impl GenericRegexMatcher for SuffixMatcher {
    fn is_match(&self, text: &[u8]) -> bool {
        text.ends_with(&self.suffix)
    }
}

#[derive(Debug)]
struct SuffixOnlyBuilder;

impl GenericRegexBuilder for SuffixOnlyBuilder {
    type Matcher = SuffixMatcher;

    fn build_pattern(&self, pattern: &str) -> Option<SuffixMatcher> {
        let rest = pattern.strip_prefix(".*")?;
        Some(SuffixMatcher { suffix: rest.as_bytes().to_vec() })
    }
}

#[test]
fn regex_value_with_builder_uses_the_custom_matcher() {
    let parser = ParserSettings {
        regex_compiled_size_limit: 1024,
        regex_dfa_size_limit: 1024,
        gen_regex_builder: Some(SuffixOnlyBuilder),
    };
    let re = RegexValue::new(".*tail", RegexFormat::Literal, &parser).unwrap();
    assert!(matches!(re, RegexValue::Gen(_)));
    assert_eq!(re.as_str(), ".*tail");
    assert!(re.is_match(b"has a tail"));
    assert!(!re.is_match(b"tail has"));

    let declined =
        RegexValue::<SuffixMatcher>::new("^head", RegexFormat::Literal, &parser).unwrap_err();
    assert_eq!(
        declined,
        Error::UnsupportedPattern { pattern: "^head".to_owned() }
    );
}

#[test]
fn pool_interns_each_pattern_once() {
    let mut pool = RegexPool::new();
    let one = pool.intern("a+").unwrap();
    assert_eq!(pool.len(), 1);
    let two = pool.intern("a+").unwrap();
    assert_eq!(pool.len(), 1);
    assert!(pool.contains("a+"));
    assert_eq!(one.as_str(), "a+");
    assert_eq!(two.as_str(), "a+");
    assert!(one.is_match(b"xa"));
    assert!(!one.is_match(b"x"));
    assert_eq!(one, two);

    let other = pool.intern("b+").unwrap();
    assert_eq!(pool.len(), 2);
    assert_ne!(one, other);

    assert!(pool.release(one).is_none());
    assert_eq!(pool.len(), 2);
    let evicted = pool.release(two).unwrap();
    assert_eq!(evicted.as_str(), "a+");
    assert_eq!(pool.len(), 1);
    assert!(!pool.contains("a+"));
    assert!(pool.release(other).is_some());
    assert_eq!(pool.len(), 0);
}

#[test]
fn pool_rejects_bad_patterns_unchanged() {
    let mut pool = RegexPool::new();
    assert!(matches!(pool.intern("("), Err(RegexError::Syntax(_))));
    assert_eq!(pool.len(), 0);
}

#[test]
fn pooled_regex_round_trips_pattern() {
    let mut pool = RegexPool::new();
    let re = pool.intern("^ab?c$").unwrap();
    assert_eq!(re.as_str(), "^ab?c$");
    assert!(re.is_match(b"ac"));
    assert!(!re.is_match(b"abbc"));
    let evicted = pool.release(re);
    assert!(evicted.is_some());
}
