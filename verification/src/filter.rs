//! The allow filter: an optional regular expression that a route key has to
//! match for its route to be bridged.

use regex::Regex;
use vstd::prelude::*;

verus! {

/// `regex::Regex`, a compiled regular expression; nothing of its inside is
/// known here.
#[verifier::external_type_specification]
#[verifier::external_body]
pub struct ExRegex(Regex);

/// `regex::Error`, why a pattern did not compile; nothing of its inside is
/// known here.
#[verifier::external_type_specification]
#[verifier::external_body]
pub struct ExRegexError(regex::Error);

/// Whether `pattern` is a regular expression that the `regex` crate compiles.
pub uninterp spec fn regex_compiles(pattern: Seq<char>) -> bool;

/// Whether the regular expression `pattern` finds a match anywhere in `text`.
pub uninterp spec fn regex_matches(pattern: Seq<char>, text: Seq<char>) -> bool;

/// Why a pattern is no filter.
#[derive(Debug, Clone, PartialEq, Eq)]
pub enum FilterError {
    /// The pattern is no regular expression; the text says where it breaks.
    Syntax(String),
    /// The compiled expression would be larger than the given limit.
    TooBig(usize),
    /// Any other failure of the compilation.
    Other,
}

/// A compiled regular expression together with the pattern it was compiled
/// from. The fields are private and `new` is the only place that builds a
/// value, so `compiled` is always `Regex::new` of `pattern`.
pub struct AllowFilter {
    pattern: String,
    compiled: Regex,
}

/// `Regex::new`: compiles a pattern. The contract names when that succeeds;
/// a pattern is refused for its syntax or for the size of what it compiles to,
/// both of which depend on the pattern alone.
#[verifier::external_body]
fn compile(pattern: &str) -> (r: Result<Regex, regex::Error>)
    ensures
        r is Ok == regex_compiles(pattern@),
{
    Regex::new(pattern)
}

/// `Regex::is_match` on the expression of a filter: true if and only if the
/// expression matches somewhere in `text`. The contract speaks of the filter's
/// pattern, which is what the expression was compiled from.
#[verifier::external_body]
fn search(filter: &AllowFilter, text: &str) -> (r: bool)
    ensures
        r == regex_matches(filter.pattern@, text@),
{
    filter.compiled.is_match(text)
}

/// Tells the variants of `regex::Error` apart and moves what they carry.
/// Nothing is claimed of which variant an error is.
#[verifier::external_body]
fn filter_error(e: regex::Error) -> (r: FilterError) {
    match e {
        regex::Error::Syntax(message) => FilterError::Syntax(message),
        regex::Error::CompiledTooBig(limit) => FilterError::TooBig(limit),
        _ => FilterError::Other,
    }
}

impl AllowFilter {
    /// The pattern of the filter.
    pub closed spec fn pattern(&self) -> Seq<char> {
        self.pattern@
    }

    /// Compiles `pattern` into a filter. Fails exactly when the pattern does
    /// not compile.
    pub fn new(pattern: &str) -> (r: Result<AllowFilter, FilterError>)
        ensures
            r is Ok == regex_compiles(pattern@),
            r matches Ok(filter) ==> filter.pattern() == pattern@,
    {
        match compile(pattern) {
            Ok(compiled) => Ok(AllowFilter { pattern: pattern.to_owned(), compiled }),
            Err(e) => Err(filter_error(e)),
        }
    }

    /// The pattern as text.
    pub fn as_str(&self) -> (s: &str)
        ensures
            s@ == self.pattern(),
    {
        self.pattern.as_str()
    }

    /// Whether the filter's expression matches somewhere in `text`.
    pub fn is_match(&self, text: &str) -> (r: bool)
        ensures
            r == regex_matches(self.pattern(), text@),
    {
        search(self, text)
    }
}

/// The pattern of an optional filter.
pub open spec fn pattern_of(filter: Option<AllowFilter>) -> Option<Seq<char>> {
    match filter {
        Some(f) => Some(f.pattern()),
        None => None,
    }
}

/// A key is allowed if there is no pattern, or if the pattern matches it.
pub open spec fn allowed(pattern: Option<Seq<char>>, key: Seq<char>) -> bool {
    match pattern {
        Some(p) => regex_matches(p, key),
        None => true,
    }
}

/// Given what the match of the pattern against the key gave (`None` where
/// there is no pattern), whether the key is allowed.
pub fn allowed_by(found: Option<bool>) -> (r: bool)
    ensures
        r == (found != Some(false)),
{
    match found {
        Some(matched) => matched,
        None => true,
    }
}

/// Whether the filter lets the key `path` through.
pub fn is_allowed(sre: &Option<AllowFilter>, path: &str) -> (r: bool)
    ensures
        r == allowed(pattern_of(*sre), path@),
{
    let found = match sre {
        Some(filter) => Some(filter.is_match(path)),
        None => None,
    };
    allowed_by(found)
}

} // verus!
