//! Matching option names against the name grammar, by way of the `regex` crate.

use vstd::prelude::*;
use regex::Regex;

verus! {

/// `regex::Regex`, carried through as an opaque value.
#[verifier::external_type_specification]
#[verifier::external_body]
pub struct ExRegex(Regex);

/// `regex::Error`, the error of a pattern that does not compile.
#[verifier::external_type_specification]
#[verifier::external_body]
pub struct ExRegexError(regex::Error);

/// Whether `regex::Regex::new` accepts `pattern` (default builder settings).
pub uninterp spec fn regex_compiles(pattern: Seq<char>) -> bool;

/// Whether the regex compiled from `pattern` finds a match in `haystack`
/// (`regex::Regex::is_match`).
pub uninterp spec fn regex_is_match(pattern: Seq<char>, haystack: Seq<char>) -> bool;

/// The grammar that option names must follow: 1 to 32 characters, each a
/// letter, a digit, a Devanagari or Thai character, `-`, `_` or `'`.
pub const NAME_PATTERN: &'static str = "^[-_'\\pL\\pN\\p{sc=Deva}\\p{sc=Thai}]{1,32}$";

/// A compiled regex together with the pattern it was compiled from.
///
/// Values are only made by `compile`, so `regex` always is the compilation
/// of `source`.
pub struct CompiledPattern {
    source: String,
    regex: Regex,
}

impl View for CompiledPattern {
    type V = Seq<char>;

    closed spec fn view(&self) -> Seq<char> {
        self.source@
    }
}

/// Calls `regex::Regex::new`. Trusted: the call succeeds exactly when
/// `regex_compiles` holds of the pattern, and the result remembers the
/// pattern it came from.
#[verifier::external_body]
fn compile(pattern: &str) -> (r: Result<CompiledPattern, regex::Error>)
    ensures
        r is Ok <==> regex_compiles(pattern@),
        r matches Ok(c) ==> c@ == pattern@,
{
    match Regex::new(pattern) {
        Ok(regex) => Ok(CompiledPattern { source: pattern.to_string(), regex }),
        Err(e) => Err(e),
    }
}

/// Calls `regex::Regex::is_match`. Trusted: the answer is `regex_is_match`
/// of the compiled pattern's source and the haystack.
#[verifier::external_body]
fn is_match(pattern: &CompiledPattern, haystack: &str) -> (b: bool)
    ensures
        b == regex_is_match(pattern@, haystack@),
{
    pattern.regex.is_match(haystack)
}

/// What matching a haystack against a pattern gave.
#[derive(Clone, Copy, Debug, PartialEq, Eq, Structural)]
pub enum PatternOutcome {
    /// The pattern compiled and matched.
    Matched,
    /// The pattern compiled and did not match.
    NotMatched,
    /// The pattern did not compile.
    Unavailable,
}

/// The outcome of matching `haystack` against `pattern`.
pub open spec fn pattern_outcome(pattern: Seq<char>, haystack: Seq<char>) -> PatternOutcome {
    if !regex_compiles(pattern) {
        PatternOutcome::Unavailable
    } else if regex_is_match(pattern, haystack) {
        PatternOutcome::Matched
    } else {
        PatternOutcome::NotMatched
    }
}

/// Compiles `pattern` and matches `haystack` against it.
pub fn match_pattern(pattern: &str, haystack: &str) -> (o: PatternOutcome)
    ensures
        o == pattern_outcome(pattern@, haystack@),
{
    match compile(pattern) {
        Ok(compiled) => {
            if is_match(&compiled, haystack) {
                PatternOutcome::Matched
            } else {
                PatternOutcome::NotMatched
            }
        },
        Err(_) => PatternOutcome::Unavailable,
    }
}

/// Matches an option name against `NAME_PATTERN`.
pub fn match_name(name: &str) -> (o: PatternOutcome)
    ensures
        o == pattern_outcome(NAME_PATTERN@, name@),
{
    match_pattern(NAME_PATTERN, name)
}

} // verus!
