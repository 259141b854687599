//! The regex engine, as far as the builder uses it: it compiles a pattern,
//! gives a compiled pattern's text back, and replaces matches in a text.
//! Nothing in this file is proved; each item says what it takes on trust.

use regex::Regex;
use vstd::prelude::*;

verus! {

/// A compiled pattern of the engine.
#[verifier::external_type_specification]
#[verifier::external_body]
pub struct ExRegex(regex::Regex);

/// The engine's reason for refusing a pattern.
#[verifier::external_type_specification]
#[verifier::external_body]
pub struct ExEngineError(regex::Error);

/// The pattern text that `matcher` was compiled from.
pub uninterp spec fn pattern_text(matcher: Regex) -> Seq<char>;

/// `text` with every match of `matcher` replaced as `replacement` says.
pub uninterp spec fn replaced(matcher: Regex, text: Seq<char>, replacement: Seq<char>) -> Seq<char>;

/// The engine's message for `error`.
pub uninterp spec fn diagnostic_text(error: regex::Error) -> Seq<char>;

/// The engine's answer to `pattern`: its message where it refuses the
/// pattern, and `None` where it compiles it.
pub uninterp spec fn refusal(pattern: Seq<char>) -> Option<Seq<char>>;

/// `Regex::new` answers from the pattern text alone, with no option but
/// the engine's defaults: it either compiles the pattern or refuses it,
/// and a refusal carries the engine's message for that pattern. A
/// compiled pattern keeps the text that it was compiled from.
#[verifier::external_body]
pub(crate) fn compile_pattern(pattern: &str) -> (outcome: Result<Regex, regex::Error>)
    ensures
        outcome matches Ok(matcher) ==> refusal(pattern@) is None && pattern_text(matcher)
            == pattern@,
        outcome matches Err(error) ==> refusal(pattern@) == Some(diagnostic_text(error)),
{
    Regex::new(pattern)
}

/// `Regex::as_str` returns the text that the pattern was compiled from.
#[verifier::external_body]
pub(crate) fn compiled_from<'a>(matcher: &'a Regex) -> (text: &'a str)
    ensures
        text@ == pattern_text(*matcher),
{
    matcher.as_str()
}

/// `Regex::replace_all` with a replacement string: every match in `text`,
/// taken from left to right without overlap, gives way to `replacement`,
/// in which `$name` and `$N` stand for what a group captured. The contract
/// only names that result.
#[verifier::external_body]
pub(crate) fn replace_all(matcher: &Regex, text: &str, replacement: &str) -> (out: String)
    ensures
        out@ == replaced(*matcher, text@, replacement@),
{
    matcher.replace_all(text, replacement).into_owned()
}

/// The `Display` text of `regex::Error`. The contract only names it.
#[verifier::external_body]
pub(crate) fn diagnostic(error: &regex::Error) -> (text: String)
    ensures
        text@ == diagnostic_text(*error),
{
    error.to_string()
}

} // verus!
