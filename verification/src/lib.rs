//! Verbal expressions: regular-expression patterns assembled by chaining
//! named operations instead of writing regex syntax by hand.
//!
//! A [`Verex`] gathers pattern text and two mode flags. Literal text is
//! escaped before it joins the pattern; text that is already regex syntax
//! joins it as it is. The source of a builder is its pattern text inside an
//! outer group that carries the flags, and that source is what the regex
//! engine compiles.
//!
//! Each function below starts a fresh builder and applies one operation to
//! it, so that a chain can begin with the operation itself.

pub mod decimal;
pub mod engine;
pub mod error;
pub mod escape;
pub mod laws;
pub mod modifiers;
pub mod pattern;
pub mod syntax;
pub mod text;
pub mod verex;

pub use crate::error::VerexError;
pub use crate::modifiers::{Modifier, Modifiers};
pub use crate::pattern::Pattern;
pub use crate::verex::{Expression, Verex, Void};

use crate::escape::escaped;
use crate::syntax::{
    anything_token, capturing_group, class, digit_token, group, line_break_text, optional,
    range_class, run_without, something_token, tab_token, word_token,
};
use vstd::prelude::*;

verus! {

/// Any one of the characters of `chars`, each taken literally.
pub fn any(chars: &str) -> (verex: Verex)
    ensures
        verex@ == Pattern::empty().append(class(escaped(chars@))),
{
    let mut verex = Verex::new();
    verex.any(chars);
    verex
}

/// Any one of the characters of `chars`, each taken literally.
pub fn any_of(chars: &str) -> (verex: Verex)
    ensures
        verex@ == Pattern::empty().append(class(escaped(chars@))),
{
    any(chars)
}

/// Any character, any number of times, captured.
pub fn anything() -> (verex: Verex)
    ensures
        verex@ == Pattern::empty().append(anything_token()),
{
    let mut verex = Verex::new();
    verex.anything();
    verex
}

/// Any number of characters, none of which is a character of `chars`.
pub fn anything_but(chars: &str) -> (verex: Verex)
    ensures
        verex@ == Pattern::empty().append(run_without(escaped(chars@), '*')),
{
    let mut verex = Verex::new();
    verex.anything_but(chars);
    verex
}

/// A line break of either kind.
pub fn br() -> (verex: Verex)
    ensures
        verex@ == Pattern::empty().append(line_break_text()),
{
    line_break()
}

/// Finds the literal text `value` and captures it.
pub fn capture(value: &str) -> (verex: Verex)
    ensures
        verex@ == Pattern::empty().append(capturing_group(escaped(value@))),
{
    let mut verex = Verex::new();
    verex.capture(value);
    verex
}

/// Finds what `expr` brings, taken as regex syntax and captured.
pub fn capture_expr(expr: Expression) -> (verex: Verex)
    ensures
        verex@ == Pattern::empty().append(capturing_group(expr.text())),
{
    let mut verex = Verex::new();
    verex.capture_expr(expr);
    verex
}

/// A digit.
pub fn digit() -> (verex: Verex)
    ensures
        verex@ == Pattern::empty().append(digit_token()),
{
    let mut verex = Verex::new();
    verex.digit();
    verex
}

/// The end of a line.
pub fn end_of_line() -> (verex: Verex)
    ensures
        verex@ == Pattern::empty().append(seq!['$']),
{
    let mut verex = Verex::new();
    verex.end_of_line();
    verex
}

/// Finds the literal text `value`.
pub fn find(value: &str) -> (verex: Verex)
    ensures
        verex@ == Pattern::empty().append(group(escaped(value@))),
{
    let mut verex = Verex::new();
    verex.find(value);
    verex
}

/// Finds what `expr` brings, taken as regex syntax.
pub fn find_expr(expr: Expression) -> (verex: Verex)
    ensures
        verex@ == Pattern::empty().append(group(expr.text())),
{
    let mut verex = Verex::new();
    verex.find_expr(expr);
    verex
}

/// A line break of either kind: a line feed, or a carriage return and a
/// line feed.
pub fn line_break() -> (verex: Verex)
    ensures
        verex@ == Pattern::empty().append(line_break_text()),
{
    let mut verex = Verex::new();
    verex.line_break();
    verex
}

/// The literal text `value`, once or not at all.
pub fn maybe(value: &str) -> (verex: Verex)
    ensures
        verex@ == Pattern::empty().append(optional(escaped(value@))),
{
    let mut verex = Verex::new();
    verex.maybe(value);
    verex
}

/// What `expr` brings, taken as regex syntax, once or not at all.
pub fn maybe_expr(expr: Expression) -> (verex: Verex)
    ensures
        verex@ == Pattern::empty().append(optional(expr.text())),
{
    let mut verex = Verex::new();
    verex.maybe_expr(expr);
    verex
}

/// A class of character ranges, such as `[a-zA-Z]`: each pair gives the
/// first and the last character of one range.
pub fn range(pairs: Vec<(char, char)>) -> (verex: Verex)
    ensures
        verex@ == Pattern::empty().append(range_class(pairs@)),
{
    let mut verex = Verex::new();
    verex.range(pairs);
    verex
}

/// A builder with no pattern text that matches `^` and `$` at each line
/// where `enable` does not hold, and at the start and end of the whole
/// text where it does.
pub fn search_one_line(enable: bool) -> (verex: Verex)
    ensures
        verex@ == Pattern::empty().with_flag(Modifier::MultiLine, !enable),
{
    let mut verex = Verex::new();
    verex.search_one_line(enable);
    verex
}

/// Any character, at least once, captured.
pub fn something() -> (verex: Verex)
    ensures
        verex@ == Pattern::empty().append(something_token()),
{
    let mut verex = Verex::new();
    verex.something();
    verex
}

/// One character or more, none of which is a character of `chars`.
pub fn something_but(chars: &str) -> (verex: Verex)
    ensures
        verex@ == Pattern::empty().append(run_without(escaped(chars@), '+')),
{
    let mut verex = Verex::new();
    verex.something_but(chars);
    verex
}

/// The start of a line.
pub fn start_of_line() -> (verex: Verex)
    ensures
        verex@ == Pattern::empty().append(seq!['^']),
{
    let mut verex = Verex::new();
    verex.start_of_line();
    verex
}

/// A tab.
pub fn tab() -> (verex: Verex)
    ensures
        verex@ == Pattern::empty().append(tab_token()),
{
    let mut verex = Verex::new();
    verex.tab();
    verex
}

/// A builder with no pattern text that matches letters without regard to
/// case where `enable` holds.
pub fn with_any_case(enable: bool) -> (verex: Verex)
    ensures
        verex@ == Pattern::empty().with_flag(Modifier::CaseInsensitive, enable),
{
    let mut verex = Verex::new();
    verex.with_any_case(enable);
    verex
}

/// A run of word characters.
pub fn word() -> (verex: Verex)
    ensures
        verex@ == Pattern::empty().append(group(word_token())),
{
    let mut verex = Verex::new();
    verex.word();
    verex
}

} // verus!
