//! The pattern text that each operation of the builder stands for, and the
//! source that a builder hands to the regex engine.

use crate::decimal::decimal;
use crate::modifiers::Modifier;
use vstd::prelude::*;

verus! {

/// The letters of the flags that are set: `i`, then `m`.
pub open spec fn flag_chars(modifiers: Set<Modifier>) -> Seq<char> {
    (if modifiers.contains(Modifier::CaseInsensitive) {
        seq!['i']
    } else {
        Seq::empty()
    }) + (if modifiers.contains(Modifier::MultiLine) {
        seq!['m']
    } else {
        Seq::empty()
    })
}

/// The fragment inside an outer non-capturing group that carries the
/// flags: `(?` flags `:` fragment `)`.
pub open spec fn effective_source(fragment: Seq<char>, modifiers: Set<Modifier>) -> Seq<char> {
    seq!['(', '?'] + flag_chars(modifiers) + seq![':'] + fragment + seq![')']
}

/// `inner` in a non-capturing group: `(?:` inner `)`.
pub open spec fn group(inner: Seq<char>) -> Seq<char> {
    seq!['(', '?', ':'] + inner + seq![')']
}

/// `inner` in a capturing group: `(` inner `)`.
pub open spec fn capturing_group(inner: Seq<char>) -> Seq<char> {
    seq!['('] + inner + seq![')']
}

/// `inner` once or not at all: `(?:` inner `)?`.
pub open spec fn optional(inner: Seq<char>) -> Seq<char> {
    group(inner) + seq!['?']
}

/// A class of the characters `inner`: `[` inner `]`.
pub open spec fn class(inner: Seq<char>) -> Seq<char> {
    seq!['['] + inner + seq![']']
}

/// A run of characters none of which is in `inner`, its length given by
/// the repetition sign `repeat`: `(?:[^` inner `]` repeat `)`.
pub open spec fn run_without(inner: Seq<char>, repeat: char) -> Seq<char> {
    group(seq!['[', '^'] + inner + seq![']', repeat])
}

/// The pairs as ranges of a class, in their order: `from` `-` `to` for each.
pub open spec fn range_items(pairs: Seq<(char, char)>) -> Seq<char>
    decreases pairs.len(),
{
    if pairs.len() == 0 {
        Seq::empty()
    } else {
        range_items(pairs.drop_last()) + seq![pairs.last().0, '-', pairs.last().1]
    }
}

/// A class made of ranges: `[` ranges `]`.
pub open spec fn range_class(pairs: Seq<(char, char)>) -> Seq<char> {
    class(range_items(pairs))
}

/// Exactly `n` times: `{` n `}`.
pub open spec fn repetition(n: nat) -> Seq<char> {
    seq!['{'] + decimal(n) + seq!['}']
}

/// From `n` to `m` times: `{` n `,` m `}`.
pub open spec fn repetition_between(n: nat, m: nat) -> Seq<char> {
    seq!['{'] + decimal(n) + seq![','] + decimal(m) + seq!['}']
}

/// Any character, any number of times, captured: `(.*)`.
pub open spec fn anything_token() -> Seq<char> {
    seq!['(', '.', '*', ')']
}

/// Any character, at least once, captured: `(.+)`.
pub open spec fn something_token() -> Seq<char> {
    seq!['(', '.', '+', ')']
}

/// A digit: `\d`.
pub open spec fn digit_token() -> Seq<char> {
    seq!['\\', 'd']
}

/// A tab: `\t`.
pub open spec fn tab_token() -> Seq<char> {
    seq!['\\', 't']
}

/// A run of word characters: `\w+`.
pub open spec fn word_token() -> Seq<char> {
    seq!['\\', 'w', '+']
}

/// A line feed: `\n`.
pub open spec fn line_feed_token() -> Seq<char> {
    seq!['\\', 'n']
}

/// A carriage return and a line feed: `\r\n`.
pub open spec fn carriage_return_line_feed_token() -> Seq<char> {
    seq!['\\', 'r', '\\', 'n']
}

/// A line break of either kind: `(?:\n|(?:\r\n))`.
pub open spec fn line_break_text() -> Seq<char> {
    group(line_feed_token() + seq!['|'] + group(carriage_return_line_feed_token()))
}

} // verus!
