//! The builder: a pattern text and two flags behind chained operations,
//! and the way from there to the regex engine.

use crate::engine::{
    compile_pattern, compiled_from, diagnostic_text, pattern_text, refusal, replace_all, replaced,
};
use crate::error::VerexError;
use crate::decimal::to_decimal;
use crate::escape::{escape, escaped};
use crate::modifiers::{Modifier, Modifiers};
use crate::pattern::Pattern;
use crate::syntax::{
    anything_token, capturing_group, carriage_return_line_feed_token, class, digit_token,
    effective_source, group, line_break_text, line_feed_token, optional, range_class, range_items,
    repetition, repetition_between, run_without, something_token, tab_token, word_token,
};
use regex::Regex;
use vstd::prelude::*;
use vstd::string::StringExecFns;

verus! {

/// The source for a fragment and its flags, put together from scratch.
pub fn derive_source(fragment: &str, modifiers: Modifiers) -> (source: String)
    ensures
        source@ == effective_source(fragment@, modifiers@),
{
    let mut source = String::new();
    source.push('(');
    source.push('?');
    if modifiers.contains(Modifier::CaseInsensitive) {
        source.push('i');
    }
    if modifiers.contains(Modifier::MultiLine) {
        source.push('m');
    }
    source.push(':');
    source.append(fragment);
    source.push(')');
    source
}

/// Pattern text that is taken as regex syntax, from one of three places.
pub enum Expression<'e> {
    /// The text itself.
    String(&'e str),
    /// The source of another builder.
    Verex(&'e Verex),
    /// The text that a compiled pattern was compiled from.
    Regex(&'e Regex),
}

impl<'e> Expression<'e> {
    /// The regex syntax that this expression brings.
    pub open spec fn text(self) -> Seq<char> {
        match self {
            Expression::String(text) => text@,
            Expression::Verex(verex) => verex@.source(),
            Expression::Regex(matcher) => pattern_text(*matcher),
        }
    }

    /// The regex syntax that this expression brings.
    pub fn as_str(&self) -> (text: &'e str)
        ensures
            text@ == self.text(),
    {
        match self {
            Expression::String(text) => text,
            Expression::Verex(verex) => verex.source(),
            Expression::Regex(matcher) => compiled_from(matcher),
        }
    }
}

/// What the builder reports for what the engine returned: a compiled
/// pattern goes through as it is, and a refusal becomes `InvalidPattern`
/// with the engine's message.
pub fn surface(outcome: Result<Regex, regex::Error>) -> (result: Result<Regex, VerexError>)
    ensures
        match outcome {
            Ok(matcher) => result == Ok::<Regex, VerexError>(matcher),
            Err(error) => result is Err && result->Err_0.details() == diagnostic_text(error),
        },
{
    match outcome {
        Ok(matcher) => Ok(matcher),
        Err(error) => Err(VerexError::from_engine(&error)),
    }
}

/// Replaces the matches in `text` where there is a matcher, and hands the
/// error on where there is none.
pub fn replace_with(
    outcome: Result<Regex, VerexError>,
    text: &str,
    replacement: &str,
) -> (result: Result<String, VerexError>)
    ensures
        match outcome {
            Ok(matcher) => result is Ok && result->Ok_0@ == replaced(matcher, text@, replacement@),
            Err(error) => result == Err::<String, VerexError>(error),
        },
{
    match outcome {
        Ok(matcher) => Ok(replace_all(&matcher, text, replacement)),
        Err(error) => Err(error),
    }
}

/// Whether `out` is `text` with the matches of `matcher` replaced, for a
/// `matcher` that was compiled from `source`.
pub open spec fn replaces(
    matcher: Regex,
    source: Seq<char>,
    text: Seq<char>,
    replacement: Seq<char>,
    out: Seq<char>,
) -> bool {
    pattern_text(matcher) == source && out == replaced(matcher, text, replacement)
}

/// A builder of verbal expressions.
#[derive(Debug)]
pub struct Verex {
    string: String,
    modifiers: Modifiers,
    source: String,
}

impl View for Verex {
    type V = Pattern;

    closed spec fn view(&self) -> Pattern {
        Pattern { fragment: self.string@, modifiers: self.modifiers@ }
    }
}

impl Verex {
    #[verifier::type_invariant]
    spec fn source_is_derived(&self) -> bool {
        self.source@ == effective_source(self.string@, self.modifiers@)
    }

    fn assemble(string: String, modifiers: Modifiers) -> (verex: Verex)
        ensures
            verex@ == (Pattern { fragment: string@, modifiers: modifiers@ }),
    {
        let source = derive_source(string.as_str(), modifiers);
        Verex { string, modifiers, source }
    }

    /// An empty builder: no pattern text, no flag.
    pub fn new() -> (verex: Verex)
        ensures
            verex@ == Pattern::empty(),
    {
        Verex::from_string(String::new())
    }

    /// A builder whose pattern text is `string`, taken as it is, with no
    /// flag set.
    pub fn from_string(string: String) -> (verex: Verex)
        ensures
            verex@ == Pattern::of(string@),
    {
        Verex::assemble(string, Modifiers::new())
    }

    /// A builder whose pattern text is `string`, taken as it is, with no
    /// flag set.
    pub fn from_str(string: &str) -> (verex: Verex)
        ensures
            verex@ == Pattern::of(string@),
    {
        Verex::from_string(String::from_str(string))
    }

    /// Appends `value` to the pattern text as it is: the caller vouches
    /// that it is regex syntax.
    pub fn add(&mut self, value: &str) -> (ret: &mut Verex)
        ensures
            ret@ == old(self)@.append(value@),
            *final(self) == *final(ret),
    {
        let string = self.string.clone().concat(value);
        *self = Verex::assemble(string, self.modifiers);
        self
    }

    /// Derives the source anew from the pattern text and the flags. The
    /// builder stands for the same pattern as before.
    pub fn update_source_with_modifiers(&mut self) -> (ret: &mut Verex)
        ensures
            ret@ == old(self)@,
            *final(self) == *final(ret),
    {
        *self = Verex::assemble(self.string.clone(), self.modifiers);
        self
    }

    /// The text that goes to the regex engine.
    pub fn source(&self) -> (text: &str)
        ensures
            text@ == self@.source(),
    {
        proof {
            use_type_invariant(self);
        }
        self.source.as_str()
    }

    /// The text that goes to the regex engine.
    pub fn raw(&self) -> (text: &str)
        ensures
            text@ == self@.source(),
    {
        self.source()
    }

    /// The text that goes to the regex engine.
    pub fn value(&self) -> (text: &str)
        ensures
            text@ == self@.source(),
    {
        self.source()
    }

    /// Hands the source to the regex engine. What comes back is the
    /// engine's answer to exactly the source: a matcher compiled from it
    /// where the engine accepts it, and `InvalidPattern` with the engine's
    /// message where the engine refuses it. The builder stays as it is and
    /// can be built on and compiled again.
    pub fn compile(&self) -> (result: Result<Regex, VerexError>)
        ensures
            result is Ok <==> refusal(self@.source()) is None,
            result matches Ok(matcher) ==> pattern_text(matcher) == self@.source(),
            result matches Err(error) ==> refusal(self@.source()) == Some(error.details()),
    {
        surface(compile_pattern(self.source()))
    }

    /// Hands the source to the regex engine, as `compile` does.
    pub fn regex(&self) -> (result: Result<Regex, VerexError>)
        ensures
            result is Ok <==> refusal(self@.source()) is None,
            result matches Ok(matcher) ==> pattern_text(matcher) == self@.source(),
            result matches Err(error) ==> refusal(self@.source()) == Some(error.details()),
    {
        self.compile()
    }

    /// Compiles the pattern and replaces every match of it in `text`, from
    /// left to right and without overlap, with `replacement`, in which
    /// `$name` and `$N` stand for what a group captured. The builder is
    /// not changed. Where the engine refuses the source, and only there,
    /// the result is `InvalidPattern` with the engine's message.
    pub fn replace(&self, text: &str, replacement: &str) -> (result: Result<String, VerexError>)
        ensures
            result is Ok <==> refusal(self@.source()) is None,
            result matches Ok(out) ==> exists|matcher: Regex|
                replaces(matcher, self@.source(), text@, replacement@, out@),
            result matches Err(error) ==> refusal(self@.source()) == Some(error.details()),
    {
        let outcome = self.compile();
        proof {
            if outcome is Ok {
                let matcher = outcome->Ok_0;
                assert(replaces(
                    matcher,
                    self@.source(),
                    text@,
                    replacement@,
                    replaced(matcher, text@, replacement@),
                ));
            }
        }
        replace_with(outcome, text, replacement)
    }

    /// The pattern text gathered so far, without the outer group.
    pub fn to_string(&self) -> (text: String)
        ensures
            text@ == self@.fragment,
    {
        self.string.clone()
    }

    /// Opens a character class: appends `[`.
    pub fn open_class(&mut self) -> (ret: &mut Verex)
        ensures
            ret@ == old(self)@.append(seq!['[']),
            *final(self) == *final(ret),
    {
        proof {
            reveal_strlit("[");
        }
        assert("["@ =~= seq!['[']);
        self.add("[")
    }

    /// Closes a character class: appends `]`.
    pub fn close_class(&mut self) -> (ret: &mut Verex)
        ensures
            ret@ == old(self)@.append(seq![']']),
            *final(self) == *final(ret),
    {
        proof {
            reveal_strlit("]");
        }
        assert("]"@ =~= seq![']']);
        self.add("]")
    }

    /// Opens a non-capturing group: appends `(?:`.
    pub fn open_group(&mut self) -> (ret: &mut Verex)
        ensures
            ret@ == old(self)@.append(seq!['(', '?', ':']),
            *final(self) == *final(ret),
    {
        proof {
            reveal_strlit("(?:");
        }
        assert("(?:"@ =~= seq!['(', '?', ':']);
        self.add("(?:")
    }

    /// Opens a capturing group: appends `(`.
    pub fn open_capturing_group(&mut self) -> (ret: &mut Verex)
        ensures
            ret@ == old(self)@.append(seq!['(']),
            *final(self) == *final(ret),
    {
        proof {
            reveal_strlit("(");
        }
        assert("("@ =~= seq!['(']);
        self.add("(")
    }

    /// Closes a group, capturing or not: appends `)`.
    pub fn close_group(&mut self) -> (ret: &mut Verex)
        ensures
            ret@ == old(self)@.append(seq![')']),
            *final(self) == *final(ret),
    {
        proof {
            reveal_strlit(")");
        }
        assert(")"@ =~= seq![')']);
        self.add(")")
    }

    /// Opens a repetition count: appends `{`.
    pub fn open_quantifier(&mut self) -> (ret: &mut Verex)
        ensures
            ret@ == old(self)@.append(seq!['{']),
            *final(self) == *final(ret),
    {
        proof {
            reveal_strlit("{");
        }
        assert("{"@ =~= seq!['{']);
        self.add("{")
    }

    /// Closes a repetition count: appends `}`.
    pub fn close_quantifier(&mut self) -> (ret: &mut Verex)
        ensures
            ret@ == old(self)@.append(seq!['}']),
            *final(self) == *final(ret),
    {
        proof {
            reveal_strlit("}");
        }
        assert("}"@ =~= seq!['}']);
        self.add("}")
    }

    /// Any one of the characters of `chars`, each taken literally.
    pub fn any(&mut self, chars: &str) -> (ret: &mut Verex)
        ensures
            ret@ == old(self)@.append(class(escaped(chars@))),
            *final(self) == *final(ret),
    {
        let inner = escape(chars);
        self.open_class().add(inner.as_str()).close_class()
    }

    /// Any one of the characters of `chars`, each taken literally.
    pub fn any_of(&mut self, chars: &str) -> (ret: &mut Verex)
        ensures
            ret@ == old(self)@.append(class(escaped(chars@))),
            *final(self) == *final(ret),
    {
        self.any(chars)
    }

    /// Any character, any number of times, captured.
    pub fn anything(&mut self) -> (ret: &mut Verex)
        ensures
            ret@ == old(self)@.append(anything_token()),
            *final(self) == *final(ret),
    {
        proof {
            reveal_strlit("(.*)");
        }
        assert("(.*)"@ =~= anything_token());
        self.add("(.*)")
    }

    /// Any number of characters, none of which is a character of `chars`.
    pub fn anything_but(&mut self, chars: &str) -> (ret: &mut Verex)
        ensures
            ret@ == old(self)@.append(run_without(escaped(chars@), '*')),
            *final(self) == *final(ret),
    {
        proof {
            reveal_strlit("^");
            reveal_strlit("*");
        }
        assert("^"@ =~= seq!['^']);
        assert("*"@ =~= seq!['*']);
        let inner = escape(chars);
        self.open_group().open_class().add("^").add(inner.as_str()).close_class().add(
            "*",
        ).close_group()
    }

    /// A line break of either kind.
    pub fn br(&mut self) -> (ret: &mut Verex)
        ensures
            ret@ == old(self)@.append(line_break_text()),
            *final(self) == *final(ret),
    {
        self.line_break()
    }

    /// Finds `value`, taken as regex syntax, and captures it.
    pub fn capture_value(&mut self, value: &str) -> (ret: &mut Verex)
        ensures
            ret@ == old(self)@.append(capturing_group(value@)),
            *final(self) == *final(ret),
    {
        self.open_capturing_group().add(value).close_group()
    }

    /// Finds the literal text `value` and captures it.
    pub fn capture(&mut self, value: &str) -> (ret: &mut Verex)
        ensures
            ret@ == old(self)@.append(capturing_group(escaped(value@))),
            *final(self) == *final(ret),
    {
        let inner = escape(value);
        self.capture_value(inner.as_str())
    }

    /// A digit.
    pub fn digit(&mut self) -> (ret: &mut Verex)
        ensures
            ret@ == old(self)@.append(digit_token()),
            *final(self) == *final(ret),
    {
        proof {
            reveal_strlit("\\d");
        }
        assert("\\d"@ =~= digit_token());
        self.add("\\d")
    }

    /// The end of a line.
    pub fn end_of_line(&mut self) -> (ret: &mut Verex)
        ensures
            ret@ == old(self)@.append(seq!['$']),
            *final(self) == *final(ret),
    {
        proof {
            reveal_strlit("$");
        }
        assert("$"@ =~= seq!['$']);
        self.add("$")
    }

    /// Finds `value`, taken as regex syntax.
    pub fn find_value(&mut self, value: &str) -> (ret: &mut Verex)
        ensures
            ret@ == old(self)@.append(group(value@)),
            *final(self) == *final(ret),
    {
        self.open_group().add(value).close_group()
    }

    /// Finds the literal text `value`.
    pub fn find(&mut self, value: &str) -> (ret: &mut Verex)
        ensures
            ret@ == old(self)@.append(group(escaped(value@))),
            *final(self) == *final(ret),
    {
        let inner = escape(value);
        self.find_value(inner.as_str())
    }

    /// A line break of either kind: a line feed, or a carriage return and
    /// a line feed.
    pub fn line_break(&mut self) -> (ret: &mut Verex)
        ensures
            ret@ == old(self)@.append(line_break_text()),
            *final(self) == *final(ret),
    {
        proof {
            reveal_strlit("\\n");
            reveal_strlit("\\r\\n");
        }
        assert("\\n"@ =~= line_feed_token());
        assert("\\r\\n"@ =~= carriage_return_line_feed_token());
        self.open_group().add("\\n").or_find_expr(Expression::String("\\r\\n")).close_group()
    }

    /// `value`, taken as regex syntax, once or not at all.
    pub fn maybe_value(&mut self, value: &str) -> (ret: &mut Verex)
        ensures
            ret@ == old(self)@.append(optional(value@)),
            *final(self) == *final(ret),
    {
        proof {
            reveal_strlit("?");
        }
        assert("?"@ =~= seq!['?']);
        self.open_group().add(value).close_group().add("?")
    }

    /// The literal text `value`, once or not at all.
    pub fn maybe(&mut self, value: &str) -> (ret: &mut Verex)
        ensures
            ret@ == old(self)@.append(optional(escaped(value@))),
            *final(self) == *final(ret),
    {
        let inner = escape(value);
        self.maybe_value(inner.as_str())
    }

    /// Either what stands before or what comes after: appends `|`.
    pub fn or(&mut self) -> (ret: &mut Verex)
        ensures
            ret@ == old(self)@.append(seq!['|']),
            *final(self) == *final(ret),
    {
        proof {
            reveal_strlit("|");
        }
        assert("|"@ =~= seq!['|']);
        self.add("|")
    }

    /// Either what stands before or the literal text `value`.
    pub fn or_find(&mut self, value: &str) -> (ret: &mut Verex)
        ensures
            ret@ == old(self)@.append(seq!['|'] + group(escaped(value@))),
            *final(self) == *final(ret),
    {
        self.or().find(value)
    }

    /// Finds what `expr` brings, taken as regex syntax and captured.
    pub fn capture_expr(&mut self, expr: Expression) -> (ret: &mut Verex)
        ensures
            ret@ == old(self)@.append(capturing_group(expr.text())),
            *final(self) == *final(ret),
    {
        self.capture_value(expr.as_str())
    }

    /// Finds what `expr` brings, taken as regex syntax.
    pub fn find_expr(&mut self, expr: Expression) -> (ret: &mut Verex)
        ensures
            ret@ == old(self)@.append(group(expr.text())),
            *final(self) == *final(ret),
    {
        self.find_value(expr.as_str())
    }

    /// What `expr` brings, taken as regex syntax, once or not at all.
    pub fn maybe_expr(&mut self, expr: Expression) -> (ret: &mut Verex)
        ensures
            ret@ == old(self)@.append(optional(expr.text())),
            *final(self) == *final(ret),
    {
        self.maybe_value(expr.as_str())
    }

    /// Either what stands before or what `expr` brings, taken as regex
    /// syntax.
    pub fn or_find_expr(&mut self, expr: Expression) -> (ret: &mut Verex)
        ensures
            ret@ == old(self)@.append(seq!['|'] + group(expr.text())),
            *final(self) == *final(ret),
    {
        self.or().find_expr(expr)
    }

    /// A class of character ranges, such as `[a-zA-Z]`: each pair gives
    /// the first and the last character of one range. The pairs are taken
    /// as they come; that each is a range in ascending order is left to
    /// the caller.
    pub fn range(&mut self, pairs: Vec<(char, char)>) -> (ret: &mut Verex)
        ensures
            ret@ == old(self)@.append(range_class(pairs@)),
            *final(self) == *final(ret),
    {
        let mut string = String::new();
        string.push('[');
        let mut i: usize = 0;
        while i < pairs.len()
            invariant
                i <= pairs.len(),
                string@ == seq!['['] + range_items(pairs@.take(i as int)),
            decreases pairs.len() - i,
        {
            let from = pairs[i].0;
            let to = pairs[i].1;
            proof {
                assert(pairs@.take(i + 1).drop_last() =~= pairs@.take(i as int));
                assert(pairs@.take(i + 1).last() == pairs@[i as int]);
            }
            string.push(from);
            string.push('-');
            string.push(to);
            i += 1;
        }
        string.push(']');
        proof {
            assert(pairs@.take(pairs@.len() as int) =~= pairs@);
        }
        self.add(string.as_str())
    }

    /// The item before, exactly `n` times.
    pub fn repeat_n(&mut self, n: u32) -> (ret: &mut Verex)
        ensures
            ret@ == old(self)@.append(repetition(n as nat)),
            *final(self) == *final(ret),
    {
        let count = to_decimal(n);
        self.open_quantifier().add(count.as_str()).close_quantifier()
    }

    /// The item before, from `n` to `m` times. That `n` is not above `m`
    /// is left to the caller.
    pub fn repeat_n_to_m(&mut self, n: u32, m: u32) -> (ret: &mut Verex)
        ensures
            ret@ == old(self)@.append(repetition_between(n as nat, m as nat)),
            *final(self) == *final(ret),
    {
        proof {
            reveal_strlit(",");
        }
        assert(","@ =~= seq![',']);
        let least = to_decimal(n);
        let most = to_decimal(m);
        self.open_quantifier().add(least.as_str()).add(",").add(most.as_str()).close_quantifier()
    }

    /// The item before, once or more: appends `+`.
    pub fn repeat_once_or_more(&mut self) -> (ret: &mut Verex)
        ensures
            ret@ == old(self)@.append(seq!['+']),
            *final(self) == *final(ret),
    {
        proof {
            reveal_strlit("+");
        }
        assert("+"@ =~= seq!['+']);
        self.add("+")
    }

    /// The item before, exactly `n` times.
    pub fn repeat_previous(&mut self, n: u32) -> (ret: &mut Verex)
        ensures
            ret@ == old(self)@.append(repetition(n as nat)),
            *final(self) == *final(ret),
    {
        self.repeat_n(n)
    }

    /// The item before, any number of times: appends `*`.
    pub fn repeat_zero_or_more(&mut self) -> (ret: &mut Verex)
        ensures
            ret@ == old(self)@.append(seq!['*']),
            *final(self) == *final(ret),
    {
        proof {
            reveal_strlit("*");
        }
        assert("*"@ =~= seq!['*']);
        self.add("*")
    }

    /// Chooses what `^` and `$` match. With `enable` they match the start
    /// and the end of the whole text only, so the multi-line flag is
    /// cleared; without it they match at each line, so the flag is set.
    pub fn search_one_line(&mut self, enable: bool) -> (ret: &mut Verex)
        ensures
            ret@ == old(self)@.with_flag(Modifier::MultiLine, !enable),
            *final(self) == *final(ret),
    {
        let mut modifiers = self.modifiers;
        if enable {
            modifiers.remove(Modifier::MultiLine);
        } else {
            modifiers.insert(Modifier::MultiLine);
        }
        *self = Verex::assemble(self.string.clone(), modifiers);
        self
    }

    /// Any character, at least once, captured.
    pub fn something(&mut self) -> (ret: &mut Verex)
        ensures
            ret@ == old(self)@.append(something_token()),
            *final(self) == *final(ret),
    {
        proof {
            reveal_strlit("(.+)");
        }
        assert("(.+)"@ =~= something_token());
        self.add("(.+)")
    }

    /// One character or more, none of which is a character of `chars`.
    pub fn something_but(&mut self, chars: &str) -> (ret: &mut Verex)
        ensures
            ret@ == old(self)@.append(run_without(escaped(chars@), '+')),
            *final(self) == *final(ret),
    {
        proof {
            reveal_strlit("^");
            reveal_strlit("+");
        }
        assert("^"@ =~= seq!['^']);
        assert("+"@ =~= seq!['+']);
        let inner = escape(chars);
        self.open_group().open_class().add("^").add(inner.as_str()).close_class().add(
            "+",
        ).close_group()
    }

    /// The start of a line.
    pub fn start_of_line(&mut self) -> (ret: &mut Verex)
        ensures
            ret@ == old(self)@.append(seq!['^']),
            *final(self) == *final(ret),
    {
        proof {
            reveal_strlit("^");
        }
        assert("^"@ =~= seq!['^']);
        self.add("^")
    }

    /// A tab.
    pub fn tab(&mut self) -> (ret: &mut Verex)
        ensures
            ret@ == old(self)@.append(tab_token()),
            *final(self) == *final(ret),
    {
        proof {
            reveal_strlit("\\t");
        }
        assert("\\t"@ =~= tab_token());
        self.add("\\t")
    }

    /// Finds the literal text `value`: `find` under a name that reads
    /// well in the middle of a chain.
    pub fn then(&mut self, value: &str) -> (ret: &mut Verex)
        ensures
            ret@ == old(self)@.append(group(escaped(value@))),
            *final(self) == *final(ret),
    {
        self.find(value)
    }

    /// Chooses whether letters match without regard to case: sets the
    /// case-insensitive flag with `enable` and clears it without.
    pub fn with_any_case(&mut self, enable: bool) -> (ret: &mut Verex)
        ensures
            ret@ == old(self)@.with_flag(Modifier::CaseInsensitive, enable),
            *final(self) == *final(ret),
    {
        let mut modifiers = self.modifiers;
        if enable {
            modifiers.insert(Modifier::CaseInsensitive);
        } else {
            modifiers.remove(Modifier::CaseInsensitive);
        }
        *self = Verex::assemble(self.string.clone(), modifiers);
        self
    }

    /// A run of word characters.
    pub fn word(&mut self) -> (ret: &mut Verex)
        ensures
            ret@ == old(self)@.append(group(word_token())),
            *final(self) == *final(ret),
    {
        proof {
            reveal_strlit("\\w+");
        }
        assert("\\w+"@ =~= word_token());
        self.find_expr(Expression::String("\\w+"))
    }
}

impl Clone for Verex {
    /// A builder that stands for the same pattern.
    fn clone(&self) -> (copy: Verex)
        ensures
            copy@ == self@,
    {
        proof {
            use_type_invariant(self);
        }
        Verex {
            string: self.string.clone(),
            modifiers: self.modifiers,
            source: self.source.clone(),
        }
    }
}

impl PartialEq for Verex {
    /// Two builders are equal where their pattern texts are equal. The
    /// flags are not compared, and two patterns that match the same texts
    /// are still unequal where they are written differently.
    fn eq(&self, other: &Verex) -> (equal: bool) {
        self.string == other.string
    }
}

impl vstd::std_specs::cmp::PartialEqSpecImpl for Verex {
    open spec fn obeys_eq_spec() -> bool {
        true
    }

    open spec fn eq_spec(&self, other: &Verex) -> bool {
        self@.fragment == other@.fragment
    }
}

impl Eq for Verex {}

/// The error of reading a builder from text. Reading never fails, so no
/// value of this type can be made.
pub enum Void {
    /// Holds a value of a type that has none.
    Never(std::convert::Infallible),
}

impl std::str::FromStr for Verex {
    type Err = Void;

    /// A builder whose pattern text is `s`, taken as it is.
    fn from_str(s: &str) -> (result: Result<Verex, Void>) {
        Ok(Verex::from_str(s))
    }
}

} // verus!
