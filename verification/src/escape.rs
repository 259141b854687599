//! The escaper: turns literal text into pattern text that stands for
//! exactly that text.
//!
//! A pattern reads fourteen characters as syntax. The escaper puts a
//! backslash before each of them, one character of the table at a time, and
//! the backslash itself first: a later pass then never meets a backslash
//! that an earlier pass put there.

use vstd::prelude::*;
use vstd::string::StringExecFns;

verus! {

/// The characters that a pattern reads as syntax, in the order in which
/// the escaper treats them. The backslash comes first.
pub const METACHARS: [char; 14] = [
    '\\', '(', ')', '[', ']', '{', '}', '.', '+', '*', '?', '^', '$', '|',
];

/// The table as a sequence.
pub open spec fn metachars() -> Seq<char> {
    METACHARS@
}

/// Whether a pattern reads `c` as syntax.
pub open spec fn is_metachar(c: char) -> bool {
    exists|i: int| 0 <= i < metachars().len() && metachars()[i] == c
}

/// The characters that a pattern reads as syntax, as a set.
pub open spec fn metachar_set() -> Set<char> {
    Set::new(|c: char| is_metachar(c))
}

/// The first `count` characters of the table, as a set.
pub open spec fn treated(count: int) -> Set<char> {
    Set::new(|c: char| exists|i: int| 0 <= i < count && i < metachars().len() && metachars()[i] == c)
}

/// `text` with a backslash put before each character that is in `marked`.
pub open spec fn escaped_in(text: Seq<char>, marked: Set<char>) -> Seq<char>
    decreases text.len(),
{
    if text.len() == 0 {
        Seq::empty()
    } else if marked.contains(text.last()) {
        escaped_in(text.drop_last(), marked).push('\\').push(text.last())
    } else {
        escaped_in(text.drop_last(), marked).push(text.last())
    }
}

/// `text` with a backslash put before each character that a pattern reads
/// as syntax, and every other character left as it is.
pub open spec fn escaped(text: Seq<char>) -> Seq<char> {
    escaped_in(text, metachar_set())
}

/// What `escaped_in` does with the last character of a text.
pub proof fn lemma_escaped_in_push(text: Seq<char>, last: char, marked: Set<char>)
    ensures
        escaped_in(text.push(last), marked) == if marked.contains(last) {
            escaped_in(text, marked).push('\\').push(last)
        } else {
            escaped_in(text, marked).push(last)
        },
{
    assert(text.push(last).drop_last() =~= text);
    assert(text.push(last).last() == last);
}

/// With nothing marked the text stays as it is.
pub proof fn lemma_escaped_in_nothing(text: Seq<char>)
    ensures
        escaped_in(text, Set::empty()) == text,
    decreases text.len(),
{
    if text.len() > 0 {
        lemma_escaped_in_nothing(text.drop_last());
        assert(text.drop_last().push(text.last()) =~= text);
    }
}

/// One more pass, for a character not treated yet, gives what a single
/// pass for all of them gives, as long as the backslash was treated first:
/// `target` is the backslash only where nothing is `done` yet.
pub proof fn lemma_escape_pass(text: Seq<char>, done: Set<char>, target: char)
    requires
        !done.contains(target),
        target != '\\' || done == Set::<char>::empty(),
    ensures
        escaped_in(escaped_in(text, done), set![target]) == escaped_in(text, done.insert(target)),
    decreases text.len(),
{
    let one = set![target];
    let all = done.insert(target);
    if text.len() == 0 {
    } else {
        let front = text.drop_last();
        let x = text.last();
        lemma_escape_pass(front, done, target);
        let inner = escaped_in(front, done);
        if done.contains(x) {
            assert(target != '\\');
            lemma_escaped_in_push(inner, '\\', one);
            lemma_escaped_in_push(inner.push('\\'), x, one);
        } else {
            lemma_escaped_in_push(inner, x, one);
        }
    }
}

/// Escaping goes character by character: the escaped form of two texts
/// put together is their escaped forms put together.
pub proof fn lemma_escaped_in_concat(left: Seq<char>, right: Seq<char>, marked: Set<char>)
    ensures
        escaped_in(left + right, marked) == escaped_in(left, marked) + escaped_in(right, marked),
    decreases right.len(),
{
    if right.len() == 0 {
        assert(left + right =~= left);
        assert(escaped_in(left, marked) + escaped_in(right, marked) =~= escaped_in(left, marked));
    } else {
        let front = right.drop_last();
        let x = right.last();
        lemma_escaped_in_concat(left, front, marked);
        assert((left + right).drop_last() =~= left + front);
        assert((left + right).last() == x);
        let a = escaped_in(left, marked);
        let b = escaped_in(front, marked);
        if marked.contains(x) {
            assert((a + b).push('\\').push(x) =~= a + b.push('\\').push(x));
        } else {
            assert((a + b).push(x) =~= a + b.push(x));
        }
    }
}

/// Text that holds none of the marked characters is its own escaped form.
pub proof fn lemma_escaped_in_plain(text: Seq<char>, marked: Set<char>)
    requires
        forall|i: int| 0 <= i < text.len() ==> !marked.contains(#[trigger] text[i]),
    ensures
        escaped_in(text, marked) == text,
    decreases text.len(),
{
    if text.len() > 0 {
        lemma_escaped_in_plain(text.drop_last(), marked);
        assert(text.drop_last().push(text.last()) =~= text);
    }
}

/// The literal text that `pattern` stands for where it is made of plain
/// characters and of syntax characters with a backslash before each, and
/// `None` where it holds anything else: a syntax character with no
/// backslash before it, or a backslash before anything but a syntax
/// character.
pub open spec fn literal_of(pattern: Seq<char>) -> Option<Seq<char>>
    decreases pattern.len(),
{
    if pattern.len() == 0 {
        Some(Seq::empty())
    } else if pattern[0] == '\\' {
        if pattern.len() >= 2 && is_metachar(pattern[1]) {
            match literal_of(pattern.skip(2)) {
                Some(rest) => Some(seq![pattern[1]] + rest),
                None => None,
            }
        } else {
            None
        }
    } else if is_metachar(pattern[0]) {
        None
    } else {
        match literal_of(pattern.skip(1)) {
            Some(rest) => Some(seq![pattern[0]] + rest),
            None => None,
        }
    }
}

/// Escaped text holds no bare syntax character, and reading it back gives
/// the text that was escaped, whatever that text holds.
pub proof fn lemma_escaped_reads_back(text: Seq<char>)
    ensures
        literal_of(escaped(text)) == Some(text),
    decreases text.len(),
{
    let all = metachar_set();
    if text.len() > 0 {
        let first = text[0];
        let rest = text.skip(1);
        lemma_escaped_reads_back(rest);
        assert(seq![first] + rest =~= text);
        lemma_escaped_in_concat(seq![first], rest, all);
        lemma_escaped_in_push(Seq::empty(), first, all);
        assert(Seq::<char>::empty().push(first) =~= seq![first]);
        assert(is_metachar('\\')) by {
            assert(metachars()[0] == '\\');
        }
        let head = escaped_in(seq![first], all);
        let tail = escaped(rest);
        if is_metachar(first) {
            assert(all.contains(first));
            assert(head =~= seq!['\\', first]);
            assert((head + tail).skip(2) =~= tail);
        } else {
            assert(!all.contains(first));
            assert(head =~= seq![first]);
            assert((head + tail).skip(1) =~= tail);
        }
    }
}

/// Texts that differ have escaped forms that differ.
pub proof fn lemma_escaped_is_injective(left: Seq<char>, right: Seq<char>)
    requires
        escaped(left) == escaped(right),
    ensures
        left == right,
{
    lemma_escaped_reads_back(left);
    lemma_escaped_reads_back(right);
}

/// One pass of the escaper: a backslash goes before each `target` in `text`.
pub fn escape_char(text: &str, target: char) -> (out: String)
    ensures
        out@ == escaped_in(text@, set![target]),
{
    let mut out = String::new();
    for c in it: text.chars()
        invariant
            it.seq() == text@,
            out@ == escaped_in(text@.take(it.index()), set![target]),
    {
        proof {
            let k = it.index();
            assert(text@.take(k + 1).drop_last() =~= text@.take(k));
            assert(text@.take(k + 1).last() == c);
        }
        if c == target {
            out.push('\\');
        }
        out.push(c);
    }
    proof {
        assert(text@.take(text@.len() as int) =~= text@);
    }
    out
}

/// Escapes literal text: the result is `string` with a backslash before
/// each character that a pattern reads as syntax. The empty string escapes
/// to itself.
pub fn escape(string: &str) -> (out: String)
    ensures
        out@ == escaped(string@),
{
    let mut result = String::from_str(string);
    proof {
        lemma_escaped_in_nothing(string@);
        assert(treated(0) =~= Set::<char>::empty());
    }
    let mut k: usize = 0;
    while k < METACHARS.len()
        invariant
            k <= METACHARS.len(),
            result@ == escaped_in(string@, treated(k as int)),
        decreases METACHARS.len() - k,
    {
        let target = METACHARS[k];
        proof {
            assert(treated(k as int + 1) =~= treated(k as int).insert(target));
            if k == 0 {
                assert(treated(0) =~= Set::<char>::empty());
            }
            lemma_escape_pass(string@, treated(k as int), target);
        }
        result = escape_char(result.as_str(), target);
        k += 1;
    }
    proof {
        assert(treated(METACHARS.len() as int) =~= metachar_set());
    }
    result
}

} // verus!
