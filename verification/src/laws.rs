//! What holds of patterns whatever the operations that built them.

use crate::modifiers::Modifier;
use crate::pattern::Pattern;
use vstd::prelude::*;

verus! {

/// Appending in two steps gives what appending the two texts at once
/// gives: a chain of operations builds the pattern text in the order of
/// the chain, and nothing else.
pub proof fn lemma_append_in_steps(start: Pattern, first: Seq<char>, second: Seq<char>)
    ensures
        start.append(first).append(second) == start.append(first + second),
{
    assert(start.fragment + first + second =~= start.fragment + (first + second));
}

/// A flag that is switched on and then off again leaves a pattern that
/// did not have it as it was, and so does its source.
pub proof fn lemma_flag_round_trip(start: Pattern, flag: Modifier)
    requires
        !start.modifiers.contains(flag),
    ensures
        start.with_flag(flag, true).with_flag(flag, false) == start,
        start.with_flag(flag, true).with_flag(flag, false).source() == start.source(),
{
    assert(start.modifiers.insert(flag).remove(flag) =~= start.modifiers);
}

/// Matching without regard to case, switched on and then off again on a
/// fresh builder, leaves the source of a fresh builder.
pub proof fn lemma_any_case_round_trip()
    ensures
        Pattern::empty().with_flag(Modifier::CaseInsensitive, true).with_flag(
            Modifier::CaseInsensitive,
            false,
        ).source() == Pattern::empty().source(),
{
    lemma_flag_round_trip(Pattern::empty(), Modifier::CaseInsensitive);
}

} // verus!
