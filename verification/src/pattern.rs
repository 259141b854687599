//! The mathematical model of a builder.

use crate::modifiers::Modifier;
use crate::syntax::effective_source;
use vstd::prelude::*;

verus! {

/// What a builder stands for: the pattern text gathered so far and the
/// mode flags. Everything else about a builder follows from these two.
#[verifier::ext_equal]
pub struct Pattern {
    /// The pattern text, in the order in which it was appended.
    pub fragment: Seq<char>,
    /// The mode flags that are set.
    pub modifiers: Set<Modifier>,
}

impl Pattern {
    /// The pattern of a fresh builder: no pattern text, no flag.
    pub open spec fn empty() -> Pattern {
        Pattern { fragment: Seq::empty(), modifiers: Set::empty() }
    }

    /// The pattern of a builder made from the text `fragment`: that text
    /// as it is, no flag.
    pub open spec fn of(fragment: Seq<char>) -> Pattern {
        Pattern { fragment, modifiers: Set::empty() }
    }

    /// The text that goes to the regex engine: the fragment inside an
    /// outer group that carries the flags.
    pub open spec fn source(self) -> Seq<char> {
        effective_source(self.fragment, self.modifiers)
    }

    /// This pattern with `raw` appended to its fragment.
    pub open spec fn append(self, raw: Seq<char>) -> Pattern {
        Pattern { fragment: self.fragment + raw, modifiers: self.modifiers }
    }

    /// This pattern with `flag` set where `on` holds and cleared where it
    /// does not.
    pub open spec fn with_flag(self, flag: Modifier, on: bool) -> Pattern {
        Pattern {
            fragment: self.fragment,
            modifiers: if on {
                self.modifiers.insert(flag)
            } else {
                self.modifiers.remove(flag)
            },
        }
    }
}

} // verus!
