//! The mode flags that a pattern carries in its outer group.

use vstd::prelude::*;

verus! {

/// One mode flag.
#[derive(Clone, Copy, Debug, PartialEq, Eq, Structural)]
pub enum Modifier {
    /// `^` and `$` match at the start and end of each line.
    MultiLine,
    /// Letters match without regard to case.
    CaseInsensitive,
}

/// A set of mode flags. A flag that is absent leaves the pattern with the
/// behaviour that the regex dialect has by default.
#[derive(Clone, Copy, Debug)]
pub struct Modifiers {
    multi_line: bool,
    case_insensitive: bool,
}

impl View for Modifiers {
    type V = Set<Modifier>;

    closed spec fn view(&self) -> Set<Modifier> {
        Set::new(
            |flag: Modifier|
                match flag {
                    Modifier::MultiLine => self.multi_line,
                    Modifier::CaseInsensitive => self.case_insensitive,
                },
        )
    }
}

impl Modifiers {
    /// No flag is set.
    pub fn new() -> (modifiers: Modifiers)
        ensures
            modifiers@ == Set::<Modifier>::empty(),
    {
        Modifiers { multi_line: false, case_insensitive: false }
    }

    /// Whether `flag` is set.
    pub fn contains(&self, flag: Modifier) -> (present: bool)
        ensures
            present == self@.contains(flag),
    {
        match flag {
            Modifier::MultiLine => self.multi_line,
            Modifier::CaseInsensitive => self.case_insensitive,
        }
    }

    /// Sets `flag` and leaves the other flag as it is.
    pub fn insert(&mut self, flag: Modifier)
        ensures
            final(self)@ == old(self)@.insert(flag),
    {
        match flag {
            Modifier::MultiLine => {
                self.multi_line = true;
            },
            Modifier::CaseInsensitive => {
                self.case_insensitive = true;
            },
        }
    }

    /// Clears `flag` and leaves the other flag as it is.
    pub fn remove(&mut self, flag: Modifier)
        ensures
            final(self)@ == old(self)@.remove(flag),
    {
        match flag {
            Modifier::MultiLine => {
                self.multi_line = false;
            },
            Modifier::CaseInsensitive => {
                self.case_insensitive = false;
            },
        }
    }
}

} // verus!
