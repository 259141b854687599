//! What the standard `String` does where `vstd` does not say it yet.

use vstd::prelude::*;

verus! {

/// `String::push` appends the character at the end and leaves the rest as it was.
pub assume_specification[ std::string::String::push ](s: &mut std::string::String, c: char)
    ensures
        final(s)@ == old(s)@.push(c),
;

} // verus!
