use vstd::prelude::*;

verus! {

/// Relies on std's `String::push`: it appends exactly the given character
/// to the end of the string.
pub assume_specification[ String::push ](s: &mut String, c: char)
    ensures
        final(s)@ == old(s)@.push(c),
;

} // verus!
