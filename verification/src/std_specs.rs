//! What is taken on trust about the standard library, where `vstd` is
//! silent.

use vstd::prelude::*;

verus! {

/// `String::push`: appends the character to the end of the string, and
/// leaves what was there as it is.
pub assume_specification[ String::push ](s: &mut String, ch: char)
    ensures
        final(s)@ == old(s)@.push(ch),
;

} // verus!
