//! Text primitives that the standard library offers without a specification.

use vstd::prelude::*;

verus! {

/// `str`'s `==`: two string slices are equal exactly when they hold the same
/// characters.
pub assume_specification[ <str as PartialEq>::eq ](left: &str, right: &str) -> (same: bool)
    ensures
        same == (left@ == right@),
;

/// `String::push` appends one character to the end of the string.
pub assume_specification[ String::push ](text: &mut String, c: char)
    ensures
        final(text)@ == old(text)@.push(c),
;

} // verus!
