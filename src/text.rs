//! Contracts for the std string operations this library relies on and that
//! vstd leaves without a specification.

use vstd::prelude::*;

verus! {

/// Relies on `String::push`, documented as appending the given character to
/// the end of the string.
pub assume_specification[ String::push ](s: &mut String, ch: char)
    ensures
        final(s)@ == old(s)@.push(ch),
;

} // verus!
