//! Contracts for the two `String` editing operations of std that the command
//! buffer and the renderers use and that vstd leaves unspecified.

use vstd::prelude::*;

verus! {

/// Relies on `alloc::string::String::push`: appends the given character to
/// the end of the string.
pub assume_specification[ String::push ](s: &mut String, ch: char)
    ensures
        final(s)@ == old(s)@.push(ch),
;

/// Relies on `alloc::string::String::pop`: removes and returns the last
/// character, or returns `None` and leaves the string alone when it is empty.
pub assume_specification[ String::pop ](s: &mut String) -> (r: Option<char>)
    ensures
        old(s)@.len() == 0 ==> r == Option::<char>::None && final(s)@ == old(s)@,
        old(s)@.len() > 0 ==> r == Option::Some(old(s)@.last()) && final(s)@ == old(s)@.drop_last(),
;

} // verus!
