//! The two operations on strings that the rest of the crate takes from the
//! standard library on trust.

use vstd::prelude::*;

verus! {

/// Whether two string slices hold the same text.
///
/// Calls `==` of `str` (`PartialEq::eq`), which compares the two slices byte
/// by byte. The contract claims that this is equality of the sequences of
/// characters: UTF-8 gives different texts different bytes.
#[verifier::external_body]
pub(crate) fn same_text(a: &str, b: &str) -> (same: bool)
    ensures
        same == (a@ == b@),
{
    a == b
}

/// Appends one character to a string.
///
/// Calls `String::push`. The contract claims that the string afterwards is
/// the string before with `c` added at its end.
#[verifier::external_body]
pub(crate) fn push_char(text: &mut String, c: char)
    ensures
        final(text)@ == old(text)@.push(c),
{
    text.push(c)
}

} // verus!
