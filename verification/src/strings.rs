//! What this library takes from the standard library's strings without
//! proof. Each item names the function it stands for.

use vstd::prelude::*;

verus! {

/// What `str::to_uppercase` makes of a text: its upper-case equivalent by
/// the Unicode character tables.
pub uninterp spec fn uppercase(text: Seq<char>) -> Seq<char>;

/// What `str::trim` leaves of a text: the text without its leading and
/// trailing white space.
pub uninterp spec fn trimmed(text: Seq<char>) -> Seq<char>;

/// `String::push` appends one character: the string afterwards is the
/// string before with `symbol` behind its last character.
pub assume_specification[ String::push ](text: &mut String, symbol: char)
    ensures
        final(text)@ == old(text)@.push(symbol),
;

/// Calls `str::to_uppercase`. The contract only gives the returned text its
/// name, `uppercase` of the argument.
#[verifier::external_body]
pub(crate) fn to_uppercase(text: &str) -> (upper: String)
    ensures
        upper@ == uppercase(text@),
{
    text.to_uppercase()
}

/// Calls `str::trim`. The contract only gives the returned slice its name,
/// `trimmed` of the argument.
#[verifier::external_body]
pub(crate) fn trim(text: &str) -> (inner: &str)
    ensures
        inner@ == trimmed(text@),
{
    text.trim()
}

} // verus!
