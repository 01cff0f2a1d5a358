//! Small bridges between verified character-level code and `std`'s string
//! machinery: a name for Unicode whitespace and a builder that turns a
//! vector of characters back into a `String`.

use vstd::prelude::*;

verus! {

/// Whether `c` has the Unicode `White_Space` property. The full character
/// table is not restated here; the property is only consulted through
/// [`char_is_whitespace`].
pub uninterp spec fn is_unicode_whitespace(c: char) -> bool;

/// Relies on `char::is_whitespace`: whether `c` has the Unicode
/// `White_Space` property, a function of the character alone.
#[verifier::external_body]
pub fn char_is_whitespace(c: char) -> (r: bool)
    ensures
        r == is_unicode_whitespace(c),
{
    c.is_whitespace()
}

/// Relies on `String`'s `FromIterator<char>`: collecting characters yields
/// the string of exactly those characters, in order.
#[verifier::external_body]
pub fn chars_to_string(chars: &Vec<char>) -> (s: String)
    ensures
        s@ == chars@,
{
    chars.iter().collect()
}

} // verus!
