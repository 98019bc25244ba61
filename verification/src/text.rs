//! Trusted boundary to std's text facilities: the Unicode character classes
//! the lexer scans by, and conversions between strings and character vectors.

use vstd::prelude::*;

verus! {

/// Whether std's char::is_whitespace holds of the character; a fixed
/// function of the character alone.
pub uninterp spec fn char_whitespace(c: char) -> bool;

/// Whether std's char::is_alphabetic holds of the character; a fixed
/// function of the character alone.
pub uninterp spec fn char_alphabetic(c: char) -> bool;

/// Whether std's char::is_numeric holds of the character; a fixed function
/// of the character alone.
pub uninterp spec fn char_numeric(c: char) -> bool;

/// Relies on char::is_whitespace: a property of the character alone.
#[verifier::external_body]
pub(crate) fn is_whitespace(c: char) -> (r: bool)
    ensures
        r == char_whitespace(c),
{
    c.is_whitespace()
}

/// Relies on char::is_alphabetic: a property of the character alone.
#[verifier::external_body]
pub(crate) fn is_alphabetic(c: char) -> (r: bool)
    ensures
        r == char_alphabetic(c),
{
    c.is_alphabetic()
}

/// Relies on char::is_numeric: a property of the character alone.
#[verifier::external_body]
pub(crate) fn is_numeric(c: char) -> (r: bool)
    ensures
        r == char_numeric(c),
{
    c.is_numeric()
}

/// Relies on str::chars: yields exactly the string's characters, in order
/// (the string's view is that character sequence).
#[verifier::external_body]
pub(crate) fn chars_of(s: &str) -> (r: Vec<char>)
    ensures
        r@ == s@,
{
    s.chars().collect()
}

/// Relies on String's FromIterator over characters: builds the string of
/// exactly the given characters, in order.
#[verifier::external_body]
pub(crate) fn string_from_chars(v: &Vec<char>) -> (r: String)
    ensures
        r@ == v@,
{
    v.iter().collect()
}

} // verus!
