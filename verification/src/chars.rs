//! The character classes of the language, each as a spec function and as an
//! executable test that is proved to agree with it.

use vstd::prelude::*;

verus! {

/// The character that stands for "no character": the scanner sees it where
/// the source has run out, and treats it the same way where the source holds it.
pub const NUL: char = '\0';

/// Space, tab, line feed and carriage return.
pub open spec fn blank(c: char) -> bool {
    c == ' ' || c == '\t' || c == '\n' || c == '\r'
}

/// An ASCII letter or an underscore.
pub open spec fn letter(c: char) -> bool {
    ('a' <= c && c <= 'z') || ('A' <= c && c <= 'Z') || c == '_'
}

/// An ASCII decimal digit.
pub open spec fn digit(c: char) -> bool {
    '0' <= c && c <= '9'
}

/// Whether `c` is a space, a tab, a line feed or a carriage return.
pub fn is_whitespace(c: char) -> (yes: bool)
    ensures
        yes == blank(c),
{
    c == ' ' || c == '\t' || c == '\n' || c == '\r'
}

/// Whether `c` is an ASCII letter or an underscore.
pub fn is_letter(c: char) -> (yes: bool)
    ensures
        yes == letter(c),
{
    ('a' <= c && c <= 'z') || ('A' <= c && c <= 'Z') || c == '_'
}

/// Whether `c` is an ASCII decimal digit.
pub fn is_digit(c: char) -> (yes: bool)
    ensures
        yes == digit(c),
{
    c >= '0' && c <= '9'
}

} // verus!
