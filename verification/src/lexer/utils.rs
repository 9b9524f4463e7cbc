use vstd::prelude::*;

verus! {

/// White space between tokens: line feed, carriage return and space.
pub open spec fn whitespace(c: char) -> bool {
    c == '\n' || c == '\r' || c == ' '
}

/// A decimal digit.
pub open spec fn digit(c: char) -> bool {
    '0' <= c <= '9'
}

/// A hexadecimal digit, in either case.
pub open spec fn hex_digit(c: char) -> bool {
    digit(c) || ('a' <= c <= 'f') || ('A' <= c <= 'F')
}

/// A letter of the Latin alphabet, in either case.
pub open spec fn letter(c: char) -> bool {
    ('a' <= c <= 'z') || ('A' <= c <= 'Z')
}

pub fn is_whitespace(c: char) -> (r: bool)
    ensures
        r == whitespace(c),
{
    c == '\n' || c == '\r' || c == ' '
}

pub fn is_digit(c: char) -> (r: bool)
    ensures
        r == digit(c),
{
    c >= '0' && c <= '9'
}

pub fn is_hex_digit(c: char) -> (r: bool)
    ensures
        r == hex_digit(c),
{
    is_digit(c) || (c >= 'a' && c <= 'f') || (c >= 'A' && c <= 'F')
}

pub fn is_letter(c: char) -> (r: bool)
    ensures
        r == letter(c),
{
    (c >= 'a' && c <= 'z') || (c >= 'A' && c <= 'Z')
}

} // verus!
