//! Character classes and string building, as std's `char` and `String`
//! provide them. Each function here is trusted: it makes one call into std.
use vstd::prelude::*;

verus! {

/// What `char::is_whitespace` returns: whether the character has Unicode's
/// `White_Space` property.
pub uninterp spec fn spec_is_whitespace(c: char) -> bool;

/// What `char::is_numeric` returns: whether the character's Unicode general
/// category is one of the number categories.
pub uninterp spec fn spec_is_numeric(c: char) -> bool;

/// What `char::is_uppercase` returns: whether the character has Unicode's
/// `Uppercase` property.
pub uninterp spec fn spec_is_uppercase(c: char) -> bool;

/// What `char::is_alphabetic` returns: whether the character has Unicode's
/// `Alphabetic` property.
pub uninterp spec fn spec_is_alphabetic(c: char) -> bool;

/// What `char::is_alphanumeric` returns: whether the character is alphabetic
/// or numeric, as std documents it.
pub open spec fn spec_is_alphanumeric(c: char) -> bool {
    spec_is_alphabetic(c) || spec_is_numeric(c)
}

/// Whether a character is an ASCII letter.
pub open spec fn is_ascii_letter(c: char) -> bool {
    (65 <= c as u32 <= 90) || (97 <= c as u32 <= 122)
}

/// Whether a character is an ASCII digit.
pub open spec fn is_ascii_digit(c: char) -> bool {
    48 <= c as u32 <= 57
}

/// Calls `char::is_whitespace`; its result is named, and stated on ASCII,
/// where White_Space is tab to carriage return and the space.
#[verifier::external_body]
pub(crate) fn is_whitespace(c: char) -> (b: bool)
    ensures
        b == spec_is_whitespace(c),
        (c as u32) < 128 ==> (b <==> (9 <= c as u32 <= 13 || c as u32 == 32)),
{
    c.is_whitespace()
}

/// Calls `char::is_numeric`; its result is named, and stated on ASCII,
/// where only the digits are numeric.
#[verifier::external_body]
pub(crate) fn is_numeric(c: char) -> (b: bool)
    ensures
        b == spec_is_numeric(c),
        (c as u32) < 128 ==> (b <==> is_ascii_digit(c)),
{
    c.is_numeric()
}

/// Calls `char::is_uppercase`; its result is named, and stated on ASCII,
/// where only `A` to `Z` are uppercase.
#[verifier::external_body]
pub(crate) fn is_uppercase(c: char) -> (b: bool)
    ensures
        b == spec_is_uppercase(c),
        (c as u32) < 128 ==> (b <==> 65 <= c as u32 <= 90),
{
    c.is_uppercase()
}

/// Calls `char::is_alphabetic`; its result is named, and stated on ASCII,
/// where only the letters are alphabetic.
#[verifier::external_body]
pub(crate) fn is_alphabetic(c: char) -> (b: bool)
    ensures
        b == spec_is_alphabetic(c),
        (c as u32) < 128 ==> (b <==> is_ascii_letter(c)),
{
    c.is_alphabetic()
}

/// Calls `char::is_alphanumeric`, which std documents as alphabetic or
/// numeric.
#[verifier::external_body]
pub(crate) fn is_alphanumeric(c: char) -> (b: bool)
    ensures
        b == (spec_is_alphabetic(c) || spec_is_numeric(c)),
{
    c.is_alphanumeric()
}

/// The classes std puts a character in, as far as the lexer asks.
#[derive(Clone, Copy, Debug, PartialEq, Eq, Structural)]
pub struct CharClass {
    pub whitespace: bool,
    pub numeric: bool,
    pub uppercase: bool,
    pub alphabetic: bool,
    pub alphanumeric: bool,
}

/// The classes of `c`, as std's character tests give them.
pub open spec fn class_of(c: char) -> CharClass {
    CharClass {
        whitespace: spec_is_whitespace(c),
        numeric: spec_is_numeric(c),
        uppercase: spec_is_uppercase(c),
        alphabetic: spec_is_alphabetic(c),
        alphanumeric: spec_is_alphanumeric(c),
    }
}

/// The classes of `c`, asked of std.
pub fn classify_char(c: char) -> (k: CharClass)
    ensures
        k == class_of(c),
        (c as u32) < 128 ==> {
            &&& k.whitespace <==> (9 <= c as u32 <= 13 || c as u32 == 32)
            &&& k.numeric <==> is_ascii_digit(c)
            &&& k.uppercase <==> 65 <= c as u32 <= 90
            &&& k.alphabetic <==> is_ascii_letter(c)
            &&& k.alphanumeric <==> (is_ascii_letter(c) || is_ascii_digit(c))
        },
{
    CharClass {
        whitespace: is_whitespace(c),
        numeric: is_numeric(c),
        uppercase: is_uppercase(c),
        alphabetic: is_alphabetic(c),
        alphanumeric: is_alphanumeric(c),
    }
}

/// Calls `String::push`, which appends one character to the string.
#[verifier::external_body]
pub(crate) fn push_char(s: &mut String, c: char)
    ensures
        final(s)@ == old(s)@.push(c),
{
    s.push(c)
}

} // verus!
