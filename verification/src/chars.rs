//! Properties of single characters that the engine takes from the standard
//! library's Unicode tables.

use vstd::prelude::*;

verus! {

/// Whether the standard library classifies the character as alphabetic or
/// numeric.
pub uninterp spec fn alphanumeric(c: char) -> bool;

/// The upper-case mapping of a character in the standard library, which may
/// be longer than one character.
pub uninterp spec fn uppercase_of(c: char) -> Seq<char>;

/// The lower-case mapping of a character in the standard library, which may
/// be longer than one character.
pub uninterp spec fn lowercase_of(c: char) -> Seq<char>;

/// Calls `char::is_alphanumeric`. The result is taken on trust to be the
/// value that `alphanumeric` names.
#[verifier::external_body]
pub(crate) fn is_alphanumeric(c: char) -> (r: bool)
    ensures
        r == alphanumeric(c),
{
    c.is_alphanumeric()
}

/// Calls `char::to_uppercase` and collects what it yields. The result is
/// taken on trust to be the value that `uppercase_of` names.
#[verifier::external_body]
pub(crate) fn to_uppercase(c: char) -> (r: Vec<char>)
    ensures
        r@ == uppercase_of(c),
{
    c.to_uppercase().collect()
}

/// Calls `char::to_lowercase` and collects what it yields. The result is
/// taken on trust to be the value that `lowercase_of` names.
#[verifier::external_body]
pub(crate) fn to_lowercase(c: char) -> (r: Vec<char>)
    ensures
        r@ == lowercase_of(c),
{
    c.to_lowercase().collect()
}

/// A word character is alphanumeric or an underscore.
pub open spec fn spec_is_word(c: char) -> bool {
    alphanumeric(c) || c == '_'
}

/// Tells whether a character is a word character, given whether it is
/// alphanumeric.
pub fn word_given(c: char, alnum: bool) -> (r: bool)
    ensures
        r == (alnum || c == '_'),
{
    alnum || c == '_'
}

/// Tells whether a character is a word character.
#[verifier::when_used_as_spec(spec_is_word)]
pub fn is_word(c: char) -> (r: bool)
    ensures
        r == spec_is_word(c),
{
    word_given(c, is_alphanumeric(c))
}

/// A mapping that is a single character stands for itself; any other leaves
/// the character as it is.
pub open spec fn single_or(mapping: Seq<char>, c: char) -> char {
    if mapping.len() == 1 {
        mapping[0]
    } else {
        c
    }
}

/// The simple upper-case form of a character.
pub open spec fn spec_upper(c: char) -> char {
    single_or(uppercase_of(c), c)
}

/// The simple lower-case form of a character.
pub open spec fn spec_lower(c: char) -> char {
    single_or(lowercase_of(c), c)
}

/// Picks the character of a one-character mapping, and `c` otherwise.
pub fn pick_single(mapping: &Vec<char>, c: char) -> (r: char)
    ensures
        r == single_or(mapping@, c),
{
    if mapping.len() == 1 {
        mapping[0]
    } else {
        c
    }
}

/// Computes the simple upper-case form of a character.
#[verifier::when_used_as_spec(spec_upper)]
pub fn upper(c: char) -> (r: char)
    ensures
        r == spec_upper(c),
{
    let m = to_uppercase(c);
    pick_single(&m, c)
}

/// Computes the simple lower-case form of a character.
#[verifier::when_used_as_spec(spec_lower)]
pub fn lower(c: char) -> (r: char)
    ensures
        r == spec_lower(c),
{
    let m = to_lowercase(c);
    pick_single(&m, c)
}

/// Two characters are equal, or with `casei` set, equal in upper case.
pub open spec fn spec_char_eq(casei: bool, a: char, b: char) -> bool {
    a == b || (casei && spec_upper(a) == spec_upper(b))
}

/// Compares two characters, ignoring case if asked to.
#[verifier::when_used_as_spec(spec_char_eq)]
pub fn char_eq(casei: bool, a: char, b: char) -> (r: bool)
    ensures
        r == spec_char_eq(casei, a, b),
{
    a == b || (casei && upper(a) == upper(b))
}

/// Some range among the first `n` holds the character.
pub open spec fn in_ranges(ranges: Seq<(char, char)>, n: nat, c: char) -> bool {
    exists|i: int| 0 <= i < n && i < ranges.len() && (#[trigger] ranges[i]).0 <= c <= ranges[i].1
}

/// The ranges hold the character, or with `casei` set, one of its two other
/// cases.
pub open spec fn spec_class_has(ranges: Seq<(char, char)>, casei: bool, c: char) -> bool {
    in_ranges(ranges, ranges.len(), c) || (casei && (in_ranges(
        ranges,
        ranges.len(),
        spec_upper(c),
    ) || in_ranges(ranges, ranges.len(), spec_lower(c))))
}

/// Searches the ranges for one that holds the character.
pub fn ranges_hold(ranges: &[(char, char)], c: char) -> (r: bool)
    ensures
        r == in_ranges(ranges@, ranges@.len(), c),
{
    let mut i: usize = 0;
    while i < ranges.len()
        invariant
            i <= ranges.len(),
            !in_ranges(ranges@, i as nat, c),
        decreases ranges.len() - i,
    {
        let (lo, hi) = ranges[i];
        if lo <= c && c <= hi {
            return true;
        }
        i += 1;
    }
    false
}

/// Tells whether a class holds a character, ignoring case if asked to.
pub fn class_has(ranges: &[(char, char)], casei: bool, c: char) -> (r: bool)
    ensures
        r == spec_class_has(ranges@, casei, c),
{
    if ranges_hold(ranges, c) {
        true
    } else if casei {
        ranges_hold(ranges, upper(c)) || ranges_hold(ranges, lower(c))
    } else {
        false
    }
}

/// Calls `char::from_u32`. Taken on trust: the result is a character
/// exactly when the number is the code of one, that is, when it is at most
/// `0x10FFFF` and no surrogate; and then the character has that code.
#[verifier::external_body]
pub(crate) fn char_from_u32(v: u32) -> (r: Option<char>)
    ensures
        r is Some <==> (v <= 0xD7FF || 0xE000 <= v <= 0x10FFFF),
        r is Some ==> r->0 as u32 == v,
{
    char::from_u32(v)
}

} // verus!
