//! Characters of a text and the byte offsets at which they start.

use vstd::prelude::*;
use vstd::string::StringSliceAdditionalSpecFns;
use vstd::utf8::{
    char_is_scalar,
    encode_scalar,
    encode_utf8,
    encode_utf8_first_scalar,
    encode_utf8_valid_utf8,
    is_char_boundary,
    length_of_first_scalar,
    pop_first_scalar,
};

verus! {

/// The number of bytes that a character takes in UTF-8.
pub open spec fn spec_width(c: char) -> nat {
    let v = c as u32;
    if v <= 0x7F {
        1
    } else if v <= 0x7FF {
        2
    } else if v <= 0xFFFF {
        3
    } else {
        4
    }
}

/// Computes the number of bytes that a character takes in UTF-8.
pub fn width(c: char) -> (r: usize)
    ensures
        r == spec_width(c),
{
    let v: u32 = c as u32;
    if v <= 0x7F {
        1
    } else if v <= 0x7FF {
        2
    } else if v <= 0xFFFF {
        3
    } else {
        4
    }
}

/// The number of bytes that a sequence of characters takes in UTF-8.
pub open spec fn byte_len(chars: Seq<char>) -> nat
    decreases chars.len(),
{
    if chars.len() == 0 {
        0
    } else {
        byte_len(chars.drop_last()) + spec_width(chars.last())
    }
}

/// The byte offset at which the `k`-th character starts; for `k` the number
/// of characters, the length in bytes.
pub open spec fn byte_offset(chars: Seq<char>, k: int) -> nat {
    byte_len(chars.take(k))
}

/// The characters of a text.
pub fn to_chars(text: &str) -> (r: Vec<char>)
    ensures
        r@ == text@,
{
    let mut r: Vec<char> = Vec::new();
    for c in it: text.chars()
        invariant
            it.seq() == text@,
            r@ == it.seq().take(it.index() as int),
    {
        r.push(c);
        assert(it.seq().take(it.index() + 1) =~= it.seq().take(it.index() as int).push(c));
    }
    assert(text@.take(text@.len() as int) =~= text@);
    r
}

/// The bytes of a sequence are those of its first character and those of
/// the rest.
pub proof fn lemma_byte_len_front(chars: Seq<char>)
    requires
        chars.len() > 0,
    ensures
        byte_len(chars) == spec_width(chars[0]) + byte_len(chars.drop_first()),
    decreases chars.len(),
{
    if chars.len() == 1 {
        assert(chars.drop_last() =~= chars.drop_first());
        assert(byte_len(chars.drop_first()) == 0);
    } else {
        lemma_byte_len_front(chars.drop_last());
        assert(chars.drop_last().drop_first() =~= chars.drop_first().drop_last());
    }
}

/// `byte_len` is the length of the UTF-8 encoding.
pub proof fn lemma_byte_len_is_encoded_len(chars: Seq<char>)
    ensures
        encode_utf8(chars).len() == byte_len(chars),
    decreases chars.len(),
{
    if chars.len() > 0 {
        let c = chars[0];
        char_is_scalar(c);
        assert(encode_scalar(c as u32).len() == spec_width(c));
        lemma_byte_len_front(chars);
        lemma_byte_len_is_encoded_len(chars.drop_first());
    }
}

/// A prefix takes no more bytes than the whole.
pub proof fn lemma_byte_offset_ordered(chars: Seq<char>, i: int, j: int)
    requires
        0 <= i <= j <= chars.len(),
    ensures
        byte_offset(chars, i) <= byte_offset(chars, j),
    decreases j - i,
{
    if i < j {
        lemma_byte_offset_ordered(chars, i, j - 1);
        assert(chars.take(j).drop_last() =~= chars.take(j - 1));
    }
}

/// The table of byte offsets of a text: one entry for the start of each
/// character and a last one for the length in bytes.
pub open spec fn is_offset_table(table: Seq<usize>, chars: Seq<char>) -> bool {
    &&& table.len() == chars.len() + 1
    &&& forall|k: int| 0 <= k <= chars.len() ==> #[trigger] table[k] == byte_offset(chars, k)
}

/// Builds the table of byte offsets of a text.
pub fn char_to_byte_indices(input: &str) -> (bytei: Vec<usize>)
    ensures
        is_offset_table(bytei@, input@),
{
    let total = input.as_bytes().len();
    proof {
        lemma_byte_len_is_encoded_len(input@);
        assert(input@.take(input@.len() as int) =~= input@);
    }
    let mut bytei: Vec<usize> = Vec::with_capacity(total);
    let mut at: usize = 0;
    assert(input@.take(0) =~= Seq::<char>::empty());
    for c in it: input.chars()
        invariant
            it.seq() == input@,
            total == byte_offset(input@, input@.len() as int),
            at == byte_offset(input@, it.index() as int),
            bytei@.len() == it.index(),
            forall|k: int| 0 <= k < it.index() ==> #[trigger] bytei@[k] == byte_offset(input@, k),
    {
        bytei.push(at);
        proof {
            let k = it.index() as int;
            assert(input@.take(k + 1).drop_last() =~= input@.take(k));
            lemma_byte_offset_ordered(input@, k + 1, input@.len() as int);
        }
        at = at + width(c);
    }
    // One more for the length.
    bytei.push(total);
    bytei
}

/// Collects characters into a `String` with the standard library's
/// `FromIterator` for `String`. The result is taken on trust to hold the
/// same characters in the same order.
#[verifier::external_body]
pub(crate) fn string_from_chars(chars: &Vec<char>) -> (r: String)
    ensures
        r@ == chars@,
{
    chars.iter().collect()
}

/// The byte offset at which a character starts is a character boundary of
/// the text's UTF-8 encoding, and so is the length of the encoding.
pub proof fn law_offsets_are_boundaries(chars: Seq<char>, k: int)
    requires
        0 <= k <= chars.len(),
    ensures
        byte_offset(chars, k) <= encode_utf8(chars).len(),
        is_char_boundary(encode_utf8(chars), byte_offset(chars, k) as int),
    decreases k,
{
    let bytes = encode_utf8(chars);
    encode_utf8_valid_utf8(chars);
    lemma_byte_len_is_encoded_len(chars);
    lemma_byte_offset_ordered(chars, k, chars.len() as int);
    assert(chars.take(chars.len() as int) =~= chars);
    if k == 0 {
        assert(chars.take(0) =~= Seq::<char>::empty());
    } else {
        let rest = chars.drop_first();
        let c = chars[0];
        encode_utf8_first_scalar(chars);
        char_is_scalar(c);
        assert(encode_scalar(c as u32).len() == spec_width(c));
        assert(pop_first_scalar(bytes) =~= encode_utf8(rest));
        assert(length_of_first_scalar(bytes) == spec_width(c));
        lemma_byte_len_front(chars.take(k));
        assert(chars.take(k).drop_first() =~= rest.take(k - 1));
        assert(byte_offset(chars, k) == spec_width(c) + byte_offset(rest, k - 1));
        law_offsets_are_boundaries(rest, k - 1);
    }
}

} // verus!
