//! The parser: reads the source text of an expression and builds the syntax
//! tree that the grammar gives it.

use vstd::prelude::*;
use crate::chars::{char_from_u32};
use crate::classes::{
    complement,
    is_name,
    lemma_named_ascii,
    lemma_perl_ascii,
    named_class,
    outside,
    perl_class,
    perl_ranges,
};
use crate::compile::{MAX_GROUP, all_bounded, groups_bounded, views_of};
use crate::expand::{all_digits, copy_chars, digits_value, lemma_digits_grow, scan_name};
use crate::grammar::{
    CharAt,
    Counts,
    Cursor,
    Failure,
    Fault,
    Flags,
    FlagsAt,
    GroupHead,
    MAX_REPEAT,
    Parsed,
    RangesAt,
    after_directive,
    alternation,
    at_directive,
    atom,
    bracket_class,
    cat_of,
    class_char,
    class_items,
    counted,
    counted_ast,
    digits_end,
    escape,
    escaped_char,
    find_char,
    greed_for,
    group,
    group_head,
    hex_digit,
    hex_end,
    hex_escape,
    hex_value,
    is_hex,
    is_perl_letter,
    optional_tail,
    peek,
    perl_letter,
    perl_negated,
    postfix,
    range_le,
    repeated,
    scan_flags,
    sequence,
    sort_ranges,
    spec_is_punct,
    unicode_class,
    with_range,
};
use crate::parse::{Ast, AstSpec, Greed, Repeater, ast_view};
use crate::text::string_from_chars;
use crate::unicode::{unicode_ranges, unicode_table};

verus! {

/// A fault and the position of the character at which it was found.
#[derive(Clone, Copy, Debug)]
pub struct ParseFault {
    pub pos: usize,
    pub fault: Fault,
}

impl View for ParseFault {
    type V = Failure;

    open spec fn view(&self) -> Failure {
        Failure { pos: self.pos as int, fault: self.fault }
    }
}

/// The character at position `i + off`, if there is one.
pub fn peek_at(chars: &Vec<char>, i: usize, off: usize) -> (r: Option<char>)
    ensures
        r == peek(chars@, i + off),
{
    if i < chars.len() && off < chars.len() - i {
        Some(chars[i + off])
    } else {
        None
    }
}

/// The character at position `i`.
pub fn char_at(chars: &Vec<char>, i: usize) -> (c: char)
    requires
        i < chars.len(),
    ensures
        c == chars@[i as int],
{
    chars[i]
}

/// Tells whether position `i + off` holds the character `c`.
pub fn holds_char(chars: &Vec<char>, i: usize, off: usize, c: char) -> (r: bool)
    ensures
        r == (peek(chars@, i + off) == Some(c)),
{
    match peek_at(chars, i, off) {
        Some(found) => found == c,
        None => false,
    }
}

/// Tells whether a character has a meaning of its own in an expression.
pub fn is_punct(c: char) -> (r: bool)
    ensures
        r == spec_is_punct(c),
{
    c == '\\' || c == '.' || c == '+' || c == '*' || c == '?' || c == '(' || c == ')' || c == '|'
        || c == '[' || c == ']' || c == '{' || c == '}' || c == '^' || c == '$'
}

/// Finds the end of the run of decimal digits that starts at `i`.
pub fn scan_digits(chars: &Vec<char>, i: usize) -> (j: usize)
    requires
        i <= chars.len(),
    ensures
        j == digits_end(chars@, i as int),
        i <= j <= chars.len(),
        all_digits(chars@.subrange(i as int, j as int)),
{
    let mut j = i;
    while j < chars.len() && '0' <= chars[j] && chars[j] <= '9'
        invariant
            i <= j <= chars.len(),
            digits_end(chars@, i as int) == digits_end(chars@, j as int),
            all_digits(chars@.subrange(i as int, j as int)),
        decreases chars.len() - j,
    {
        assert(chars@.subrange(i as int, j + 1) =~= chars@.subrange(i as int, j as int).push(
            chars@[j as int],
        ));
        j += 1;
    }
    j
}

/// Tells whether a character is a hexadecimal digit.
pub fn is_hex_digit(c: char) -> (r: bool)
    ensures
        r == is_hex(c),
{
    ('0' <= c && c <= '9') || ('a' <= c && c <= 'f') || ('A' <= c && c <= 'F')
}

/// Finds the end of the run of hexadecimal digits that starts at `i`.
pub fn scan_hex(chars: &Vec<char>, i: usize) -> (j: usize)
    requires
        i <= chars.len(),
    ensures
        j == hex_end(chars@, i as int),
        i <= j <= chars.len(),
        forall|k: int| i <= k < j ==> is_hex(#[trigger] chars@[k]),
{
    let mut j = i;
    while j < chars.len() && is_hex_digit(chars[j])
        invariant
            i <= j <= chars.len(),
            hex_end(chars@, i as int) == hex_end(chars@, j as int),
            forall|k: int| i <= k < j ==> is_hex(#[trigger] chars@[k]),
        decreases chars.len() - j,
    {
        j += 1;
    }
    j
}

/// Finds the first position from `i` on that holds the character `c`.
pub fn scan_for(chars: &Vec<char>, c: char, i: usize) -> (j: usize)
    requires
        i <= chars.len(),
    ensures
        j == find_char(chars@, c, i as int),
        i <= j <= chars.len(),
{
    let mut j = i;
    while j < chars.len() && chars[j] != c
        invariant
            i <= j <= chars.len(),
            find_char(chars@, c, i as int) == find_char(chars@, c, j as int),
        decreases chars.len() - j,
    {
        j += 1;
    }
    j
}

/// Reads the count that the digits from `a` up to `b` write. A count above
/// the largest one allowed is reported as one more than that.
pub fn read_count(chars: &Vec<char>, a: usize, b: usize) -> (r: usize)
    requires
        a <= b <= chars.len(),
        all_digits(chars@.subrange(a as int, b as int)),
    ensures
        digits_value(chars@.subrange(a as int, b as int)) <= MAX_REPEAT ==> r == digits_value(
            chars@.subrange(a as int, b as int),
        ),
        digits_value(chars@.subrange(a as int, b as int)) > MAX_REPEAT ==> r == MAX_REPEAT + 1,
{
    let ghost digits = chars@.subrange(a as int, b as int);
    let mut n: usize = 0;
    let mut i: usize = a;
    while i < b
        invariant
            a <= i <= b <= chars.len(),
            digits == chars@.subrange(a as int, b as int),
            all_digits(digits),
            n <= MAX_REPEAT,
            n == digits_value(digits.take(i - a)),
        decreases b - i,
    {
        let c = chars[i];
        assert(digits[i - a] == c);
        assert('0' <= digits[i - a] <= '9');
        let d: usize = (c as u32 - '0' as u32) as usize;
        assert(digits.take(i - a + 1).drop_last() =~= digits.take(i - a));
        n = n * 10 + d;
        if n > MAX_REPEAT {
            proof {
                lemma_digits_grow(digits, i - a + 1);
            }
            return MAX_REPEAT + 1;
        }
        i += 1;
    }
    assert(digits.take(b - a) =~= digits);
    n
}

/// Sixteen to the power of `k`.
pub open spec fn sixteen_to(k: nat) -> nat
    decreases k,
{
    if k == 0 {
        1
    } else {
        16 * sixteen_to((k - 1) as nat)
    }
}

/// Computes the value of a hexadecimal digit.
pub fn hex_digit_value(c: char) -> (r: u32)
    requires
        is_hex(c),
    ensures
        r == hex_digit(c),
        r < 16,
{
    if '0' <= c && c <= '9' {
        c as u32 - '0' as u32
    } else if 'a' <= c && c <= 'f' {
        c as u32 - 'a' as u32 + 10
    } else {
        c as u32 - 'A' as u32 + 10
    }
}

/// Reads the number that the hexadecimal digits from `a` up to `b` write.
pub fn read_hex(chars: &Vec<char>, a: usize, b: usize) -> (r: u32)
    requires
        a <= b <= chars.len(),
        b - a <= 6,
        forall|k: int| a <= k < b ==> is_hex(#[trigger] chars@[k]),
    ensures
        r == hex_value(chars@.subrange(a as int, b as int)),
{
    let ghost digits = chars@.subrange(a as int, b as int);
    let mut n: u32 = 0;
    let mut i: usize = a;
    proof {
        reveal_with_fuel(sixteen_to, 8);
    }
    while i < b
        invariant
            a <= i <= b <= chars.len(),
            b - a <= 6,
            digits == chars@.subrange(a as int, b as int),
            forall|k: int| a <= k < b ==> is_hex(#[trigger] chars@[k]),
            n == hex_value(digits.take(i - a)),
            n < sixteen_to((i - a) as nat),
            sixteen_to((i - a) as nat) <= 0x100000 || i == b,
        decreases b - i,
    {
        let c = chars[i];
        assert(digits[i - a] == c);
        let d = hex_digit_value(c);
        assert(digits.take(i - a + 1).drop_last() =~= digits.take(i - a));
        proof {
            reveal_with_fuel(sixteen_to, 8);
            assert(sixteen_to((i - a + 1) as nat) == 16 * sixteen_to((i - a) as nat));
        }
        n = n * 16 + d;
        i += 1;
    }
    assert(digits.take(b - a) =~= digits);
    n
}

/// A character with the position behind what wrote it, or a fault.
pub type CharRead = Result<(char, usize), ParseFault>;

/// Whether what was read is what the grammar gives.
pub open spec fn char_agrees(r: CharRead, want: CharAt) -> bool {
    match want {
        Ok((c, end)) => r is Ok && r->Ok_0.0 == c && r->Ok_0.1 == end,
        Err(f) => r is Err && r->Err_0@ == f,
    }
}

/// Reads the hexadecimal escape at `pos`, where `pos` holds the backslash
/// and `x` follows it.
pub fn read_hex_escape(chars: &Vec<char>, pos: usize) -> (r: CharRead)
    requires
        pos < chars.len(),
    ensures
        char_agrees(r, hex_escape(chars@, pos as int)),
{
    let bad = Err(ParseFault { pos, fault: Fault::BadHex });
    if holds_char(chars, pos, 2, '{') {
        let a = pos + 3;
        let b = scan_hex(chars, a);
        if a < b && b - a <= 6 && holds_char(chars, b, 0, '}') {
            let v = read_hex(chars, a, b);
            match char_from_u32(v) {
                Some(c) => {
                    assert(v as char == c) by {
                        vstd::utf8::char_u32_cast(c, v);
                    }
                    Ok((c, b + 1))
                },
                None => bad,
            }
        } else {
            bad
        }
    } else if chars.len() - pos > 3 && is_hex_digit(chars[pos + 2]) && is_hex_digit(
        chars[pos + 3],
    ) {
        let v = read_hex(chars, pos + 2, pos + 4);
        proof {
            let digits = chars@.subrange(pos + 2, pos + 4);
            assert(digits.drop_last().drop_last() =~= Seq::<char>::empty());
            reveal_with_fuel(hex_value, 3);
            assert(v < 256);
        }
        match char_from_u32(v) {
            Some(c) => {
                assert(v as char == c) by {
                    vstd::utf8::char_u32_cast(c, v);
                }
                Ok((c, pos + 4))
            },
            None => bad,
        }
    } else {
        bad
    }
}

/// Reads the character that the escape at `pos` writes, where `pos` holds
/// the backslash.
pub fn read_escaped_char(chars: &Vec<char>, pos: usize) -> (r: CharRead)
    requires
        pos < chars.len(),
    ensures
        char_agrees(r, escaped_char(chars@, pos as int)),
        r is Ok ==> pos < r->Ok_0.1 <= chars.len(),
{
    match peek_at(chars, pos, 1) {
        None => Err(ParseFault { pos, fault: Fault::TrailingBackslash }),
        Some(c) => {
            if c == 'a' {
                Ok(('\x07', pos + 2))
            } else if c == 'f' {
                Ok(('\x0c', pos + 2))
            } else if c == 't' {
                Ok(('\t', pos + 2))
            } else if c == 'n' {
                Ok(('\n', pos + 2))
            } else if c == 'r' {
                Ok(('\r', pos + 2))
            } else if c == 'v' {
                Ok(('\x0b', pos + 2))
            } else if c == 'x' {
                read_hex_escape(chars, pos)
            } else if is_punct(c) {
                Ok((c, pos + 2))
            } else {
                Err(ParseFault { pos, fault: Fault::UnknownEscape })
            }
        },
    }
}

/// Tells whether a range comes no later than another.
pub fn range_comes_first(a: (char, char), b: (char, char)) -> (r: bool)
    ensures
        r == range_le(a, b),
{
    a.0 < b.0 || (a.0 == b.0 && a.1 <= b.1)
}

/// Puts a range into a list, behind the last range that does not come after
/// it.
pub fn insert_range(v: &mut Vec<(char, char)>, r: (char, char))
    ensures
        final(v)@ == with_range(old(v)@, r),
{
    let ghost given = v@;
    let mut k: usize = v.len();
    assert(given.take(k as int) =~= given);
    assert(given.skip(k as int) =~= Seq::<(char, char)>::empty());
    assert(with_range(given, r) =~= with_range(given.take(k as int), r) + given.skip(k as int));
    while k > 0 && !range_comes_first(v[k - 1], r)
        invariant
            k <= v.len(),
            v@ == given,
            with_range(given, r) == with_range(given.take(k as int), r) + given.skip(k as int),
        decreases k,
    {
        assert(given.take(k as int).drop_last() =~= given.take(k - 1));
        assert(given.take(k as int).last() == given[k - 1]);
        assert(with_range(given.take(k - 1), r).push(given[k - 1]) + given.skip(k as int)
            =~= with_range(given.take(k - 1), r) + given.skip(k - 1));
        k -= 1;
    }
    assert(with_range(given.take(k as int), r) == given.take(k as int).push(r));
    v.insert(k, r);
    assert(v@ =~= given.take(k as int).push(r) + given.skip(k as int));
}

/// Puts the ranges in order.
pub fn sort(ranges: &Vec<(char, char)>) -> (r: Vec<(char, char)>)
    ensures
        r@ == sort_ranges(ranges@),
{
    let mut out: Vec<(char, char)> = Vec::with_capacity(ranges.len());
    let mut i: usize = 0;
    assert(ranges@.take(0) =~= Seq::<(char, char)>::empty());
    while i < ranges.len()
        invariant
            i <= ranges.len(),
            out@ == sort_ranges(ranges@.take(i as int)),
        decreases ranges.len() - i,
    {
        assert(ranges@.take(i + 1).drop_last() =~= ranges@.take(i as int));
        insert_range(&mut out, ranges[i]);
        i += 1;
    }
    assert(ranges@.take(ranges.len() as int) =~= ranges@);
    out
}

/// Ranges with the position behind what wrote them, or a fault.
pub type RangesRead = Result<(Vec<(char, char)>, usize), ParseFault>;

/// Whether what was read is what the grammar gives.
pub open spec fn ranges_agree(r: RangesRead, want: RangesAt) -> bool {
    match want {
        Ok((ranges, end)) => r is Ok && r->Ok_0.0@ == ranges && r->Ok_0.1 == end,
        Err(f) => r is Err && r->Err_0@ == f,
    }
}

/// Reads the Unicode class that is written at `pos`, where `pos` holds the
/// backslash and `p` or `P` follows it.
pub fn read_unicode_class(chars: &Vec<char>, pos: usize) -> (r: RangesRead)
    requires
        pos + 1 < chars.len(),
    ensures
        ranges_agree(r, unicode_class(chars@, pos as int)),
        r is Ok ==> pos < r->Ok_0.1 <= chars.len(),
{
    let unknown = Err(ParseFault { pos, fault: Fault::UnknownClass });
    if holds_char(chars, pos, 2, '{') {
        let a = pos + 3;
        let b = scan_for(chars, '}', a);
        if b < chars.len() {
            let name = string_from_chars(&copy_chars(chars, a, b));
            match unicode_table(&name) {
                Some(ranges) => Ok((ranges, b + 1)),
                None => unknown,
            }
        } else {
            Err(ParseFault { pos, fault: Fault::UnclosedClass })
        }
    } else if chars.len() - pos > 2 {
        let name = string_from_chars(&copy_chars(chars, pos + 2, pos + 3));
        match unicode_table(&name) {
            Some(ranges) => Ok((ranges, pos + 3)),
            None => unknown,
        }
    } else {
        unknown
    }
}

/// Reads a single character inside brackets at `i`.
pub fn read_class_char(chars: &Vec<char>, i: usize) -> (r: CharRead)
    ensures
        char_agrees(r, class_char(chars@, i as int)),
        r is Ok ==> i < r->Ok_0.1 <= chars.len(),
{
    if i < chars.len() {
        if chars[i] == '\\' {
            read_escaped_char(chars, i)
        } else {
            Ok((chars[i], i + 1))
        }
    } else {
        Err(ParseFault { pos: i, fault: Fault::UnclosedClass })
    }
}

/// Tells whether a character is the letter of a shorthand class.
pub fn is_perl(c: char) -> (r: bool)
    ensures
        r == is_perl_letter(c),
{
    c == 'd' || c == 's' || c == 'w' || c == 'D' || c == 'S' || c == 'W'
}

/// The ranges of the shorthand class with the given letter, as they stand
/// inside brackets: those of a negated class are the ranges outside it.
pub fn perl_inside(letter: char) -> (r: Vec<(char, char)>)
    requires
        is_perl_letter(letter),
    ensures
        r@ == if perl_negated(letter) {
            outside(perl_ranges(perl_letter(letter)))
        } else {
            perl_ranges(perl_letter(letter))
        },
{
    let lower = if letter == 'd' || letter == 'D' {
        'd'
    } else if letter == 's' || letter == 'S' {
        's'
    } else {
        'w'
    };
    let ranges = perl_class(lower);
    if letter == 'D' || letter == 'S' || letter == 'W' {
        proof {
            lemma_perl_ascii(lower);
        }
        complement(&ranges)
    } else {
        ranges
    }
}

/// Reads the items inside brackets from `start` on, up to the closing
/// bracket, where `open` holds the opening bracket.
pub fn read_class_items(chars: &Vec<char>, open: usize, start: usize) -> (r: RangesRead)
    requires
        open < start <= chars.len(),
    ensures
        ranges_agree(r, class_items(chars@, open as int, start as int, true, Seq::empty())),
        r is Ok ==> start < r->Ok_0.1 <= chars.len(),
{
    let mut acc: Vec<(char, char)> = Vec::new();
    let mut i: usize = start;
    let mut first = true;
    loop
        invariant
            open < start <= i <= chars.len(),
            first ==> i == start,
            class_items(chars@, open as int, start as int, true, Seq::empty()) == class_items(
                chars@,
                open as int,
                i as int,
                first,
                acc@,
            ),
        decreases chars.len() - i,
    {
        let c = match peek_at(chars, i, 0) {
            None => {
                return Err(ParseFault { pos: open, fault: Fault::UnclosedClass });
            },
            Some(c) => c,
        };
        if c == ']' && !first {
            return Ok((acc, i + 1));
        } else if c == '[' && holds_char(chars, i, 1, ':') {
            let negated = holds_char(chars, i, 2, '^');
            let a: usize = if negated {
                i + 3
            } else {
                i + 2
            };
            let b = scan_for(chars, ':', a);
            if holds_char(chars, b, 1, ']') {
                let name = string_from_chars(&copy_chars(chars, a, b));
                match named_class(&name) {
                    None => {
                        return Err(ParseFault { pos: i, fault: Fault::UnknownClass });
                    },
                    Some(ranges) => {
                        let mut ranges = if negated {
                            proof {
                                lemma_named_ascii(name@);
                            }
                            complement(&ranges)
                        } else {
                            ranges
                        };
                        acc.append(&mut ranges);
                        i = b + 2;
                    },
                }
            } else {
                return Err(ParseFault { pos: i, fault: Fault::UnclosedClass });
            }
        } else if c == '\\' && peek_at(chars, i, 1).is_some() && is_perl(
            peek_at(chars, i, 1).unwrap(),
        ) {
            let letter = peek_at(chars, i, 1).unwrap();
            let mut ranges = perl_inside(letter);
            acc.append(&mut ranges);
            i = i + 2;
        } else if c == '\\' && holds_char(chars, i, 1, 'P') {
            return Err(ParseFault { pos: i, fault: Fault::NegatedClass });
        } else if c == '\\' && holds_char(chars, i, 1, 'p') {
            match read_unicode_class(chars, i) {
                Err(f) => {
                    return Err(f);
                },
                Ok((ranges, end)) => {
                    let mut ranges = ranges;
                    acc.append(&mut ranges);
                    i = end;
                },
            }
        } else {
            match read_class_char(chars, i) {
                Err(f) => {
                    return Err(f);
                },
                Ok((lo, next)) => {
                    if holds_char(chars, next, 0, '-') && peek_at(chars, next, 1).is_some()
                        && !holds_char(chars, next, 1, ']') {
                        match read_class_char(chars, next + 1) {
                            Err(f) => {
                                return Err(f);
                            },
                            Ok((hi, end)) => {
                                if hi < lo {
                                    return Err(ParseFault { pos: i, fault: Fault::InvalidRange });
                                }
                                acc.push((lo, hi));
                                i = end;
                            },
                        }
                    } else {
                        acc.push((lo, lo));
                        i = next;
                    }
                },
            }
        }
        first = false;
    }
}

/// The mathematical values of a list of trees.
pub open spec fn asts_view(xs: Seq<Ast>) -> Seq<AstSpec> {
    Seq::new(xs.len(), |i: int| ast_view(&xs[i]))
}

/// Every tree of the list has bounded group indices.
pub open spec fn asts_bounded(xs: Seq<Ast>) -> bool {
    forall|i: int| 0 <= i < xs.len() ==> groups_bounded(ast_view(&#[trigger] xs[i]))
}

/// A list whose trees have bounded group indices is bounded as a whole.
pub proof fn lemma_all_bounded(xs: &Vec<Ast>, i: nat)
    requires
        asts_bounded(xs@),
    ensures
        all_bounded(views_of(xs), i),
    decreases xs.len() - i,
{
    if i < xs.len() {
        assert(groups_bounded(ast_view(&xs@[i as int])));
        lemma_all_bounded(xs, i + 1);
    }
}

/// A tree read from the text, or a fault.
pub type AstRead = Result<Ast, ParseFault>;

/// Whether what was read is what the grammar gives, and the cursor stands
/// where the grammar puts it.
pub open spec fn agrees(r: AstRead, after: Cursor, want: Parsed) -> bool {
    match want {
        Ok((x, st)) => r is Ok && ast_view(&r->Ok_0) == x && after == st && groups_bounded(
            ast_view(&r->Ok_0),
        ),
        Err(f) => r is Err && r->Err_0@ == f,
    }
}

/// Makes one tree of a list of trees.
pub fn make_cat(items: Vec<Ast>) -> (r: Ast)
    requires
        asts_bounded(items@),
    ensures
        ast_view(&r) == cat_of(asts_view(items@)),
        groups_bounded(ast_view(&r)),
{
    let mut items = items;
    if items.len() == 0 {
        Ast::Nothing
    } else if items.len() == 1 {
        let ghost given = items@;
        let x = items.pop().unwrap();
        assert(x == given[0]);
        assert(asts_view(given)[0] == ast_view(&given[0]));
        x
    } else {
        proof {
            lemma_all_bounded(&items, 0);
        }
        let r = Ast::Cat(items);
        assert(ast_view(&r) == AstSpec::Cat(asts_view(items@))) by {
            assert(ast_view(&r)->Cat_0 =~= asts_view(items@));
        }
        r
    }
}

/// A copy of an optional name.
pub fn clone_name(name: &Option<String>) -> (r: Option<String>)
    ensures
        r == *name,
{
    match name {
        Some(n) => Some(n.clone()),
        None => None,
    }
}

/// A copy of a tree.
pub fn clone_ast(ast: &Ast) -> (r: Ast)
    requires
        groups_bounded(ast_view(ast)),
    ensures
        ast_view(&r) == ast_view(ast),
        groups_bounded(ast_view(&r)),
    decreases ast,
{
    match ast {
        Ast::Nothing => Ast::Nothing,
        Ast::Literal(c, casei) => Ast::Literal(*c, *casei),
        Ast::Dot(nl) => Ast::Dot(*nl),
        Ast::Class(ranges, negated, casei) => Ast::Class(
            crate::compile::copy_ranges(ranges),
            *negated,
            *casei,
        ),
        Ast::Begin(multi) => Ast::Begin(*multi),
        Ast::End(multi) => Ast::End(*multi),
        Ast::WordBoundary(yes) => Ast::WordBoundary(*yes),
        Ast::Capture(cap, name, x) => Ast::Capture(
            *cap,
            clone_name(name),
            Box::new(clone_ast(x)),
        ),
        Ast::Cat(xs) => {
            assert(ast_view(ast)->Cat_0 =~= views_of(xs));
            let copies = clone_asts(xs);
            let ghost trees = views_of(&copies);
            let r = Ast::Cat(copies);
            assert(ast_view(&r)->Cat_0 =~= trees);
            assert(ast_view(&r)->Cat_0 =~= ast_view(ast)->Cat_0);
            r
        },
        Ast::Alt(x, y) => Ast::Alt(Box::new(clone_ast(x)), Box::new(clone_ast(y))),
        Ast::Rep(x, rep, greed) => Ast::Rep(Box::new(clone_ast(x)), *rep, *greed),
    }
}

/// A copy of a list of trees.
pub fn clone_asts(xs: &Vec<Ast>) -> (r: Vec<Ast>)
    requires
        all_bounded(views_of(xs), 0),
    ensures
        r@.len() == xs@.len(),
        forall|i: int| 0 <= i < xs@.len() ==> ast_view(&#[trigger] r@[i]) == ast_view(&xs@[i]),
        all_bounded(views_of(&r), 0),
    decreases xs,
{
    let mut r: Vec<Ast> = Vec::with_capacity(xs.len());
    let mut i: usize = 0;
    while i < xs.len()
        invariant
            i <= xs.len(),
            all_bounded(views_of(xs), i as nat),
            r@.len() == i,
            forall|k: int| 0 <= k < i ==> ast_view(&#[trigger] r@[k]) == ast_view(&xs@[k]),
            asts_bounded(r@),
        decreases xs.len() - i,
    {
        let copy = clone_ast(&xs[i]);
        r.push(copy);
        i += 1;
    }
    proof {
        lemma_all_bounded(&r, 0);
    }
    r
}

/// The counts of a counted repetition as they were read.
pub struct CountsRead {
    pub min: usize,
    pub max: Option<usize>,
    pub end: usize,
}

/// A count, or one more than the largest count allowed if it is larger.
pub open spec fn capped(v: nat) -> nat {
    if v <= MAX_REPEAT {
        v
    } else {
        (MAX_REPEAT + 1) as nat
    }
}

/// Whether the counts that were read are those that the grammar gives, with
/// counts that are too large capped.
pub open spec fn counts_agree(r: Option<CountsRead>, want: Option<Counts>) -> bool {
    match want {
        None => r is None,
        Some(c) => {
            &&& r is Some
            &&& r->0.end == c.end
            &&& r->0.min == capped(c.min)
            &&& c.max is None <==> r->0.max is None
            &&& c.max is Some ==> r->0.max->0 == capped(c.max->0)
        },
    }
}

/// Reads the counted repetition at `pos`, where `pos` holds the opening
/// brace.
pub fn read_counts(chars: &Vec<char>, pos: usize) -> (r: Option<CountsRead>)
    requires
        pos < chars.len(),
    ensures
        counts_agree(r, counted(chars@, pos as int)),
        r is Some ==> pos < r->0.end <= chars.len(),
{
    let a = pos + 1;
    let b = scan_digits(chars, a);
    if a < b {
        let min = read_count(chars, a, b);
        if holds_char(chars, b, 0, '}') {
            Some(CountsRead { min, max: Some(min), end: b + 1 })
        } else if holds_char(chars, b, 0, ',') {
            let c = b + 1;
            let d = scan_digits(chars, c);
            if holds_char(chars, d, 0, '}') {
                if c == d {
                    Some(CountsRead { min, max: None, end: d + 1 })
                } else {
                    let max = read_count(chars, c, d);
                    Some(CountsRead { min, max: Some(max), end: d + 1 })
                }
            } else {
                None
            }
        } else {
            None
        }
    } else {
        None
    }
}

/// Builds `k` optional iterations of a tree, each inside the one before it.
pub fn make_tail(x: &Ast, k: usize, greed: Greed) -> (r: Ast)
    requires
        groups_bounded(ast_view(x)),
    ensures
        ast_view(&r) == optional_tail(ast_view(x), k as nat, greed),
        groups_bounded(ast_view(&r)),
    decreases k,
{
    if k <= 1 {
        Ast::Rep(Box::new(clone_ast(x)), Repeater::ZeroOne, greed)
    } else {
        let inner = make_tail(x, k - 1, greed);
        let mut items: Vec<Ast> = Vec::with_capacity(2);
        items.push(clone_ast(x));
        items.push(inner);
        proof {
            lemma_all_bounded(&items, 0);
        }
        let ghost trees = views_of(&items);
        let cat = Ast::Cat(items);
        assert(ast_view(&cat)->Cat_0 =~= trees);
        assert(groups_bounded(ast_view(&cat)));
        assert(ast_view(&cat)->Cat_0 =~= seq![
            ast_view(x),
            optional_tail(ast_view(x), (k - 1) as nat, greed),
        ]);
        Ast::Rep(Box::new(cat), Repeater::ZeroOne, greed)
    }
}

/// The mathematical value of a largest count.
pub open spec fn max_view(max: Option<usize>) -> Option<nat> {
    match max {
        Some(m) => Some(m as nat),
        None => None,
    }
}

/// Builds a counted repetition of a tree from the unbounded operators.
pub fn make_counted(x: Ast, min: usize, max: Option<usize>, greed: Greed) -> (r: Ast)
    requires
        groups_bounded(ast_view(&x)),
    ensures
        ast_view(&r) == counted_ast(
            ast_view(&x),
            Counts { min: min as nat, max: max_view(max), end: 0 },
            greed,
        ),
        groups_bounded(ast_view(&r)),
{
    let ghost copies = Seq::new(min as nat, |i: int| ast_view(&x));
    let mut items: Vec<Ast> = Vec::new();
    let mut i: usize = 0;
    while i < min
        invariant
            i <= min,
            groups_bounded(ast_view(&x)),
            asts_bounded(items@),
            items@.len() == i,
            forall|k: int| 0 <= k < i ==> ast_view(&#[trigger] items@[k]) == ast_view(&x),
        decreases min - i,
    {
        items.push(clone_ast(&x));
        i += 1;
    }
    assert(asts_view(items@) =~= copies);
    match max {
        None => {
            let star = Ast::Rep(Box::new(x), Repeater::ZeroMore, greed);
            items.push(star);
            assert(asts_view(items@) =~= copies.push(ast_view(&star)));
        },
        Some(m) => {
            if m > min {
                let tail = make_tail(&x, m - min, greed);
                items.push(tail);
                assert(asts_view(items@) =~= copies.push(ast_view(&tail)));
            }
        },
    }
    make_cat(items)
}

/// The state of a parser: the text, the position in it, the flags in force
/// and the number of groups opened so far.
pub struct Parser {
    pub chars: Vec<char>,
    pub pos: usize,
    pub flags: Flags,
    pub ncap: usize,
}

impl Parser {
    /// The text that is read.
    pub open spec fn text(&self) -> Seq<char> {
        self.chars@
    }

    /// Where the reading stands.
    pub open spec fn cursor(&self) -> Cursor {
        Cursor { pos: self.pos as int, flags: self.flags, ncap: self.ncap as nat }
    }

    /// The position lies in the text and the groups are not too many.
    pub open spec fn wf(&self) -> bool {
        self.pos <= self.chars.len() && self.ncap <= MAX_GROUP
    }

    /// Computes the preference of a repetition.
    pub fn greed(&self, lazy: bool) -> (r: Greed)
        ensures
            r == greed_for(lazy, self.flags),
    {
        if lazy != self.flags.swap_greed {
            Greed::Ungreedy
        } else {
            Greed::Greedy
        }
    }

    /// Applies to a tree the repetition operators that follow it.
    pub fn read_postfix(&mut self, x: Ast) -> (r: AstRead)
        requires
            old(self).wf(),
            groups_bounded(ast_view(&x)),
        ensures
            final(self).text() == old(self).text(),
            r is Ok ==> final(self).wf() && final(self).pos >= old(self).pos,
            agrees(r, final(self).cursor(), postfix(old(self).text(), old(self).cursor(), ast_view(&x))),
        decreases old(self).chars.len() - old(self).pos,
    {
        let c = match peek_at(&self.chars, self.pos, 0) {
            None => {
                return Ok(x);
            },
            Some(c) => c,
        };
        if c == '?' || c == '*' || c == '+' {
            let lazy = holds_char(&self.chars, self.pos, 1, '?');
            let rep = if c == '?' {
                Repeater::ZeroOne
            } else if c == '*' {
                Repeater::ZeroMore
            } else {
                Repeater::OneMore
            };
            let greed = self.greed(lazy);
            self.pos = if lazy {
                self.pos + 2
            } else {
                self.pos + 1
            };
            self.read_postfix(Ast::Rep(Box::new(x), rep, greed))
        } else if c == '{' {
            match read_counts(&self.chars, self.pos) {
                None => Ok(x),
                Some(counts) => {
                    let ok = counts.min <= MAX_REPEAT && match counts.max {
                        Some(max) => counts.min <= max && max <= MAX_REPEAT,
                        None => true,
                    };
                    if !ok {
                        return Err(ParseFault { pos: self.pos, fault: Fault::BadRepeat });
                    }
                    let lazy = holds_char(&self.chars, counts.end, 0, '?');
                    let greed = self.greed(lazy);
                    self.pos = if lazy {
                        counts.end + 1
                    } else {
                        counts.end
                    };
                    let tree = make_counted(x, counts.min, counts.max, greed);
                    self.read_postfix(tree)
                },
            }
        } else {
            Ok(x)
        }
    }
}

/// Reads the flag letters from `i` on and applies them to the flags.
pub fn read_flags(chars: &Vec<char>, i: usize, given: Flags) -> (r: (Flags, usize))
    requires
        i <= chars.len(),
    ensures
        (FlagsAt { flags: r.0, end: r.1 as int }) == scan_flags(chars@, i as int, given, true),
        i <= r.1 <= chars.len(),
{
    let mut flags = given;
    let mut on = true;
    let mut j = i;
    while j < chars.len()
        invariant
            i <= j <= chars.len(),
            scan_flags(chars@, i as int, given, true) == scan_flags(chars@, j as int, flags, on),
        decreases chars.len() - j,
    {
        let c = chars[j];
        if c == 'i' {
            flags.casei = on;
        } else if c == 'm' {
            flags.multi = on;
        } else if c == 's' {
            flags.dotnl = on;
        } else if c == 'U' {
            flags.swap_greed = on;
        } else if c == '-' && on {
            on = false;
        } else {
            return (flags, j);
        }
        j += 1;
    }
    (flags, j)
}

impl Parser {
    /// Reads the class in brackets at the position.
    pub fn read_bracket_class(&mut self) -> (r: AstRead)
        requires
            old(self).wf(),
            old(self).pos < old(self).chars.len(),
        ensures
            final(self).text() == old(self).text(),
            r is Ok ==> final(self).wf() && final(self).pos > old(self).pos,
            agrees(r, final(self).cursor(), bracket_class(old(self).text(), old(self).cursor())),
    {
        let negated = holds_char(&self.chars, self.pos, 1, '^');
        let start = if negated {
            self.pos + 2
        } else {
            self.pos + 1
        };
        match read_class_items(&self.chars, self.pos, start) {
            Err(f) => Err(f),
            Ok((ranges, end)) => {
                let sorted = sort(&ranges);
                self.pos = end;
                Ok(Ast::Class(sorted, negated, self.flags.casei))
            },
        }
    }

    /// Reads the escape at the position.
    pub fn read_escape(&mut self) -> (r: AstRead)
        requires
            old(self).wf(),
            old(self).pos < old(self).chars.len(),
        ensures
            final(self).text() == old(self).text(),
            r is Ok ==> final(self).wf() && final(self).pos > old(self).pos,
            agrees(r, final(self).cursor(), escape(old(self).text(), old(self).cursor())),
    {
        let pos = self.pos;
        let casei = self.flags.casei;
        let c = match peek_at(&self.chars, pos, 1) {
            None => {
                return Err(ParseFault { pos, fault: Fault::TrailingBackslash });
            },
            Some(c) => c,
        };
        if c == 'A' {
            self.pos = pos + 2;
            Ok(Ast::Begin(false))
        } else if c == 'z' {
            self.pos = pos + 2;
            Ok(Ast::End(false))
        } else if c == 'b' {
            self.pos = pos + 2;
            Ok(Ast::WordBoundary(true))
        } else if c == 'B' {
            self.pos = pos + 2;
            Ok(Ast::WordBoundary(false))
        } else if is_perl(c) {
            let lower = if c == 'd' || c == 'D' {
                'd'
            } else if c == 's' || c == 'S' {
                's'
            } else {
                'w'
            };
            let negated = c == 'D' || c == 'S' || c == 'W';
            self.pos = pos + 2;
            Ok(Ast::Class(perl_class(lower), negated, casei))
        } else if c == 'p' || c == 'P' {
            match read_unicode_class(&self.chars, pos) {
                Err(f) => Err(f),
                Ok((ranges, end)) => {
                    self.pos = end;
                    Ok(Ast::Class(ranges, c == 'P', casei))
                },
            }
        } else {
            match read_escaped_char(&self.chars, pos) {
                Err(f) => Err(f),
                Ok((ch, end)) => {
                    self.pos = end;
                    Ok(Ast::Literal(ch, casei))
                },
            }
        }
    }

    /// Tells whether the position holds flags that are in force for the rest
    /// of the group.
    pub fn at_flags(&self) -> (r: bool)
        requires
            self.wf(),
        ensures
            r == at_directive(self.text(), self.cursor()),
    {
        if holds_char(&self.chars, self.pos, 0, '(') && holds_char(&self.chars, self.pos, 1, '?') {
            let (_, end) = read_flags(&self.chars, self.pos + 2, self.flags);
            holds_char(&self.chars, end, 0, ')')
        } else {
            false
        }
    }

    /// Applies the flags at the position and steps behind them.
    pub fn take_flags(&mut self)
        requires
            old(self).wf(),
            at_directive(old(self).text(), old(self).cursor()),
        ensures
            final(self).text() == old(self).text(),
            final(self).wf(),
            final(self).pos > old(self).pos,
            final(self).cursor() == after_directive(old(self).text(), old(self).cursor()),
    {
        let (flags, end) = read_flags(&self.chars, self.pos + 2, self.flags);
        self.flags = flags;
        self.pos = end + 1;
    }
}

/// How a group starts, as it was read.
pub struct HeadRead {
    pub captures: bool,
    pub name: Option<String>,
    pub pos: usize,
    pub flags: Flags,
    pub ncap: usize,
}

impl View for HeadRead {
    type V = GroupHead;

    open spec fn view(&self) -> GroupHead {
        GroupHead {
            captures: self.captures,
            name: match self.name {
                Some(n) => Some(n@),
                None => None,
            },
            inner: Cursor { pos: self.pos as int, flags: self.flags, ncap: self.ncap as nat },
        }
    }
}

impl Parser {
    /// Reads the start of the group at the position.
    pub fn read_group_head(&self) -> (r: Result<HeadRead, ParseFault>)
        requires
            self.wf(),
            self.pos < self.chars.len(),
        ensures
            match group_head(self.text(), self.cursor()) {
                Ok(head) => r is Ok && r->Ok_0@ == head && self.pos < r->Ok_0.pos
                    <= self.chars.len() && r->Ok_0.ncap <= MAX_GROUP,
                Err(f) => r is Err && r->Err_0@ == f,
            },
    {
        let pos = self.pos;
        if holds_char(&self.chars, pos, 1, '?') {
            if holds_char(&self.chars, pos, 2, 'P') {
                if holds_char(&self.chars, pos, 3, '<') {
                    let a = pos + 4;
                    let b = scan_name(&self.chars, a);
                    if a < b && holds_char(&self.chars, b, 0, '>') {
                        if self.ncap >= MAX_GROUP {
                            return Err(ParseFault { pos, fault: Fault::TooManyGroups });
                        }
                        let name = string_from_chars(&copy_chars(&self.chars, a, b));
                        return Ok(
                            HeadRead {
                                captures: true,
                                name: Some(name),
                                pos: b + 1,
                                flags: self.flags,
                                ncap: self.ncap + 1,
                            },
                        );
                    }
                }
                Err(ParseFault { pos, fault: Fault::BadGroupName })
            } else {
                let (flags, end) = read_flags(&self.chars, pos + 2, self.flags);
                if holds_char(&self.chars, end, 0, ':') {
                    Ok(
                        HeadRead {
                            captures: false,
                            name: None,
                            pos: end + 1,
                            flags,
                            ncap: self.ncap,
                        },
                    )
                } else {
                    Err(ParseFault { pos, fault: Fault::BadFlag })
                }
            }
        } else if self.ncap >= MAX_GROUP {
            Err(ParseFault { pos, fault: Fault::TooManyGroups })
        } else {
            Ok(
                HeadRead {
                    captures: true,
                    name: None,
                    pos: pos + 1,
                    flags: self.flags,
                    ncap: self.ncap + 1,
                },
            )
        }
    }
}

impl Parser {
    /// Reads an alternation at the position.
    pub fn read_alternation(&mut self) -> (r: AstRead)
        requires
            old(self).wf(),
        ensures
            final(self).text() == old(self).text(),
            r is Ok ==> final(self).wf() && final(self).pos >= old(self).pos,
            agrees(r, final(self).cursor(), alternation(old(self).text(), old(self).cursor())),
        decreases old(self).chars.len() - old(self).pos, 5nat,
    {
        let x = match self.read_sequence() {
            Err(f) => {
                return Err(f);
            },
            Ok(x) => x,
        };
        if holds_char(&self.chars, self.pos, 0, '|') {
            self.pos = self.pos + 1;
            match self.read_alternation() {
                Err(f) => Err(f),
                Ok(y) => Ok(Ast::Alt(Box::new(x), Box::new(y))),
            }
        } else {
            Ok(x)
        }
    }

    /// Reads a sequence at the position.
    pub fn read_sequence(&mut self) -> (r: AstRead)
        requires
            old(self).wf(),
        ensures
            final(self).text() == old(self).text(),
            r is Ok ==> final(self).wf() && final(self).pos >= old(self).pos,
            agrees(
                r,
                final(self).cursor(),
                sequence(old(self).text(), old(self).cursor(), Seq::empty()),
            ),
        decreases old(self).chars.len() - old(self).pos, 4nat,
    {
        let mut items: Vec<Ast> = Vec::new();
        assert(asts_view(items@) =~= Seq::<AstSpec>::empty());
        loop
            invariant
                self.wf(),
                self.text() == old(self).text(),
                self.pos >= old(self).pos,
                asts_bounded(items@),
                sequence(old(self).text(), old(self).cursor(), Seq::empty()) == sequence(
                    self.text(),
                    self.cursor(),
                    asts_view(items@),
                ),
            decreases self.chars.len() - self.pos,
        {
            let c = match peek_at(&self.chars, self.pos, 0) {
                None => {
                    return Ok(make_cat(items));
                },
                Some(c) => c,
            };
            if c == '|' || c == ')' {
                return Ok(make_cat(items));
            }
            if self.at_flags() {
                self.take_flags();
            } else {
                let before = self.pos;
                let ghost listed = asts_view(items@);
                match self.read_repeated() {
                    Err(f) => {
                        return Err(f);
                    },
                    Ok(x) => {
                        items.push(x);
                        assert(asts_view(items@) =~= listed.push(ast_view(&x)));
                        if self.pos <= before {
                            return Ok(make_cat(items));
                        }
                    },
                }
            }
        }
    }

    /// Reads an atom at the position with the repetition operators that
    /// follow it.
    pub fn read_repeated(&mut self) -> (r: AstRead)
        requires
            old(self).wf(),
        ensures
            final(self).text() == old(self).text(),
            r is Ok ==> final(self).wf() && final(self).pos >= old(self).pos,
            agrees(r, final(self).cursor(), repeated(old(self).text(), old(self).cursor())),
        decreases old(self).chars.len() - old(self).pos, 3nat,
    {
        match self.read_atom() {
            Err(f) => Err(f),
            Ok(x) => self.read_postfix(x),
        }
    }

    /// Reads an atom at the position.
    pub fn read_atom(&mut self) -> (r: AstRead)
        requires
            old(self).wf(),
        ensures
            final(self).text() == old(self).text(),
            r is Ok ==> final(self).wf() && final(self).pos >= old(self).pos,
            agrees(r, final(self).cursor(), atom(old(self).text(), old(self).cursor())),
        decreases old(self).chars.len() - old(self).pos, 2nat,
    {
        let pos = self.pos;
        if pos >= self.chars.len() {
            return Err(ParseFault { pos, fault: Fault::MissingArgument });
        }
        let c = char_at(&self.chars, pos);
        if c == '(' {
            self.read_group()
        } else if c == '[' {
            self.read_bracket_class()
        } else if c == '.' {
            self.pos = pos + 1;
            Ok(Ast::Dot(self.flags.dotnl))
        } else if c == '^' {
            self.pos = pos + 1;
            Ok(Ast::Begin(self.flags.multi))
        } else if c == '$' {
            self.pos = pos + 1;
            Ok(Ast::End(self.flags.multi))
        } else if c == '\\' {
            self.read_escape()
        } else if c == '?' || c == '*' || c == '+' {
            Err(ParseFault { pos, fault: Fault::MissingArgument })
        } else {
            self.pos = pos + 1;
            Ok(Ast::Literal(c, self.flags.casei))
        }
    }

    /// Reads the group at the position, where the position holds the opening
    /// parenthesis.
    pub fn read_group(&mut self) -> (r: AstRead)
        requires
            old(self).wf(),
            old(self).pos < old(self).chars.len(),
        ensures
            final(self).text() == old(self).text(),
            r is Ok ==> final(self).wf() && final(self).pos >= old(self).pos,
            agrees(r, final(self).cursor(), group(old(self).text(), old(self).cursor())),
        decreases old(self).chars.len() - old(self).pos, 1nat,
    {
        let open = self.pos;
        let outer = self.flags;
        let head = match self.read_group_head() {
            Err(f) => {
                return Err(f);
            },
            Ok(head) => head,
        };
        self.pos = head.pos;
        self.flags = head.flags;
        self.ncap = head.ncap;
        match self.read_alternation() {
            Err(f) => Err(f),
            Ok(x) => {
                if holds_char(&self.chars, self.pos, 0, ')') {
                    self.pos = self.pos + 1;
                    self.flags = outer;
                    if head.captures {
                        Ok(Ast::Capture(head.ncap, head.name, Box::new(x)))
                    } else {
                        Ok(x)
                    }
                } else {
                    Err(ParseFault { pos: open, fault: Fault::UnclosedGroup })
                }
            },
        }
    }
}

} // verus!
