//! The grammar of expressions: what the source text of an expression means
//! as a syntax tree, or at which position it is at fault.

use vstd::prelude::*;
use crate::classes::{named_ranges, outside, perl_ranges};
use crate::compile::MAX_GROUP;
use crate::expand::{digits_value, name_end};
use crate::parse::{AstSpec, Greed, Repeater};
use crate::unicode::unicode_ranges;

verus! {

/// The switches that an expression can set for itself.
#[derive(Clone, Copy, Debug, PartialEq, Eq, Structural)]
pub struct Flags {
    /// Letters match in both cases.
    pub casei: bool,
    /// `^` and `$` also match at the start and the end of a line.
    pub multi: bool,
    /// `.` also matches a line feed.
    pub dotnl: bool,
    /// Repetitions prefer fewer iterations unless they are marked lazy.
    pub swap_greed: bool,
}

/// What can be wrong with the source text of an expression.
#[derive(Clone, Copy, Debug, PartialEq, Eq, Structural)]
pub enum Fault {
    /// A repetition operator has nothing to repeat.
    MissingArgument,
    /// A group is not closed.
    UnclosedGroup,
    /// A closing parenthesis has no group to close.
    UnopenedGroup,
    /// A bracket is not closed.
    UnclosedClass,
    /// A range ends before it starts.
    InvalidRange,
    /// No class has the name.
    UnknownClass,
    /// A class that is negated stands where this is not supported.
    NegatedClass,
    /// The character behind a backslash has no meaning.
    UnknownEscape,
    /// The text ends with a backslash.
    TrailingBackslash,
    /// A hexadecimal escape does not name a character.
    BadHex,
    /// The name of a group is empty, malformed or not closed.
    BadGroupName,
    /// A flag is unknown or a group of flags is not closed.
    BadFlag,
    /// A count is too large or the counts are in the wrong order.
    BadRepeat,
    /// The expression has too many groups.
    TooManyGroups,
}

/// A fault and the position of the character at which it was found.
pub struct Failure {
    pub pos: int,
    pub fault: Fault,
}

/// Where the reading of a text stands: the position, the flags in force and
/// the number of groups opened so far.
pub struct Cursor {
    pub pos: int,
    pub flags: Flags,
    pub ncap: nat,
}

/// The largest count that a counted repetition may hold.
pub const MAX_REPEAT: usize = 1000;

/// The character at a position, if there is one.
pub open spec fn peek(s: Seq<char>, i: int) -> Option<char> {
    if 0 <= i < s.len() {
        Some(s[i])
    } else {
        None
    }
}

/// The characters that have a meaning of their own in an expression.
pub open spec fn spec_is_punct(c: char) -> bool {
    c == '\\' || c == '.' || c == '+' || c == '*' || c == '?' || c == '(' || c == ')' || c == '|'
        || c == '[' || c == ']' || c == '{' || c == '}' || c == '^' || c == '$'
}

/// A sequence of trees as one tree.
pub open spec fn cat_of(items: Seq<AstSpec>) -> AstSpec {
    if items.len() == 0 {
        AstSpec::Nothing
    } else if items.len() == 1 {
        items[0]
    } else {
        AstSpec::Cat(items)
    }
}

/// The preference of a repetition: lazy if it is marked so, unless the flag
/// that swaps the preference is set.
pub open spec fn greed_for(lazy: bool, flags: Flags) -> Greed {
    if lazy != flags.swap_greed {
        Greed::Ungreedy
    } else {
        Greed::Greedy
    }
}

/// The end of the run of decimal digits that starts at `i`.
pub open spec fn digits_end(s: Seq<char>, i: int) -> int
    decreases s.len() - i,
{
    if 0 <= i < s.len() && '0' <= s[i] <= '9' {
        digits_end(s, i + 1)
    } else {
        i
    }
}

/// Whether a character is a hexadecimal digit.
pub open spec fn is_hex(c: char) -> bool {
    ('0' <= c <= '9') || ('a' <= c <= 'f') || ('A' <= c <= 'F')
}

/// The value of a hexadecimal digit.
pub open spec fn hex_digit(c: char) -> nat {
    if '0' <= c <= '9' {
        (c as u32 - '0' as u32) as nat
    } else if 'a' <= c <= 'f' {
        (c as u32 - 'a' as u32 + 10) as nat
    } else {
        (c as u32 - 'A' as u32 + 10) as nat
    }
}

/// The number that a sequence of hexadecimal digits writes.
pub open spec fn hex_value(s: Seq<char>) -> nat
    decreases s.len(),
{
    if s.len() == 0 {
        0
    } else {
        hex_value(s.drop_last()) * 16 + hex_digit(s.last())
    }
}

/// The end of the run of hexadecimal digits that starts at `i`.
pub open spec fn hex_end(s: Seq<char>, i: int) -> int
    decreases s.len() - i,
{
    if 0 <= i < s.len() && is_hex(s[i]) {
        hex_end(s, i + 1)
    } else {
        i
    }
}

/// Whether a number is the code of a character.
pub open spec fn is_scalar_value(v: nat) -> bool {
    v <= 0xD7FF || 0xE000 <= v <= 0x10FFFF
}

/// The first position from `i` on that holds the character `c`, or the
/// length of the text if there is none.
pub open spec fn find_char(s: Seq<char>, c: char, i: int) -> int
    decreases s.len() - i,
{
    if 0 <= i < s.len() && s[i] != c {
        find_char(s, c, i + 1)
    } else {
        i
    }
}

/// A character and the position behind what wrote it.
pub type CharAt = Result<(char, int), Failure>;

/// The character that a hexadecimal escape at `pos` writes: `\x` with two
/// digits, or `\x{` with one to six digits and `}`.
pub open spec fn hex_escape(s: Seq<char>, pos: int) -> CharAt {
    let bad = Err(Failure { pos, fault: Fault::BadHex });
    if peek(s, pos + 2) == Some('{') {
        let a = pos + 3;
        let b = hex_end(s, a);
        let v = hex_value(s.subrange(a, b));
        if a < b <= a + 6 && peek(s, b) == Some('}') && is_scalar_value(v) {
            Ok((v as char, b + 1))
        } else {
            bad
        }
    } else {
        let v = hex_value(s.subrange(pos + 2, pos + 4));
        if pos + 4 <= s.len() && is_hex(s[pos + 2]) && is_hex(s[pos + 3]) {
            Ok((v as char, pos + 4))
        } else {
            bad
        }
    }
}

/// The character that an escape at `pos` writes, where `pos` holds the
/// backslash.
pub open spec fn escaped_char(s: Seq<char>, pos: int) -> CharAt {
    match peek(s, pos + 1) {
        None => Err(Failure { pos, fault: Fault::TrailingBackslash }),
        Some(c) => if c == 'a' {
            Ok(('\x07', pos + 2))
        } else if c == 'f' {
            Ok(('\x0c', pos + 2))
        } else if c == 't' {
            Ok(('\t', pos + 2))
        } else if c == 'n' {
            Ok(('\n', pos + 2))
        } else if c == 'r' {
            Ok(('\r', pos + 2))
        } else if c == 'v' {
            Ok(('\x0b', pos + 2))
        } else if c == 'x' {
            hex_escape(s, pos)
        } else if spec_is_punct(c) {
            Ok((c, pos + 2))
        } else {
            Err(Failure { pos, fault: Fault::UnknownEscape })
        },
    }
}

/// The order of ranges: by their first character, then by their last.
pub open spec fn range_le(a: (char, char), b: (char, char)) -> bool {
    a.0 < b.0 || (a.0 == b.0 && a.1 <= b.1)
}

/// A list of ranges with one more range, placed behind the last range that
/// does not come after it.
pub open spec fn with_range(ranges: Seq<(char, char)>, r: (char, char)) -> Seq<(char, char)>
    decreases ranges.len(),
{
    if ranges.len() == 0 || range_le(ranges.last(), r) {
        ranges.push(r)
    } else {
        with_range(ranges.drop_last(), r).push(ranges.last())
    }
}

/// The ranges in order.
pub open spec fn sort_ranges(ranges: Seq<(char, char)>) -> Seq<(char, char)>
    decreases ranges.len(),
{
    if ranges.len() == 0 {
        ranges
    } else {
        with_range(sort_ranges(ranges.drop_last()), ranges.last())
    }
}

/// Ranges and the position behind what wrote them.
pub type RangesAt = Result<(Seq<(char, char)>, int), Failure>;

/// The ranges of the Unicode class that is written at `pos`, where `pos`
/// holds the backslash: the name is one character, or stands in braces.
pub open spec fn unicode_class(s: Seq<char>, pos: int) -> RangesAt {
    let unknown = Err(Failure { pos, fault: Fault::UnknownClass });
    if peek(s, pos + 2) == Some('{') {
        let a = pos + 3;
        let b = find_char(s, '}', a);
        if a <= b < s.len() {
            match unicode_ranges(s.subrange(a, b)) {
                Some(ranges) => Ok((ranges, b + 1)),
                None => unknown,
            }
        } else {
            Err(Failure { pos, fault: Fault::UnclosedClass })
        }
    } else if 0 <= pos + 2 < s.len() {
        match unicode_ranges(s.subrange(pos + 2, pos + 3)) {
            Some(ranges) => Ok((ranges, pos + 3)),
            None => unknown,
        }
    } else {
        unknown
    }
}

/// A single character inside brackets at `i`, written as it is or as an
/// escape.
pub open spec fn class_char(s: Seq<char>, i: int) -> CharAt {
    if peek(s, i) == Some('\\') {
        escaped_char(s, i)
    } else if 0 <= i < s.len() {
        Ok((s[i], i + 1))
    } else {
        Err(Failure { pos: i, fault: Fault::UnclosedClass })
    }
}

/// Whether the character is the letter of a shorthand class.
pub open spec fn is_perl_letter(c: char) -> bool {
    c == 'd' || c == 's' || c == 'w' || c == 'D' || c == 'S' || c == 'W'
}

/// The lower-case letter of a shorthand class.
pub open spec fn perl_letter(c: char) -> char {
    if c == 'd' || c == 'D' {
        'd'
    } else if c == 's' || c == 'S' {
        's'
    } else {
        'w'
    }
}

/// Whether the letter of a shorthand class is the one that negates it.
pub open spec fn perl_negated(c: char) -> bool {
    c == 'D' || c == 'S' || c == 'W'
}

/// The ranges that the items inside brackets write, from `i` on, added to
/// `acc`, and the position behind the closing bracket. A closing bracket
/// that comes first is a character of the class.
pub open spec fn class_items(
    s: Seq<char>,
    open: int,
    i: int,
    first: bool,
    acc: Seq<(char, char)>,
) -> RangesAt
    decreases s.len() - i,
{
    match peek(s, i) {
        None => Err(Failure { pos: open, fault: Fault::UnclosedClass }),
        Some(c) => {
            if c == ']' && !first {
                Ok((acc, i + 1))
            } else if c == '[' && peek(s, i + 1) == Some(':') {
                let negated = peek(s, i + 2) == Some('^');
                let a = if negated {
                    i + 3
                } else {
                    i + 2
                };
                let b = find_char(s, ':', a);
                if a <= b && peek(s, b + 1) == Some(']') {
                    match named_ranges(s.subrange(a, b)) {
                        None => Err(Failure { pos: i, fault: Fault::UnknownClass }),
                        Some(ranges) => class_items(
                            s,
                            open,
                            b + 2,
                            false,
                            acc + if negated {
                                outside(ranges)
                            } else {
                                ranges
                            },
                        ),
                    }
                } else {
                    Err(Failure { pos: i, fault: Fault::UnclosedClass })
                }
            } else if c == '\\' && peek(s, i + 1) is Some && is_perl_letter(peek(s, i + 1)->0) {
                let letter = peek(s, i + 1)->0;
                let ranges = perl_ranges(perl_letter(letter));
                class_items(
                    s,
                    open,
                    i + 2,
                    false,
                    acc + if perl_negated(letter) {
                        outside(ranges)
                    } else {
                        ranges
                    },
                )
            } else if c == '\\' && peek(s, i + 1) == Some('P') {
                Err(Failure { pos: i, fault: Fault::NegatedClass })
            } else if c == '\\' && peek(s, i + 1) == Some('p') {
                match unicode_class(s, i) {
                    Err(f) => Err(f),
                    Ok((ranges, end)) => if end > i {
                        class_items(s, open, end, false, acc + ranges)
                    } else {
                        Err(Failure { pos: i, fault: Fault::UnknownClass })
                    },
                }
            } else {
                match class_char(s, i) {
                    Err(f) => Err(f),
                    Ok((lo, next)) => if next <= i {
                        Err(Failure { pos: i, fault: Fault::UnclosedClass })
                    } else if peek(s, next) == Some('-') && peek(s, next + 1) is Some && peek(
                        s,
                        next + 1,
                    ) != Some(']') {
                        match class_char(s, next + 1) {
                            Err(f) => Err(f),
                            Ok((hi, end)) => if end <= next {
                                Err(Failure { pos: i, fault: Fault::UnclosedClass })
                            } else if hi < lo {
                                Err(Failure { pos: i, fault: Fault::InvalidRange })
                            } else {
                                class_items(s, open, end, false, acc.push((lo, hi)))
                            },
                        }
                    } else {
                        class_items(s, open, next, false, acc.push((lo, lo)))
                    },
                }
            }
        },
    }
}

/// A tree and the cursor behind what wrote it.
pub type Parsed = Result<(AstSpec, Cursor), Failure>;

/// The class that is written in brackets at the cursor.
pub open spec fn bracket_class(s: Seq<char>, st: Cursor) -> Parsed {
    let negated = peek(s, st.pos + 1) == Some('^');
    let start = if negated {
        st.pos + 2
    } else {
        st.pos + 1
    };
    match class_items(s, st.pos, start, true, Seq::empty()) {
        Err(f) => Err(f),
        Ok((ranges, end)) => Ok(
            (
                AstSpec::Class(sort_ranges(ranges), negated, st.flags.casei),
                Cursor { pos: end, flags: st.flags, ncap: st.ncap },
            ),
        ),
    }
}

/// What an escape outside brackets at the cursor means.
pub open spec fn escape(s: Seq<char>, st: Cursor) -> Parsed {
    let pos = st.pos;
    let behind = Cursor { pos: pos + 2, flags: st.flags, ncap: st.ncap };
    match peek(s, pos + 1) {
        None => Err(Failure { pos, fault: Fault::TrailingBackslash }),
        Some(c) => if c == 'A' {
            Ok((AstSpec::Begin(false), behind))
        } else if c == 'z' {
            Ok((AstSpec::End(false), behind))
        } else if c == 'b' {
            Ok((AstSpec::WordBoundary(true), behind))
        } else if c == 'B' {
            Ok((AstSpec::WordBoundary(false), behind))
        } else if is_perl_letter(c) {
            Ok(
                (
                    AstSpec::Class(
                        perl_ranges(perl_letter(c)),
                        perl_negated(c),
                        st.flags.casei,
                    ),
                    behind,
                ),
            )
        } else if c == 'p' || c == 'P' {
            match unicode_class(s, pos) {
                Err(f) => Err(f),
                Ok((ranges, end)) => Ok(
                    (
                        AstSpec::Class(ranges, c == 'P', st.flags.casei),
                        Cursor { pos: end, flags: st.flags, ncap: st.ncap },
                    ),
                ),
            }
        } else {
            match escaped_char(s, pos) {
                Err(f) => Err(f),
                Ok((ch, end)) => Ok(
                    (
                        AstSpec::Literal(ch, st.flags.casei),
                        Cursor { pos: end, flags: st.flags, ncap: st.ncap },
                    ),
                ),
            }
        },
    }
}

/// The counts of a counted repetition: the least number of iterations, the
/// largest if there is one, and the position behind the closing brace.
pub struct Counts {
    pub min: nat,
    pub max: Option<nat>,
    pub end: int,
}

/// The counted repetition that is written at `pos`, where `pos` holds the
/// opening brace: `{n}`, `{n,}` or `{n,m}`. Anything else in braces is no
/// repetition.
pub open spec fn counted(s: Seq<char>, pos: int) -> Option<Counts> {
    let a = pos + 1;
    let b = digits_end(s, a);
    if a < b {
        let min = digits_value(s.subrange(a, b));
        if peek(s, b) == Some('}') {
            Some(Counts { min, max: Some(min), end: b + 1 })
        } else if peek(s, b) == Some(',') {
            let c = b + 1;
            let d = digits_end(s, c);
            if c <= d && peek(s, d) == Some('}') {
                if c == d {
                    Some(Counts { min, max: None, end: d + 1 })
                } else {
                    Some(Counts { min, max: Some(digits_value(s.subrange(c, d))), end: d + 1 })
                }
            } else {
                None
            }
        } else {
            None
        }
    } else {
        None
    }
}

/// Whether the counts are in order and not too large.
pub open spec fn counts_ok(counts: Counts) -> bool {
    counts.min <= MAX_REPEAT && match counts.max {
        Some(max) => counts.min <= max <= MAX_REPEAT,
        None => true,
    }
}

/// `k` optional iterations, each of which is tried only behind the one
/// before it.
pub open spec fn optional_tail(x: AstSpec, k: nat, greed: Greed) -> AstSpec
    decreases k,
{
    if k <= 1 {
        AstSpec::Rep(Box::new(x), Repeater::ZeroOne, greed)
    } else {
        AstSpec::Rep(
            Box::new(AstSpec::Cat(seq![x, optional_tail(x, (k - 1) as nat, greed)])),
            Repeater::ZeroOne,
            greed,
        )
    }
}

/// A counted repetition written with the unbounded operators: the least
/// number of copies in a row, followed by a starred copy if there is no
/// largest number, and by optional iterations if there is one.
pub open spec fn counted_ast(x: AstSpec, counts: Counts, greed: Greed) -> AstSpec {
    let copies = Seq::new(counts.min, |i: int| x);
    match counts.max {
        None => cat_of(copies.push(AstSpec::Rep(Box::new(x), Repeater::ZeroMore, greed))),
        Some(max) => if max <= counts.min {
            cat_of(copies)
        } else {
            cat_of(copies.push(optional_tail(x, (max - counts.min) as nat, greed)))
        },
    }
}

/// The operator that a character writes.
pub open spec fn repeater_of(c: char) -> Repeater {
    if c == '?' {
        Repeater::ZeroOne
    } else if c == '*' {
        Repeater::ZeroMore
    } else {
        Repeater::OneMore
    }
}

/// The tree `x` with the repetition operators applied that follow it at the
/// cursor. An operator that `?` follows is lazy.
pub open spec fn postfix(s: Seq<char>, st: Cursor, x: AstSpec) -> Parsed
    decreases s.len() - st.pos,
{
    match peek(s, st.pos) {
        None => Ok((x, st)),
        Some(c) => if c == '?' || c == '*' || c == '+' {
            let lazy = peek(s, st.pos + 1) == Some('?');
            let next = if lazy {
                st.pos + 2
            } else {
                st.pos + 1
            };
            postfix(
                s,
                Cursor { pos: next, flags: st.flags, ncap: st.ncap },
                AstSpec::Rep(Box::new(x), repeater_of(c), greed_for(lazy, st.flags)),
            )
        } else if c == '{' {
            match counted(s, st.pos) {
                None => Ok((x, st)),
                Some(counts) => if !counts_ok(counts) {
                    Err(Failure { pos: st.pos, fault: Fault::BadRepeat })
                } else if counts.end <= st.pos {
                    Ok((x, st))
                } else {
                    let lazy = peek(s, counts.end) == Some('?');
                    let next = if lazy {
                        counts.end + 1
                    } else {
                        counts.end
                    };
                    postfix(
                        s,
                        Cursor { pos: next, flags: st.flags, ncap: st.ncap },
                        counted_ast(x, counts, greed_for(lazy, st.flags)),
                    )
                },
            }
        } else {
            Ok((x, st))
        },
    }
}

/// Flags and the position behind what wrote them.
pub struct FlagsAt {
    pub flags: Flags,
    pub end: int,
}

/// The flags after the letters from `i` on are applied: `i`, `m`, `s` and
/// `U` switch a flag on, and behind a `-` off.
pub open spec fn scan_flags(s: Seq<char>, i: int, flags: Flags, on: bool) -> FlagsAt
    decreases s.len() - i,
{
    match peek(s, i) {
        None => FlagsAt { flags, end: i },
        Some(c) => if c == 'i' {
            scan_flags(s, i + 1, Flags { casei: on, ..flags }, on)
        } else if c == 'm' {
            scan_flags(s, i + 1, Flags { multi: on, ..flags }, on)
        } else if c == 's' {
            scan_flags(s, i + 1, Flags { dotnl: on, ..flags }, on)
        } else if c == 'U' {
            scan_flags(s, i + 1, Flags { swap_greed: on, ..flags }, on)
        } else if c == '-' && on {
            scan_flags(s, i + 1, flags, false)
        } else {
            FlagsAt { flags, end: i }
        },
    }
}

/// Whether the cursor stands at flags that hold for the rest of the group:
/// `(?`, flag letters and `)`.
pub open spec fn at_directive(s: Seq<char>, st: Cursor) -> bool {
    peek(s, st.pos) == Some('(') && peek(s, st.pos + 1) == Some('?') && peek(
        s,
        scan_flags(s, st.pos + 2, st.flags, true).end,
    ) == Some(')')
}

/// The cursor behind the flags at which it stands, with the flags applied.
pub open spec fn after_directive(s: Seq<char>, st: Cursor) -> Cursor {
    let found = scan_flags(s, st.pos + 2, st.flags, true);
    Cursor { pos: found.end + 1, flags: found.flags, ncap: st.ncap }
}

/// How a group starts: whether it captures and under which name, and the
/// cursor at its first character.
pub struct GroupHead {
    pub captures: bool,
    pub name: Option<Seq<char>>,
    pub inner: Cursor,
}

/// The start of the group at the cursor, where the cursor holds the opening
/// parenthesis: `(?P<name>` starts a named group, `(?` with flags and `:`
/// a group that does not capture, and anything else a group that captures.
pub open spec fn group_head(s: Seq<char>, st: Cursor) -> Result<GroupHead, Failure> {
    let pos = st.pos;
    if peek(s, pos + 1) == Some('?') {
        if peek(s, pos + 2) == Some('P') {
            let a = pos + 4;
            let b = name_end(s, a as nat) as int;
            if peek(s, pos + 3) == Some('<') && a < b && peek(s, b) == Some('>') {
                if st.ncap >= MAX_GROUP {
                    Err(Failure { pos, fault: Fault::TooManyGroups })
                } else {
                    Ok(
                        GroupHead {
                            captures: true,
                            name: Some(s.subrange(a, b)),
                            inner: Cursor { pos: b + 1, flags: st.flags, ncap: st.ncap + 1 },
                        },
                    )
                }
            } else {
                Err(Failure { pos, fault: Fault::BadGroupName })
            }
        } else {
            let found = scan_flags(s, pos + 2, st.flags, true);
            if peek(s, found.end) == Some(':') {
                Ok(
                    GroupHead {
                        captures: false,
                        name: None,
                        inner: Cursor { pos: found.end + 1, flags: found.flags, ncap: st.ncap },
                    },
                )
            } else {
                Err(Failure { pos, fault: Fault::BadFlag })
            }
        }
    } else if st.ncap >= MAX_GROUP {
        Err(Failure { pos, fault: Fault::TooManyGroups })
    } else {
        Ok(
            GroupHead {
                captures: true,
                name: None,
                inner: Cursor { pos: pos + 1, flags: st.flags, ncap: st.ncap + 1 },
            },
        )
    }
}

/// An alternation at the cursor: sequences separated by `|`, of which one
/// further to the left is preferred.
pub open spec fn alternation(s: Seq<char>, st: Cursor) -> Parsed
    decreases s.len() - st.pos, 5nat,
{
    match sequence(s, st, Seq::empty()) {
        Err(f) => Err(f),
        Ok((x, st1)) => if st.pos <= st1.pos && peek(s, st1.pos) == Some('|') {
            match alternation(s, Cursor { pos: st1.pos + 1, flags: st1.flags, ncap: st1.ncap }) {
                Err(f) => Err(f),
                Ok((y, st2)) => Ok((AstSpec::Alt(Box::new(x), Box::new(y)), st2)),
            }
        } else {
            Ok((x, st1))
        },
    }
}

/// A sequence at the cursor, behind the items in `acc`: repeated atoms up to
/// the end of the text, a `|` or a `)`. Flags that stand between them hold
/// from there on.
pub open spec fn sequence(s: Seq<char>, st: Cursor, acc: Seq<AstSpec>) -> Parsed
    decreases s.len() - st.pos, 4nat,
{
    match peek(s, st.pos) {
        None => Ok((cat_of(acc), st)),
        Some(c) => if c == '|' || c == ')' {
            Ok((cat_of(acc), st))
        } else if at_directive(s, st) {
            let st1 = after_directive(s, st);
            if st1.pos > st.pos {
                sequence(s, st1, acc)
            } else {
                Ok((cat_of(acc), st))
            }
        } else {
            match repeated(s, st) {
                Err(f) => Err(f),
                Ok((x, st1)) => if st.pos < st1.pos <= s.len() {
                    sequence(s, st1, acc.push(x))
                } else {
                    Ok((cat_of(acc.push(x)), st1))
                },
            }
        },
    }
}

/// An atom at the cursor with the repetition operators that follow it.
pub open spec fn repeated(s: Seq<char>, st: Cursor) -> Parsed
    decreases s.len() - st.pos, 3nat,
{
    match atom(s, st) {
        Err(f) => Err(f),
        Ok((x, st1)) => postfix(s, st1, x),
    }
}

/// An atom at the cursor: a group, a class in brackets, a dot, an anchor, an
/// escape or a character that stands for itself.
pub open spec fn atom(s: Seq<char>, st: Cursor) -> Parsed
    decreases s.len() - st.pos, 2nat,
{
    let behind = Cursor { pos: st.pos + 1, flags: st.flags, ncap: st.ncap };
    match peek(s, st.pos) {
        None => Err(Failure { pos: st.pos, fault: Fault::MissingArgument }),
        Some(c) => if c == '(' {
            group(s, st)
        } else if c == '[' {
            bracket_class(s, st)
        } else if c == '.' {
            Ok((AstSpec::Dot(st.flags.dotnl), behind))
        } else if c == '^' {
            Ok((AstSpec::Begin(st.flags.multi), behind))
        } else if c == '$' {
            Ok((AstSpec::End(st.flags.multi), behind))
        } else if c == '\\' {
            escape(s, st)
        } else if c == '?' || c == '*' || c == '+' {
            Err(Failure { pos: st.pos, fault: Fault::MissingArgument })
        } else {
            Ok((AstSpec::Literal(c, st.flags.casei), behind))
        },
    }
}

/// The group at the cursor, where the cursor holds the opening parenthesis.
/// Flags that are set inside the group end with it.
pub open spec fn group(s: Seq<char>, st: Cursor) -> Parsed
    decreases s.len() - st.pos, 1nat,
{
    match group_head(s, st) {
        Err(f) => Err(f),
        Ok(head) => if head.inner.pos <= st.pos || head.inner.pos > s.len() {
            Err(Failure { pos: st.pos, fault: Fault::UnclosedGroup })
        } else {
            match alternation(s, head.inner) {
                Err(f) => Err(f),
                Ok((x, st1)) => if peek(s, st1.pos) == Some(')') {
                    let behind = Cursor { pos: st1.pos + 1, flags: st.flags, ncap: st1.ncap };
                    if head.captures {
                        Ok((AstSpec::Capture(head.inner.ncap, head.name, Box::new(x)), behind))
                    } else {
                        Ok((x, behind))
                    }
                } else {
                    Err(Failure { pos: st.pos, fault: Fault::UnclosedGroup })
                },
            }
        },
    }
}

/// The flags with which the reading of an expression starts.
pub open spec fn no_flags() -> Flags {
    Flags { casei: false, multi: false, dotnl: false, swap_greed: false }
}

/// The tree that the source text of an expression means, or the fault that
/// it has.
pub open spec fn parse_spec(s: Seq<char>) -> Result<AstSpec, Failure> {
    match alternation(s, Cursor { pos: 0, flags: no_flags(), ncap: 0 }) {
        Err(f) => Err(f),
        Ok((x, st)) => if st.pos >= s.len() {
            Ok(x)
        } else {
            Err(Failure { pos: st.pos, fault: Fault::UnopenedGroup })
        },
    }
}

} // verus!
