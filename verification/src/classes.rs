//! The named character classes: the `\d`, `\s` and `\w` shorthands and the
//! classes that are written `[:name:]` inside brackets.

use vstd::prelude::*;
use vstd::string::StringExecFns;

verus! {

/// The digits.
pub open spec fn digit_ranges() -> Seq<(char, char)> {
    seq![('0', '9')]
}

/// The white space characters: tab, line feed, vertical tab, form feed,
/// carriage return and space.
pub open spec fn space_ranges() -> Seq<(char, char)> {
    seq![('\t', '\r'), (' ', ' ')]
}

/// The word characters of ASCII: digits, letters and the underscore.
pub open spec fn word_ranges() -> Seq<(char, char)> {
    seq![('0', '9'), ('A', 'Z'), ('_', '_'), ('a', 'z')]
}

/// The ranges of the shorthand with the given lower-case letter.
pub open spec fn perl_ranges(c: char) -> Seq<(char, char)> {
    if c == 'd' {
        digit_ranges()
    } else if c == 's' {
        space_ranges()
    } else {
        word_ranges()
    }
}

/// Builds the ranges of the shorthand with the given lower-case letter.
pub fn perl_class(c: char) -> (r: Vec<(char, char)>)
    ensures
        r@ == perl_ranges(c),
{
    if c == 'd' {
        vec![('0', '9')]
    } else if c == 's' {
        vec![('\t', '\r'), (' ', ' ')]
    } else {
        vec![('0', '9'), ('A', 'Z'), ('_', '_'), ('a', 'z')]
    }
}

/// The ranges of the class with the given name, if there is such a class.
pub open spec fn named_ranges(name: Seq<char>) -> Option<Seq<(char, char)>> {
    if name == "alnum"@ {
        Some(seq![('0', '9'), ('A', 'Z'), ('a', 'z')])
    } else if name == "alpha"@ {
        Some(seq![('A', 'Z'), ('a', 'z')])
    } else if name == "ascii"@ {
        Some(seq![('\0', '\x7f')])
    } else if name == "blank"@ {
        Some(seq![('\t', '\t'), (' ', ' ')])
    } else if name == "cntrl"@ {
        Some(seq![('\0', '\x1f'), ('\x7f', '\x7f')])
    } else if name == "digit"@ {
        Some(digit_ranges())
    } else if name == "graph"@ {
        Some(seq![('!', '~')])
    } else if name == "lower"@ {
        Some(seq![('a', 'z')])
    } else if name == "print"@ {
        Some(seq![(' ', '~')])
    } else if name == "punct"@ {
        Some(seq![('!', '/'), (':', '@'), ('[', '`'), ('{', '~')])
    } else if name == "space"@ {
        Some(space_ranges())
    } else if name == "upper"@ {
        Some(seq![('A', 'Z')])
    } else if name == "word"@ {
        Some(word_ranges())
    } else if name == "xdigit"@ {
        Some(seq![('0', '9'), ('A', 'F'), ('a', 'f')])
    } else {
        None
    }
}

/// Tells whether a name is the given word.
pub fn is_name(name: &String, word: &str) -> (r: bool)
    ensures
        r == (name@ == word@),
{
    *name == String::from_str(word)
}

/// Looks up the ranges of the class with the given name.
pub fn named_class(name: &String) -> (r: Option<Vec<(char, char)>>)
    ensures
        r is Some <==> named_ranges(name@) is Some,
        r is Some ==> r->0@ == named_ranges(name@)->0,
{
    if is_name(name, "alnum") {
        Some(vec![('0', '9'), ('A', 'Z'), ('a', 'z')])
    } else if is_name(name, "alpha") {
        Some(vec![('A', 'Z'), ('a', 'z')])
    } else if is_name(name, "ascii") {
        Some(vec![('\0', '\x7f')])
    } else if is_name(name, "blank") {
        Some(vec![('\t', '\t'), (' ', ' ')])
    } else if is_name(name, "cntrl") {
        Some(vec![('\0', '\x1f'), ('\x7f', '\x7f')])
    } else if is_name(name, "digit") {
        Some(vec![('0', '9')])
    } else if is_name(name, "graph") {
        Some(vec![('!', '~')])
    } else if is_name(name, "lower") {
        Some(vec![('a', 'z')])
    } else if is_name(name, "print") {
        Some(vec![(' ', '~')])
    } else if is_name(name, "punct") {
        Some(vec![('!', '/'), (':', '@'), ('[', '`'), ('{', '~')])
    } else if is_name(name, "space") {
        Some(vec![('\t', '\r'), (' ', ' ')])
    } else if is_name(name, "upper") {
        Some(vec![('A', 'Z')])
    } else if is_name(name, "word") {
        Some(vec![('0', '9'), ('A', 'Z'), ('_', '_'), ('a', 'z')])
    } else if is_name(name, "xdigit") {
        Some(vec![('0', '9'), ('A', 'F'), ('a', 'f')])
    } else {
        None
    }
}

/// Every range lies in ASCII and is not empty.
pub open spec fn is_ascii_table(t: Seq<(char, char)>) -> bool {
    forall|i: int| 0 <= i < t.len() ==> '\0' <= (#[trigger] t[i]).0 <= t[i].1 <= '\x7f'
}

/// The character before an ASCII character other than the first.
pub open spec fn before(c: char) -> char {
    ((c as u8 - 1) as u8) as char
}

/// The character behind an ASCII character.
pub open spec fn behind(c: char) -> char {
    ((c as u8 + 1) as u8) as char
}

/// The ranges between the ranges of a table from the `i`-th on, from the
/// character `next` up to the last character there is.
pub open spec fn gaps(t: Seq<(char, char)>, i: nat, next: char) -> Seq<(char, char)>
    decreases t.len() - i,
{
    if i >= t.len() {
        seq![(next, '\u{10ffff}')]
    } else {
        let range = t[i as int];
        if next < range.0 {
            seq![(next, before(range.0))] + gaps(t, i + 1, behind(range.1))
        } else {
            gaps(t, i + 1, behind(range.1))
        }
    }
}

/// The ranges of all characters outside the ranges of an ASCII table whose
/// ranges are sorted.
pub open spec fn outside(t: Seq<(char, char)>) -> Seq<(char, char)> {
    gaps(t, 0, '\0')
}

/// Builds the ranges of all characters outside the ranges of an ASCII table.
pub fn complement(t: &Vec<(char, char)>) -> (r: Vec<(char, char)>)
    requires
        is_ascii_table(t@),
    ensures
        r@ == outside(t@),
{
    let mut r: Vec<(char, char)> = Vec::new();
    let mut next: char = '\0';
    let mut i: usize = 0;
    while i < t.len()
        invariant
            i <= t.len(),
            is_ascii_table(t@),
            next <= '\u{80}',
            outside(t@) == r@ + gaps(t@, i as nat, next),
        decreases t.len() - i,
    {
        let (lo, hi) = t[i];
        assert('\0' <= t@[i as int].0 <= t@[i as int].1 <= '\x7f');
        assert(lo as u32 <= hi as u32 <= 0x7f);
        if next < lo {
            let prev: char = (lo as u8 - 1) as char;
            r.push((next, prev));
        }
        next = (hi as u8 + 1) as char;
        assert(outside(t@) =~= r@ + gaps(t@, (i + 1) as nat, next));
        i += 1;
    }
    r.push((next, '\u{10ffff}'));
    assert(outside(t@) =~= r@);
    r
}

/// The shorthand classes lie in ASCII.
pub proof fn lemma_perl_ascii(c: char)
    ensures
        is_ascii_table(perl_ranges(c)),
{
}

/// The named classes lie in ASCII.
pub proof fn lemma_named_ascii(name: Seq<char>)
    requires
        named_ranges(name) is Some,
    ensures
        is_ascii_table(named_ranges(name)->0),
{
}

/// No range of the list is empty.
pub open spec fn all_filled(ranges: Seq<(char, char)>) -> bool {
    forall|i: int| 0 <= i < ranges.len() ==> (#[trigger] ranges[i]).0 <= ranges[i].1
}


} // verus!
