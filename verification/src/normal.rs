//! The classes of the trees that the grammar gives are normal: no range is
//! empty, and the ranges of a class that was written in brackets are in
//! order.

use vstd::prelude::*;
use crate::classes::{
    all_filled,
    before,
    behind,
    gaps,
    is_ascii_table,
    lemma_named_ascii,
    lemma_perl_ascii,
    named_ranges,
    outside,
    perl_ranges,
};
use crate::grammar::{
    Counts,
    Cursor,
    after_directive,
    alternation,
    at_directive,
    atom,
    bracket_class,
    class_char,
    class_items,
    counted,
    counted_ast,
    counts_ok,
    find_char,
    greed_for,
    group,
    group_head,
    is_perl_letter,
    no_flags,
    optional_tail,
    parse_spec,
    peek,
    perl_letter,
    perl_negated,
    postfix,
    range_le,
    repeated,
    repeater_of,
    sequence,
    sort_ranges,
    unicode_class,
    with_range,
};
use crate::parse::{AstSpec, Greed, Repeater};
use crate::unicode::{lemma_unicode_filled, unicode_ranges};

verus! {

/// The ranges of the list are in order.
pub open spec fn in_order(ranges: Seq<(char, char)>) -> bool {
    forall|i: int, j: int|
        0 <= i <= j < ranges.len() ==> range_le(#[trigger] ranges[i], #[trigger] ranges[j])
}

/// Every class in the tree has no empty range.
pub open spec fn classes_filled(ast: AstSpec) -> bool
    decreases ast,
{
    match ast {
        AstSpec::Class(ranges, _, _) => all_filled(ranges),
        AstSpec::Capture(_, _, x) => classes_filled(*x),
        AstSpec::Cat(xs) => forall|i: int| 0 <= i < xs.len() ==> classes_filled(#[trigger] xs[i]),
        AstSpec::Alt(x, y) => classes_filled(*x) && classes_filled(*y),
        AstSpec::Rep(x, _, _) => classes_filled(*x),
        _ => true,
    }
}

/// A list with one more range put into it holds the ranges that it held and
/// the new one, and is in order if it was.
pub proof fn lemma_with_range(ranges: Seq<(char, char)>, r: (char, char))
    ensures
        with_range(ranges, r).len() == ranges.len() + 1,
        all_filled(ranges) && r.0 <= r.1 ==> all_filled(with_range(ranges, r)),
        in_order(ranges) ==> in_order(with_range(ranges, r)),
        forall|i: int|
            0 <= i < with_range(ranges, r).len() ==> #[trigger] with_range(ranges, r)[i] == r
                || exists|j: int| 0 <= j < ranges.len() && ranges[j] == with_range(ranges, r)[i],
    decreases ranges.len(),
{
    let out = with_range(ranges, r);
    if ranges.len() == 0 || range_le(ranges.last(), r) {
        assert forall|i: int| 0 <= i < out.len() implies #[trigger] out[i] == r || exists|j: int|
            0 <= j < ranges.len() && ranges[j] == out[i] by {
            if i < ranges.len() {
                assert(ranges[i] == out[i]);
            }
        }
        if in_order(ranges) {
            assert forall|i: int, j: int| 0 <= i <= j < out.len() implies range_le(
                #[trigger] out[i],
                #[trigger] out[j],
            ) by {
                if j < ranges.len() {
                    assert(range_le(ranges[i], ranges[j]));
                } else if i < ranges.len() {
                    assert(range_le(ranges[i], ranges[ranges.len() - 1]));
                }
            }
        }
    } else {
        let front = ranges.drop_last();
        let last = ranges.last();
        lemma_with_range(front, r);
        let inner = with_range(front, r);
        assert forall|i: int| 0 <= i < out.len() implies #[trigger] out[i] == r || exists|j: int|
            0 <= j < ranges.len() && ranges[j] == out[i] by {
            if i < inner.len() {
                assert(out[i] == inner[i]);
                if inner[i] != r {
                    let j = choose|j: int| 0 <= j < front.len() && front[j] == inner[i];
                    assert(ranges[j] == out[i]);
                }
            } else {
                assert(ranges[ranges.len() - 1] == out[i]);
            }
        }
        if all_filled(ranges) && r.0 <= r.1 {
            assert(all_filled(front)) by {
                assert forall|i: int| 0 <= i < front.len() implies (#[trigger] front[i]).0
                    <= front[i].1 by {
                    assert(front[i] == ranges[i]);
                }
            }
            assert forall|i: int| 0 <= i < out.len() implies (#[trigger] out[i]).0 <= out[i].1 by {
                if i < inner.len() {
                    assert(out[i] == inner[i]);
                } else {
                    assert(out[i] == ranges[ranges.len() - 1]);
                }
            }
        }
        if in_order(ranges) {
            assert(in_order(front)) by {
                assert forall|i: int, j: int| 0 <= i <= j < front.len() implies range_le(
                    #[trigger] front[i],
                    #[trigger] front[j],
                ) by {
                    assert(range_le(ranges[i], ranges[j]));
                }
            }
            assert forall|i: int, j: int| 0 <= i <= j < out.len() implies range_le(
                #[trigger] out[i],
                #[trigger] out[j],
            ) by {
                if j < inner.len() {
                    assert(range_le(inner[i], inner[j]));
                } else if i < inner.len() {
                    if inner[i] != r {
                        let k = choose|k: int| 0 <= k < front.len() && front[k] == inner[i];
                        assert(range_le(ranges[k], ranges[ranges.len() - 1]));
                    }
                }
            }
        }
    }
}

/// The ranges in order are in order, as many as before, and none of them
/// is empty if none was.
pub proof fn lemma_sort_ranges(ranges: Seq<(char, char)>)
    ensures
        in_order(sort_ranges(ranges)),
        sort_ranges(ranges).len() == ranges.len(),
        all_filled(ranges) ==> all_filled(sort_ranges(ranges)),
    decreases ranges.len(),
{
    if ranges.len() > 0 {
        let front = ranges.drop_last();
        lemma_sort_ranges(front);
        lemma_with_range(sort_ranges(front), ranges.last());
        if all_filled(ranges) {
            assert(all_filled(front)) by {
                assert forall|i: int| 0 <= i < front.len() implies (#[trigger] front[i]).0
                    <= front[i].1 by {
                    assert(front[i] == ranges[i]);
                }
            }
            assert(ranges[ranges.len() - 1].0 <= ranges[ranges.len() - 1].1);
        }
    }
}

/// Lists without empty ranges have none in a row.
pub proof fn lemma_filled_concat(a: Seq<(char, char)>, b: Seq<(char, char)>)
    requires
        all_filled(a),
        all_filled(b),
    ensures
        all_filled(a + b),
{
    assert forall|i: int| 0 <= i < (a + b).len() implies (#[trigger] (a + b)[i]).0 <= (a + b)[i].1 by {
        if i < a.len() {
            assert((a + b)[i] == a[i]);
        } else {
            assert((a + b)[i] == b[i - a.len()]);
        }
    }
}

/// The ranges between the ranges of an ASCII table are not empty.
pub proof fn lemma_gaps_filled(t: Seq<(char, char)>, i: nat, next: char)
    requires
        is_ascii_table(t),
        '\0' <= next <= '\u{80}',
    ensures
        all_filled(gaps(t, i, next)),
    decreases t.len() - i,
{
    if i < t.len() {
        let range = t[i as int];
        assert('\0' <= range.0 <= range.1 <= '\x7f');
        lemma_gaps_filled(t, i + 1, behind(range.1));
        if next < range.0 {
            lemma_filled_concat(seq![(next, before(range.0))], gaps(t, i + 1, behind(range.1)));
        }
    }
}

/// The tables of the named classes and of the shorthand classes hold no
/// empty range, and neither do the ranges outside them.
pub proof fn lemma_tables_filled(name: Seq<char>, letter: char)
    ensures
        named_ranges(name) is Some ==> all_filled(named_ranges(name)->0) && all_filled(
            outside(named_ranges(name)->0),
        ),
        all_filled(perl_ranges(letter)) && all_filled(outside(perl_ranges(letter))),
        unicode_ranges(name) is Some ==> all_filled(unicode_ranges(name)->0),
{
    if unicode_ranges(name) is Some {
        lemma_unicode_filled(name);
    }
    lemma_perl_ascii(letter);
    lemma_gaps_filled(perl_ranges(letter), 0, '\0');
    if named_ranges(name) is Some {
        lemma_named_ascii(name);
        lemma_gaps_filled(named_ranges(name)->0, 0, '\0');
    }
}

/// The items inside brackets write no empty range.
pub proof fn lemma_class_items_filled(
    s: Seq<char>,
    open: int,
    i: int,
    first: bool,
    acc: Seq<(char, char)>,
)
    requires
        all_filled(acc),
    ensures
        class_items(s, open, i, first, acc) is Ok ==> all_filled(
            class_items(s, open, i, first, acc)->Ok_0.0,
        ),
    decreases s.len() - i,
{
    match peek(s, i) {
        None => {},
        Some(c) => {
            if c == ']' && !first {
            } else if c == '[' && peek(s, i + 1) == Some(':') {
                let negated = peek(s, i + 2) == Some('^');
                let a = if negated {
                    i + 3
                } else {
                    i + 2
                };
                let b = find_char(s, ':', a);
                if a <= b && peek(s, b + 1) == Some(']') {
                    let name = s.subrange(a, b);
                    lemma_tables_filled(name, 'd');
                    match named_ranges(name) {
                        None => {},
                        Some(ranges) => {
                            let more = if negated {
                                outside(ranges)
                            } else {
                                ranges
                            };
                            lemma_filled_concat(acc, more);
                            lemma_class_items_filled(s, open, b + 2, false, acc + more);
                        },
                    }
                }
            } else if c == '\\' && peek(s, i + 1) is Some && is_perl_letter(peek(s, i + 1)->0) {
                let letter = peek(s, i + 1)->0;
                let ranges = perl_ranges(perl_letter(letter));
                lemma_tables_filled(Seq::empty(), perl_letter(letter));
                let more = if perl_negated(letter) {
                    outside(ranges)
                } else {
                    ranges
                };
                lemma_filled_concat(acc, more);
                lemma_class_items_filled(s, open, i + 2, false, acc + more);
            } else if c == '\\' && peek(s, i + 1) == Some('P') {
            } else if c == '\\' && peek(s, i + 1) == Some('p') {
                match unicode_class(s, i) {
                    Err(_) => {},
                    Ok((ranges, end)) => {
                        if end > i {
                            lemma_unicode_class_filled(s, i);
                            lemma_filled_concat(acc, ranges);
                            lemma_class_items_filled(s, open, end, false, acc + ranges);
                        }
                    },
                }
            } else {
                match class_char(s, i) {
                    Err(_) => {},
                    Ok((lo, next)) => {
                        if next <= i {
                        } else if peek(s, next) == Some('-') && peek(s, next + 1) is Some && peek(
                            s,
                            next + 1,
                        ) != Some(']') {
                            match class_char(s, next + 1) {
                                Err(_) => {},
                                Ok((hi, end)) => {
                                    if end > next && !(hi < lo) {
                                        lemma_filled_concat(acc, seq![(lo, hi)]);
                                        assert(acc + seq![(lo, hi)] =~= acc.push((lo, hi)));
                                        lemma_class_items_filled(
                                            s,
                                            open,
                                            end,
                                            false,
                                            acc.push((lo, hi)),
                                        );
                                    }
                                },
                            }
                        } else {
                            lemma_filled_concat(acc, seq![(lo, lo)]);
                            assert(acc + seq![(lo, lo)] =~= acc.push((lo, lo)));
                            lemma_class_items_filled(s, open, next, false, acc.push((lo, lo)));
                        }
                    },
                }
            }
        },
    }
}

/// A Unicode class holds no empty range.
pub proof fn lemma_unicode_class_filled(s: Seq<char>, pos: int)
    ensures
        unicode_class(s, pos) is Ok ==> all_filled(unicode_class(s, pos)->Ok_0.0),
{
    if peek(s, pos + 2) == Some('{') {
        let a = pos + 3;
        let b = find_char(s, '}', a);
        if a <= b < s.len() {
            lemma_tables_filled(s.subrange(a, b), 'd');
        }
    } else if 0 <= pos + 2 < s.len() {
        lemma_tables_filled(s.subrange(pos + 2, pos + 3), 'd');
    }
}

/// A class that is written in brackets has its ranges in order, and none
/// of them is empty.
pub proof fn law_bracket_class_normal(s: Seq<char>, st: Cursor)
    ensures
        bracket_class(s, st) is Ok ==> bracket_class(s, st)->Ok_0.0 is Class && in_order(
            bracket_class(s, st)->Ok_0.0->Class_0,
        ) && all_filled(bracket_class(s, st)->Ok_0.0->Class_0),
{
    let negated = peek(s, st.pos + 1) == Some('^');
    let start = if negated {
        st.pos + 2
    } else {
        st.pos + 1
    };
    lemma_class_items_filled(s, st.pos, start, true, Seq::empty());
    match class_items(s, st.pos, start, true, Seq::empty()) {
        Err(_) => {},
        Ok((ranges, _)) => {
            lemma_sort_ranges(ranges);
        },
    }
}

/// Every list item has classes without empty ranges.
pub open spec fn all_classes_filled(items: Seq<AstSpec>) -> bool {
    forall|i: int| 0 <= i < items.len() ==> classes_filled(#[trigger] items[i])
}

/// Optional iterations of a tree have the classes of the tree.
pub proof fn lemma_tail_filled(x: AstSpec, k: nat, greed: Greed)
    requires
        classes_filled(x),
    ensures
        classes_filled(optional_tail(x, k, greed)),
    decreases k,
{
    if k > 1 {
        lemma_tail_filled(x, (k - 1) as nat, greed);
        let items = seq![x, optional_tail(x, (k - 1) as nat, greed)];
        assert(all_classes_filled(items));
        assert(classes_filled(AstSpec::Cat(items)));
    }
}

/// A counted repetition of a tree has the classes of the tree.
pub proof fn lemma_counted_filled(x: AstSpec, counts: Counts, greed: Greed)
    requires
        classes_filled(x),
    ensures
        classes_filled(counted_ast(x, counts, greed)),
{
    let copies = Seq::new(counts.min, |i: int| x);
    match counts.max {
        None => {
            let star = AstSpec::Rep(Box::new(x), Repeater::ZeroMore, greed);
            assert(all_classes_filled(copies.push(star)));
        },
        Some(max) => {
            if max <= counts.min {
                assert(all_classes_filled(copies));
            } else {
                lemma_tail_filled(x, (max - counts.min) as nat, greed);
                assert(all_classes_filled(
                    copies.push(optional_tail(x, (max - counts.min) as nat, greed)),
                ));
            }
        },
    }
}

/// Repetition operators leave the classes of a tree as they are.
pub proof fn lemma_postfix_filled(s: Seq<char>, st: Cursor, x: AstSpec)
    requires
        classes_filled(x),
    ensures
        postfix(s, st, x) is Ok ==> classes_filled(postfix(s, st, x)->Ok_0.0),
    decreases s.len() - st.pos,
{
    match peek(s, st.pos) {
        None => {},
        Some(c) => {
            if c == '?' || c == '*' || c == '+' {
                let lazy = peek(s, st.pos + 1) == Some('?');
                let next = if lazy {
                    st.pos + 2
                } else {
                    st.pos + 1
                };
                let tree = AstSpec::Rep(Box::new(x), repeater_of(c), greed_for(lazy, st.flags));
                lemma_postfix_filled(s, Cursor { pos: next, flags: st.flags, ncap: st.ncap }, tree);
            } else if c == '{' {
                match counted(s, st.pos) {
                    None => {},
                    Some(counts) => {
                        if counts_ok(counts) && counts.end > st.pos {
                            let lazy = peek(s, counts.end) == Some('?');
                            let next = if lazy {
                                counts.end + 1
                            } else {
                                counts.end
                            };
                            let greed = greed_for(lazy, st.flags);
                            lemma_counted_filled(x, counts, greed);
                            lemma_postfix_filled(
                                s,
                                Cursor { pos: next, flags: st.flags, ncap: st.ncap },
                                counted_ast(x, counts, greed),
                            );
                        }
                    },
                }
            }
        },
    }
}

/// An alternation has no class with an empty range.
pub proof fn lemma_alternation_filled(s: Seq<char>, st: Cursor)
    ensures
        alternation(s, st) is Ok ==> classes_filled(alternation(s, st)->Ok_0.0),
    decreases s.len() - st.pos, 5nat,
{
    lemma_sequence_filled(s, st, Seq::empty());
    match sequence(s, st, Seq::empty()) {
        Err(_) => {},
        Ok((x, st1)) => {
            if st.pos <= st1.pos && peek(s, st1.pos) == Some('|') {
                lemma_alternation_filled(
                    s,
                    Cursor { pos: st1.pos + 1, flags: st1.flags, ncap: st1.ncap },
                );
            }
        },
    }
}

/// A sequence has no class with an empty range.
pub proof fn lemma_sequence_filled(s: Seq<char>, st: Cursor, acc: Seq<AstSpec>)
    requires
        all_classes_filled(acc),
    ensures
        sequence(s, st, acc) is Ok ==> classes_filled(sequence(s, st, acc)->Ok_0.0),
    decreases s.len() - st.pos, 4nat,
{
    if acc.len() == 1 {
        assert(classes_filled(acc[0]));
    }
    match peek(s, st.pos) {
        None => {},
        Some(c) => {
            if c == '|' || c == ')' {
            } else if at_directive(s, st) {
                let st1 = after_directive(s, st);
                if st1.pos > st.pos {
                    lemma_sequence_filled(s, st1, acc);
                }
            } else {
                lemma_repeated_filled(s, st);
                match repeated(s, st) {
                    Err(_) => {},
                    Ok((x, st1)) => {
                        let more = acc.push(x);
                        assert(all_classes_filled(more)) by {
                            assert forall|i: int| 0 <= i < more.len() implies classes_filled(
                                #[trigger] more[i],
                            ) by {
                                if i < acc.len() {
                                    assert(more[i] == acc[i]);
                                }
                            }
                        }
                        if more.len() == 1 {
                            assert(classes_filled(more[0]));
                        }
                        if st.pos < st1.pos <= s.len() {
                            lemma_sequence_filled(s, st1, more);
                        }
                    },
                }
            }
        },
    }
}

/// A repeated atom has no class with an empty range.
pub proof fn lemma_repeated_filled(s: Seq<char>, st: Cursor)
    ensures
        repeated(s, st) is Ok ==> classes_filled(repeated(s, st)->Ok_0.0),
    decreases s.len() - st.pos, 3nat,
{
    lemma_atom_filled(s, st);
    match atom(s, st) {
        Err(_) => {},
        Ok((x, st1)) => {
            lemma_postfix_filled(s, st1, x);
        },
    }
}

/// An atom has no class with an empty range.
pub proof fn lemma_atom_filled(s: Seq<char>, st: Cursor)
    ensures
        atom(s, st) is Ok ==> classes_filled(atom(s, st)->Ok_0.0),
    decreases s.len() - st.pos, 2nat,
{
    match peek(s, st.pos) {
        None => {},
        Some(c) => {
            if c == '(' {
                lemma_group_filled(s, st);
            } else if c == '[' {
                law_bracket_class_normal(s, st);
            } else if c == '\\' {
                lemma_unicode_class_filled(s, st.pos);
                match peek(s, st.pos + 1) {
                    Some(letter) => {
                        lemma_tables_filled(Seq::empty(), perl_letter(letter));
                    },
                    None => {},
                }
            }
        },
    }
}

/// A group has no class with an empty range.
pub proof fn lemma_group_filled(s: Seq<char>, st: Cursor)
    ensures
        group(s, st) is Ok ==> classes_filled(group(s, st)->Ok_0.0),
    decreases s.len() - st.pos, 1nat,
{
    match group_head(s, st) {
        Err(_) => {},
        Ok(head) => {
            if !(head.inner.pos <= st.pos || head.inner.pos > s.len()) {
                lemma_alternation_filled(s, head.inner);
            }
        },
    }
}

/// No class of a tree that the grammar gives has an empty range.
pub proof fn law_parsed_classes_filled(s: Seq<char>)
    requires
        parse_spec(s) is Ok,
    ensures
        classes_filled(parse_spec(s)->Ok_0),
{
    lemma_alternation_filled(s, Cursor { pos: 0, flags: no_flags(), ncap: 0 });
}

} // verus!
