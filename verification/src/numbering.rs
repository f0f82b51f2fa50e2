//! The numbering of groups: the trees that the grammar gives number their
//! groups from 1 on, in the order in which the groups open.

use vstd::prelude::*;
use crate::frame::{framed, groups_positive, lemma_program_framed};
use crate::compile::program_code;
use crate::grammar::{
    Counts,
    Cursor,
    alternation,
    atom,
    cat_of,
    counted,
    counted_ast,
    counts_ok,
    group,
    group_head,
    no_flags,
    optional_tail,
    parse_spec,
    peek,
    postfix,
    repeated,
    sequence,
    after_directive,
    at_directive,
};
use crate::parse::{AstSpec, Greed};

verus! {

/// Every group index in the tree is above `lo` and at most `hi`.
pub open spec fn numbered(ast: AstSpec, lo: nat, hi: nat) -> bool
    decreases ast,
{
    match ast {
        AstSpec::Capture(cap, _, x) => lo < cap <= hi && numbered(*x, lo, hi),
        AstSpec::Cat(xs) => forall|i: int| 0 <= i < xs.len() ==> numbered(#[trigger] xs[i], lo, hi),
        AstSpec::Alt(x, y) => numbered(*x, lo, hi) && numbered(*y, lo, hi),
        AstSpec::Rep(x, _, _) => numbered(*x, lo, hi),
        _ => true,
    }
}

/// A tree whose indices lie in a range has them in every wider range.
pub proof fn lemma_numbered_wider(ast: AstSpec, lo: nat, hi: nat, lo2: nat, hi2: nat)
    requires
        numbered(ast, lo, hi),
        lo2 <= lo,
        hi <= hi2,
    ensures
        numbered(ast, lo2, hi2),
    decreases ast,
{
    match ast {
        AstSpec::Capture(_, _, x) => {
            lemma_numbered_wider(*x, lo, hi, lo2, hi2);
        },
        AstSpec::Cat(xs) => {
            assert forall|i: int| 0 <= i < xs.len() implies numbered(#[trigger] xs[i], lo2, hi2) by {
                lemma_numbered_wider(xs[i], lo, hi, lo2, hi2);
            }
        },
        AstSpec::Alt(x, y) => {
            lemma_numbered_wider(*x, lo, hi, lo2, hi2);
            lemma_numbered_wider(*y, lo, hi, lo2, hi2);
        },
        AstSpec::Rep(x, _, _) => {
            lemma_numbered_wider(*x, lo, hi, lo2, hi2);
        },
        _ => {},
    }
}

/// A tree whose indices are above 0 has positive indices.
pub proof fn lemma_numbered_positive(ast: AstSpec, hi: nat)
    requires
        numbered(ast, 0, hi),
    ensures
        groups_positive(ast),
    decreases ast,
{
    match ast {
        AstSpec::Capture(_, _, x) => {
            lemma_numbered_positive(*x, hi);
        },
        AstSpec::Cat(xs) => {
            assert forall|i: int| 0 <= i < xs.len() implies groups_positive(#[trigger] xs[i]) by {
                lemma_numbered_positive(xs[i], hi);
            }
        },
        AstSpec::Alt(x, y) => {
            lemma_numbered_positive(*x, hi);
            lemma_numbered_positive(*y, hi);
        },
        AstSpec::Rep(x, _, _) => {
            lemma_numbered_positive(*x, hi);
        },
        _ => {},
    }
}

/// Every tree of the list has its indices in the range.
pub open spec fn all_numbered(items: Seq<AstSpec>, lo: nat, hi: nat) -> bool {
    forall|i: int| 0 <= i < items.len() ==> numbered(#[trigger] items[i], lo, hi)
}

/// Optional iterations of a tree have the indices of the tree.
pub proof fn lemma_tail_numbered(x: AstSpec, k: nat, greed: Greed, lo: nat, hi: nat)
    requires
        numbered(x, lo, hi),
    ensures
        numbered(optional_tail(x, k, greed), lo, hi),
    decreases k,
{
    if k > 1 {
        lemma_tail_numbered(x, (k - 1) as nat, greed, lo, hi);
        let items = seq![x, optional_tail(x, (k - 1) as nat, greed)];
        assert(all_numbered(items, lo, hi));
        assert(numbered(AstSpec::Cat(items), lo, hi));
    }
}

/// A counted repetition of a tree has the indices of the tree.
pub proof fn lemma_counted_numbered(x: AstSpec, counts: Counts, greed: Greed, lo: nat, hi: nat)
    requires
        numbered(x, lo, hi),
    ensures
        numbered(counted_ast(x, counts, greed), lo, hi),
{
    let copies = Seq::new(counts.min, |i: int| x);
    match counts.max {
        None => {
            let star = AstSpec::Rep(Box::new(x), crate::parse::Repeater::ZeroMore, greed);
            assert(all_numbered(copies.push(star), lo, hi));
        },
        Some(max) => {
            if max <= counts.min {
                assert(all_numbered(copies, lo, hi));
            } else {
                lemma_tail_numbered(x, (max - counts.min) as nat, greed, lo, hi);
                assert(all_numbered(
                    copies.push(optional_tail(x, (max - counts.min) as nat, greed)),
                    lo,
                    hi,
                ));
            }
        },
    }
}

/// Repetition operators leave the indices of a tree and the number of
/// groups as they are.
pub proof fn lemma_postfix_numbered(s: Seq<char>, st: Cursor, x: AstSpec, lo: nat, hi: nat)
    requires
        numbered(x, lo, hi),
    ensures
        postfix(s, st, x) is Ok ==> {
            let done = postfix(s, st, x)->Ok_0;
            done.1.ncap == st.ncap && numbered(done.0, lo, hi)
        },
    decreases s.len() - st.pos,
{
    match peek(s, st.pos) {
        None => {},
        Some(c) => {
            if c == '?' || c == '*' || c == '+' {
                let lazy = peek(s, st.pos + 1) == Some('?');
                let next = if lazy {
                    st.pos + 2
                } else {
                    st.pos + 1
                };
                let tree = AstSpec::Rep(
                    Box::new(x),
                    crate::grammar::repeater_of(c),
                    crate::grammar::greed_for(lazy, st.flags),
                );
                lemma_postfix_numbered(
                    s,
                    Cursor { pos: next, flags: st.flags, ncap: st.ncap },
                    tree,
                    lo,
                    hi,
                );
            } else if c == '{' {
                match counted(s, st.pos) {
                    None => {},
                    Some(counts) => {
                        if counts_ok(counts) && counts.end > st.pos {
                            let lazy = peek(s, counts.end) == Some('?');
                            let next = if lazy {
                                counts.end + 1
                            } else {
                                counts.end
                            };
                            let greed = crate::grammar::greed_for(lazy, st.flags);
                            lemma_counted_numbered(x, counts, greed, lo, hi);
                            lemma_postfix_numbered(
                                s,
                                Cursor { pos: next, flags: st.flags, ncap: st.ncap },
                                counted_ast(x, counts, greed),
                                lo,
                                hi,
                            );
                        }
                    },
                }
            }
        },
    }
}

/// What holds of what the grammar reads from a cursor: the number of groups
/// does not shrink, and the indices of the tree are the numbers of the
/// groups that were opened while it was read.
pub open spec fn numbers_groups(read: crate::grammar::Parsed, st: Cursor) -> bool {
    read is Ok ==> {
        let done = read->Ok_0;
        st.ncap <= done.1.ncap && numbered(done.0, st.ncap, done.1.ncap)
    }
}

/// An alternation numbers the groups that it opens.
pub proof fn lemma_alternation_numbered(s: Seq<char>, st: Cursor)
    ensures
        numbers_groups(alternation(s, st), st),
    decreases s.len() - st.pos, 5nat,
{
    lemma_sequence_numbered(s, st, Seq::empty(), st.ncap);
    match sequence(s, st, Seq::empty()) {
        Err(_) => {},
        Ok((x, st1)) => {
            if st.pos <= st1.pos && peek(s, st1.pos) == Some('|') {
                let st2 = Cursor { pos: st1.pos + 1, flags: st1.flags, ncap: st1.ncap };
                lemma_alternation_numbered(s, st2);
                match alternation(s, st2) {
                    Err(_) => {},
                    Ok((y, st3)) => {
                        lemma_numbered_wider(x, st.ncap, st1.ncap, st.ncap, st3.ncap);
                        lemma_numbered_wider(y, st1.ncap, st3.ncap, st.ncap, st3.ncap);
                    },
                }
            }
        },
    }
}

/// A sequence numbers the groups that it opens, behind those of the items
/// that were read before.
pub proof fn lemma_sequence_numbered(s: Seq<char>, st: Cursor, acc: Seq<AstSpec>, lo: nat)
    requires
        lo <= st.ncap,
        all_numbered(acc, lo, st.ncap),
    ensures
        sequence(s, st, acc) is Ok ==> {
            let done = sequence(s, st, acc)->Ok_0;
            st.ncap <= done.1.ncap && numbered(done.0, lo, done.1.ncap)
        },
    decreases s.len() - st.pos, 4nat,
{
    match peek(s, st.pos) {
        None => {
            lemma_cat_numbered(acc, lo, st.ncap);
        },
        Some(c) => {
            if c == '|' || c == ')' {
                lemma_cat_numbered(acc, lo, st.ncap);
            } else if at_directive(s, st) {
                let st1 = after_directive(s, st);
                if st1.pos > st.pos {
                    lemma_sequence_numbered(s, st1, acc, lo);
                } else {
                    lemma_cat_numbered(acc, lo, st.ncap);
                }
            } else {
                lemma_repeated_numbered(s, st);
                match repeated(s, st) {
                    Err(_) => {},
                    Ok((x, st1)) => {
                        let more = acc.push(x);
                        assert(all_numbered(more, lo, st1.ncap)) by {
                            assert forall|i: int| 0 <= i < more.len() implies numbered(
                                #[trigger] more[i],
                                lo,
                                st1.ncap,
                            ) by {
                                if i < acc.len() {
                                    lemma_numbered_wider(acc[i], lo, st.ncap, lo, st1.ncap);
                                } else {
                                    lemma_numbered_wider(x, st.ncap, st1.ncap, lo, st1.ncap);
                                }
                            }
                        }
                        if st.pos < st1.pos <= s.len() {
                            lemma_sequence_numbered(s, st1, more, lo);
                        } else {
                            lemma_cat_numbered(more, lo, st1.ncap);
                        }
                    },
                }
            }
        },
    }
}

/// A list of trees as one tree has the indices of the trees.
pub proof fn lemma_cat_numbered(items: Seq<AstSpec>, lo: nat, hi: nat)
    requires
        all_numbered(items, lo, hi),
    ensures
        numbered(cat_of(items), lo, hi),
{
    if items.len() == 1 {
        assert(numbered(items[0], lo, hi));
    }
}

/// A repeated atom numbers the groups that it opens.
pub proof fn lemma_repeated_numbered(s: Seq<char>, st: Cursor)
    ensures
        numbers_groups(repeated(s, st), st),
    decreases s.len() - st.pos, 3nat,
{
    lemma_atom_numbered(s, st);
    match atom(s, st) {
        Err(_) => {},
        Ok((x, st1)) => {
            lemma_postfix_numbered(s, st1, x, st.ncap, st1.ncap);
        },
    }
}

/// An atom numbers the groups that it opens.
pub proof fn lemma_atom_numbered(s: Seq<char>, st: Cursor)
    ensures
        numbers_groups(atom(s, st), st),
    decreases s.len() - st.pos, 2nat,
{
    match peek(s, st.pos) {
        None => {},
        Some(c) => {
            if c == '(' {
                lemma_group_numbered(s, st);
            }
        },
    }
}

/// A group numbers itself and the groups that open inside it.
pub proof fn lemma_group_numbered(s: Seq<char>, st: Cursor)
    ensures
        numbers_groups(group(s, st), st),
    decreases s.len() - st.pos, 1nat,
{
    match group_head(s, st) {
        Err(_) => {},
        Ok(head) => {
            if !(head.inner.pos <= st.pos || head.inner.pos > s.len()) {
                lemma_alternation_numbered(s, head.inner);
                match alternation(s, head.inner) {
                    Err(_) => {},
                    Ok((x, st1)) => {
                        lemma_numbered_wider(x, head.inner.ncap, st1.ncap, st.ncap, st1.ncap);
                    },
                }
            }
        },
    }
}

/// The trees that the grammar gives number their groups from 1 on.
pub proof fn law_parsed_groups_positive(s: Seq<char>)
    requires
        parse_spec(s) is Ok,
    ensures
        groups_positive(parse_spec(s)->Ok_0),
        framed(program_code(parse_spec(s)->Ok_0)),
{
    let start = Cursor { pos: 0, flags: no_flags(), ncap: 0 };
    lemma_alternation_numbered(s, start);
    let done = alternation(s, start)->Ok_0;
    lemma_numbered_positive(done.0, done.1.ncap);
    lemma_program_framed(done.0);
}

} // verus!
