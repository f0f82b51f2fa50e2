//! Laws that relate the searching functions to one another.

use vstd::prelude::*;
use vstd::utf8::{encode_utf8, is_char_boundary};
use crate::compile::{InstSpec, groups_of, program_code, slots_used};
use crate::bounds::lemma_run_within;
use crate::frame::law_groups_inside_match;
use crate::grammar::{Cursor, no_flags, parse_spec, sequence};
use crate::numbering::law_parsed_groups_positive;
use crate::parse::AstSpec;
use crate::text::{
    byte_offset,
    law_offsets_are_boundaries,
    lemma_byte_offset_ordered,
};
use crate::regexp::{byte_span, find_spec};
use crate::replace::{NoExpand, replacements, replacen_spec};
use crate::search::{
    Spans,
    all_matches,
    chained,
    end_of,
    has_match,
    lemma_matches_chained,
    lemma_next_spans,
    matches_from,
    next_spans,
    pieces,
    split_spec,
    start_of,
    woven,
};
use crate::search::{search_from, shifted};
use crate::vm::{
    StepSpec,
    ThreadSpec,
    ThreadsSpec,
    follow,
    fresh_slots,
    no_threads,
    run_spec,
    simulate,
    span_of,
    spans_of,
    step,
};

verus! {

/// An expression matches in a text exactly when a leftmost match is found
/// in it, and exactly when the groups of a match are found in it: whether
/// `is_match` returns true, whether `find` returns a span and whether
/// `captures` returns groups is one and the same.
pub proof fn law_match_find_captures_agree(code: Seq<InstSpec>, chars: Seq<char>)
    ensures
        has_match(run_spec(code, chars, false)) <==> find_spec(code, chars) is Some,
        find_spec(code, chars) is Some <==> has_match(run_spec(code, chars, true)),
{
}

/// The matches behind the `i`-th match are the matches from its end on.
pub proof fn lemma_matches_suffix(
    code: Seq<InstSpec>,
    chars: Seq<char>,
    last_end: nat,
    last_match: Option<nat>,
    i: int,
)
    requires
        0 <= i < matches_from(code, chars, last_end, last_match).len(),
    ensures
        ({
            let ms = matches_from(code, chars, last_end, last_match);
            ms.skip(i + 1) == matches_from(code, chars, end_of(ms[i]), Some(end_of(ms[i])))
        }),
    decreases i,
{
    let ms = matches_from(code, chars, last_end, last_match);
    let first = next_spans(code, chars, last_end, last_match)->0;
    let rest = matches_from(code, chars, end_of(first), Some(end_of(first)));
    assert(ms =~= seq![first] + rest);
    if i == 0 {
        assert(ms.skip(1) =~= rest);
    } else {
        lemma_matches_suffix(code, chars, end_of(first), Some(end_of(first)), i - 1);
        assert(ms.skip(i + 1) =~= rest.skip(i));
        assert(ms[i] == rest[i - 1]);
    }
}

/// Every match from a position on starts at or behind that position, and
/// ends behind it if the position is the end of the match before.
pub proof fn lemma_matches_behind(
    code: Seq<InstSpec>,
    chars: Seq<char>,
    last_end: nat,
    last_match: Option<nat>,
    j: int,
)
    requires
        0 <= j < matches_from(code, chars, last_end, last_match).len(),
    ensures
        ({
            let m = matches_from(code, chars, last_end, last_match)[j];
            &&& has_match(m)
            &&& last_end <= start_of(m) <= end_of(m) <= chars.len()
            &&& last_match == Some(last_end) ==> last_end < end_of(m)
        }),
    decreases j,
{
    let ms = matches_from(code, chars, last_end, last_match);
    let first = next_spans(code, chars, last_end, last_match)->0;
    let rest = matches_from(code, chars, end_of(first), Some(end_of(first)));
    lemma_next_spans(code, chars, last_end, last_match);
    assert(ms =~= seq![first] + rest);
    if j > 0 {
        lemma_matches_behind(code, chars, end_of(first), Some(end_of(first)), j - 1);
        assert(ms[j] == rest[j - 1]);
    }
}

/// The matches that `find_iter` yields end at strictly increasing positions
/// and do not overlap: each starts no earlier than the one before it ends.
pub proof fn law_matches_advance(code: Seq<InstSpec>, chars: Seq<char>, i: int, j: int)
    requires
        0 <= i < j < all_matches(code, chars).len(),
    ensures
        end_of(all_matches(code, chars)[i]) < end_of(all_matches(code, chars)[j]),
        end_of(all_matches(code, chars)[i]) <= start_of(all_matches(code, chars)[j]),
        start_of(all_matches(code, chars)[j]) <= end_of(all_matches(code, chars)[j]),
{
    let ms = all_matches(code, chars);
    let e = end_of(ms[i]);
    lemma_matches_suffix(code, chars, 0, None, i);
    lemma_matches_behind(code, chars, e, Some(e), j - i - 1);
    assert(ms.skip(i + 1)[j - i - 1] == ms[j]);
}

/// The texts of the given matches.
pub open spec fn match_texts(chars: Seq<char>, matches: Seq<Spans>) -> Seq<Seq<char>> {
    Seq::new(
        matches.len(),
        |i: int| chars.subrange(start_of(matches[i]) as int, end_of(matches[i]) as int),
    )
}

/// The pieces of a split with the texts of the matches put back between
/// them.
pub open spec fn joined(parts: Seq<Seq<char>>, between: Seq<Seq<char>>) -> Seq<char>
    decreases parts.len(),
{
    if parts.len() == 0 {
        Seq::empty()
    } else if between.len() == 0 {
        parts[0]
    } else {
        parts[0] + between[0] + joined(parts.drop_first(), between.drop_first())
    }
}

/// Joining the pieces between matches with the texts of the matches gives
/// the text back from where the pieces start.
pub proof fn lemma_joined(chars: Seq<char>, matches: Seq<Spans>, last: nat)
    requires
        last <= chars.len(),
        chained(matches, last, chars.len()),
    ensures
        joined(pieces(chars, matches, last), match_texts(chars, matches)) == chars.subrange(
            last as int,
            chars.len() as int,
        ),
    decreases matches.len(),
{
    let parts = pieces(chars, matches, last);
    let texts = match_texts(chars, matches);
    let len = chars.len() as int;
    if matches.len() == 0 {
        if last >= chars.len() {
            assert(joined(parts, texts) =~= chars.subrange(last as int, len));
        } else {
            assert(joined(parts, texts) =~= chars.subrange(last as int, len));
        }
    } else {
        let s = start_of(matches[0]) as int;
        let e = end_of(matches[0]) as int;
        let rest = matches.drop_first();
        lemma_joined(chars, rest, e as nat);
        assert(parts.drop_first() =~= pieces(chars, rest, e as nat));
        assert(texts.drop_first() =~= match_texts(chars, rest));
        assert(parts[0] == chars.subrange(last as int, s));
        assert(texts[0] == chars.subrange(s, e));
        assert(chars.subrange(last as int, s) + chars.subrange(s, e) + chars.subrange(e, len)
            =~= chars.subrange(last as int, len));
    }
}

/// The pieces that `split` yields, joined by the texts of the matches in
/// order, are the text.
pub proof fn law_split_rebuilds(code: Seq<InstSpec>, chars: Seq<char>)
    ensures
        joined(split_spec(code, chars), match_texts(chars, all_matches(code, chars))) == chars,
{
    lemma_matches_chained(code, chars, 0, None);
    lemma_joined(chars, all_matches(code, chars), 0);
    assert(chars.subrange(0, chars.len() as int) =~= chars);
}

/// Replacing every match by its own text gives the text back from where
/// the replacing starts.
pub proof fn lemma_woven_same(chars: Seq<char>, matches: Seq<Spans>, last: nat)
    requires
        last <= chars.len(),
        chained(matches, last, chars.len()),
    ensures
        woven(chars, matches, last, match_texts(chars, matches)) == chars.subrange(
            last as int,
            chars.len() as int,
        ),
    decreases matches.len(),
{
    let texts = match_texts(chars, matches);
    let len = chars.len() as int;
    if matches.len() > 0 {
        let s = start_of(matches[0]) as int;
        let e = end_of(matches[0]) as int;
        let rest = matches.drop_first();
        lemma_woven_same(chars, rest, e as nat);
        assert(texts.drop_first() =~= match_texts(chars, rest));
        assert(texts[0] == chars.subrange(s, e));
        assert(chars.subrange(last as int, s) + chars.subrange(s, e) + chars.subrange(e, len)
            =~= chars.subrange(last as int, len));
    }
}

/// `replace_all` with a literal replacement leaves a text as it is if every
/// match in the text has the replacement as its text.
pub proof fn law_replace_by_same(
    code: Seq<InstSpec>,
    table: Seq<Option<Seq<char>>>,
    chars: Seq<char>,
    rep: NoExpand,
)
    requires
        forall|i: int|
            0 <= i < all_matches(code, chars).len() ==> #[trigger] match_texts(
                chars,
                all_matches(code, chars),
            )[i] == rep.0@,
    ensures
        replacen_spec(&rep, code, table, chars, 0) == chars,
{
    let ms = all_matches(code, chars);
    lemma_matches_chained(code, chars, 0, None);
    lemma_woven_same(chars, ms, 0);
    assert(replacements(&rep, chars, table, ms) =~= match_texts(chars, ms));
    assert(chars.subrange(0, chars.len() as int) =~= chars);
}

/// The program of the empty expression.
pub open spec fn empty_program() -> Seq<InstSpec> {
    program_code(AstSpec::Nothing)
}

/// The spans of an empty match at position `k`.
pub open spec fn point(k: nat) -> Spans {
    seq![Some((k, k))]
}

/// The empty expression matches the empty text at the start of every input.
pub proof fn lemma_empty_program_runs(input: Seq<char>)
    ensures
        run_spec(empty_program(), input, true) == point(0),
{
    let code = empty_program();
    assert(code =~= seq![InstSpec::Save(0), InstSpec::Save(1), InstSpec::Match]);
    assert(groups_of(code) == 1) by {
        reveal_with_fuel(slots_used, 4);
    }
    let fresh = fresh_slots(code);
    assert(fresh =~= seq![None::<nat>, None::<nat>]);
    let blank = no_threads(3);
    assert(blank.seen =~= seq![false, false, false]);
    let t0 = ThreadSpec { pc: 0, slots: fresh };
    let t1 = ThreadSpec { pc: 1, slots: seq![Some(0nat), None::<nat>] };
    let t2 = ThreadSpec { pc: 2, slots: seq![Some(0nat), Some(0nat)] };
    let th1 = ThreadsSpec { seen: seq![true, false, false], list: Seq::empty() };
    let th2 = ThreadsSpec { seen: seq![true, true, false], list: Seq::empty() };
    let th3 = ThreadsSpec { seen: seq![true, true, true], list: seq![t2] };
    assert(follow(code, input, 0, th3, Seq::empty()) == th3);
    assert(follow(code, input, 0, th2, seq![t2]) == th3) by {
        assert(seq![t2].drop_last() =~= Seq::<ThreadSpec>::empty());
        assert(th2.seen.update(2, true) =~= th3.seen);
        assert(th2.list.push(t2) =~= th3.list);
    }
    assert(follow(code, input, 0, th1, seq![t1]) == th3) by {
        assert(seq![t1].drop_last() =~= Seq::<ThreadSpec>::empty());
        assert(th1.seen.update(1, true) =~= th2.seen);
        assert(t1.slots.update(1, Some(0nat)) =~= t2.slots);
        assert(Seq::<ThreadSpec>::empty().push(t2) =~= seq![t2]);
    }
    assert(follow(code, input, 0, blank, seq![t0]) == th3) by {
        assert(seq![t0].drop_last() =~= Seq::<ThreadSpec>::empty());
        assert(blank.seen.update(0, true) =~= th1.seen);
        assert(fresh.update(0, Some(0nat)) =~= t1.slots);
        assert(Seq::<ThreadSpec>::empty().push(t1) =~= seq![t1]);
    }
    let out = step(code, input, 0, th3.list, 0, blank);
    assert(out == StepSpec { next: blank, matched: Some(t2.slots) });
    let found = simulate(code, input, 0, blank, None);
    if 0 < input.len() {
        assert(simulate(code, input, 1, blank, Some(t2.slots)) == Some(t2.slots));
    }
    assert(found == Some(t2.slots));
    assert(span_of(t2.slots, 0) == Some((0nat, 0nat)));
    assert(spans_of(code, found) =~= point(0));
}

/// A search with the empty expression finds the empty match at the
/// position where it starts.
pub proof fn lemma_empty_program_search(chars: Seq<char>, k: nat)
    requires
        k <= chars.len(),
    ensures
        search_from(empty_program(), chars, k) == point(k),
{
    lemma_empty_program_runs(chars.subrange(k as int, chars.len() as int));
    assert(shifted(point(0), k) =~= point(k));
}

/// The empty matches at the positions from `k` up to `len`.
pub open spec fn points(k: nat, len: nat) -> Seq<Spans> {
    Seq::new((len + 1 - k) as nat, |i: int| point((k + i) as nat))
}

/// Behind an empty match at `k`, the empty expression matches at every
/// later position up to the end of the text.
pub proof fn lemma_empty_program_rest(chars: Seq<char>, k: nat)
    requires
        k <= chars.len(),
    ensures
        matches_from(empty_program(), chars, k, Some(k)) == points(k + 1, chars.len()),
    decreases chars.len() - k,
{
    let code = empty_program();
    lemma_empty_program_search(chars, k);
    if k < chars.len() {
        lemma_empty_program_search(chars, k + 1);
        assert(next_spans(code, chars, k + 1, Some(k)) == Some(point(k + 1)));
        assert(next_spans(code, chars, k, Some(k)) == Some(point(k + 1)));
        lemma_empty_program_rest(chars, k + 1);
        assert(matches_from(code, chars, k, Some(k)) =~= seq![point(k + 1)] + points(
            k + 2,
            chars.len(),
        ));
        assert(seq![point(k + 1)] + points(k + 2, chars.len()) =~= points(k + 1, chars.len()));
    } else {
        assert(next_spans(code, chars, k + 1, Some(k)) is None);
        assert(next_spans(code, chars, k, Some(k)) is None);
        assert(matches_from(code, chars, k, Some(k)) =~= points(k + 1, chars.len()));
    }
}

/// The empty expression matches the empty text at every position: its
/// matches in a text of `n` characters are the empty matches at the
/// positions from 0 up to `n`, in this order.
pub proof fn law_empty_matches_everywhere(chars: Seq<char>)
    ensures
        all_matches(empty_program(), chars) == points(0, chars.len()),
{
    let code = empty_program();
    lemma_empty_program_search(chars, 0);
    assert(next_spans(code, chars, 0, None) == Some(point(0)));
    lemma_empty_program_rest(chars, 0);
    assert(all_matches(code, chars) =~= seq![point(0)] + points(1, chars.len()));
    assert(seq![point(0)] + points(1, chars.len()) =~= points(0, chars.len()));
}

/// The empty source text means the empty expression.
pub proof fn law_empty_source()
    ensures
        parse_spec(Seq::empty()) == Ok::<AstSpec, crate::grammar::Failure>(AstSpec::Nothing),
{
    let start = Cursor { pos: 0, flags: no_flags(), ncap: 0 };
    assert(sequence(Seq::empty(), start, Seq::empty()) == Ok::<
        (AstSpec, Cursor),
        crate::grammar::Failure,
    >((AstSpec::Nothing, start)));
}

/// A span in character positions that lies in the text is, in byte offsets,
/// ordered, within the encoded text and on character boundaries.
pub proof fn lemma_byte_span_in_text(chars: Seq<char>, s: nat, e: nat)
    requires
        s <= e <= chars.len(),
    ensures
        byte_offset(chars, s as int) <= byte_offset(chars, e as int) <= encode_utf8(chars).len(),
        is_char_boundary(encode_utf8(chars), byte_offset(chars, s as int) as int),
        is_char_boundary(encode_utf8(chars), byte_offset(chars, e as int) as int),
{
    lemma_byte_offset_ordered(chars, s as int, e as int);
    law_offsets_are_boundaries(chars, s as int);
    law_offsets_are_boundaries(chars, e as int);
}

/// Every span that a search reports is, in byte offsets of the text,
/// ordered, within the text and on character boundaries: what `find`
/// returns and what the groups that `captures` returns hold.
pub proof fn law_spans_in_text(code: Seq<InstSpec>, chars: Seq<char>, captures: bool, g: int)
    requires
        0 <= g < run_spec(code, chars, captures).len(),
        run_spec(code, chars, captures)[g] is Some,
    ensures
        ({
            let span = byte_span(run_spec(code, chars, captures)[g], chars)->0;
            &&& span.0 <= span.1 <= encode_utf8(chars).len()
            &&& is_char_boundary(encode_utf8(chars), span.0 as int)
            &&& is_char_boundary(encode_utf8(chars), span.1 as int)
        }),
{
    lemma_run_within(code, chars, captures);
    let span = run_spec(code, chars, captures)[g]->0;
    lemma_byte_span_in_text(chars, span.0, span.1);
}

/// The same of every span of every match that an iteration over the
/// matches of a text yields.
pub proof fn law_iterated_spans_in_text(code: Seq<InstSpec>, chars: Seq<char>, i: int, g: int)
    requires
        0 <= i < all_matches(code, chars).len(),
        0 <= g < all_matches(code, chars)[i].len(),
        all_matches(code, chars)[i][g] is Some,
    ensures
        ({
            let span = byte_span(all_matches(code, chars)[i][g], chars)->0;
            &&& span.0 <= span.1 <= encode_utf8(chars).len()
            &&& is_char_boundary(encode_utf8(chars), span.0 as int)
            &&& is_char_boundary(encode_utf8(chars), span.1 as int)
        }),
{
    let ms = all_matches(code, chars);
    lemma_match_between(code, chars, 0, None, i);
    let span = ms[i][g]->0;
    lemma_byte_span_in_text(chars, span.0, span.1);
}

/// The spans of every match from a position on lie between that position
/// and the end of the text.
pub proof fn lemma_match_between(
    code: Seq<InstSpec>,
    chars: Seq<char>,
    last_end: nat,
    last_match: Option<nat>,
    j: int,
)
    requires
        0 <= j < matches_from(code, chars, last_end, last_match).len(),
    ensures
        crate::search::spans_between(
            matches_from(code, chars, last_end, last_match)[j],
            last_end,
            chars.len(),
        ),
    decreases j,
{
    let ms = matches_from(code, chars, last_end, last_match);
    let first = next_spans(code, chars, last_end, last_match)->0;
    let rest = matches_from(code, chars, end_of(first), Some(end_of(first)));
    lemma_next_spans(code, chars, last_end, last_match);
    assert(ms =~= seq![first] + rest);
    if j > 0 {
        lemma_match_between(code, chars, end_of(first), Some(end_of(first)), j - 1);
        assert(ms[j] == rest[j - 1]);
    }
}

/// With the program of an expression that the grammar accepts, group 0 is
/// the whole match: whenever a group has a span, group 0 has one, and the
/// span of the group lies inside that of group 0.
pub proof fn law_group_zero_is_outermost(source: Seq<char>, chars: Seq<char>, g: int)
    requires
        parse_spec(source) is Ok,
        0 <= g < run_spec(program_code(parse_spec(source)->Ok_0), chars, true).len(),
        run_spec(program_code(parse_spec(source)->Ok_0), chars, true)[g] is Some,
    ensures
        ({
            let spans = run_spec(program_code(parse_spec(source)->Ok_0), chars, true);
            &&& has_match(spans)
            &&& (spans[0]->0).0 <= (spans[g]->0).0
            &&& (spans[g]->0).0 <= (spans[g]->0).1
            &&& (spans[g]->0).1 <= (spans[0]->0).1
            &&& (spans[0]->0).1 <= chars.len()
        }),
{
    let code = program_code(parse_spec(source)->Ok_0);
    law_parsed_groups_positive(source);
    law_groups_inside_match(code, chars);
    lemma_run_within(code, chars, true);
}

/// Every match from a position on is what a search from some position of
/// the text reports.
pub proof fn lemma_match_is_search(
    code: Seq<InstSpec>,
    chars: Seq<char>,
    last_end: nat,
    last_match: Option<nat>,
    j: int,
) -> (from: nat)
    requires
        0 <= j < matches_from(code, chars, last_end, last_match).len(),
    ensures
        from <= chars.len(),
        matches_from(code, chars, last_end, last_match)[j] == search_from(code, chars, from),
    decreases j,
{
    let ms = matches_from(code, chars, last_end, last_match);
    let first = next_spans(code, chars, last_end, last_match)->0;
    let rest = matches_from(code, chars, end_of(first), Some(end_of(first)));
    assert(ms =~= seq![first] + rest);
    if j > 0 {
        assert(ms[j] == rest[j - 1]);
        lemma_match_is_search(code, chars, end_of(first), Some(end_of(first)), j - 1)
    } else {
        lemma_next_is_search(code, chars, last_end, last_match)
    }
}

/// The next match from a position on is what a search from some position of
/// the text reports.
pub proof fn lemma_next_is_search(
    code: Seq<InstSpec>,
    chars: Seq<char>,
    last_end: nat,
    last_match: Option<nat>,
) -> (from: nat)
    requires
        next_spans(code, chars, last_end, last_match) is Some,
    ensures
        from <= chars.len(),
        next_spans(code, chars, last_end, last_match)->0 == search_from(code, chars, from),
    decreases chars.len() + 1 - last_end,
{
    let spans = search_from(code, chars, last_end);
    if start_of(spans) == end_of(spans) && last_match == Some(end_of(spans)) {
        lemma_next_is_search(code, chars, last_end + 1, last_match)
    } else {
        last_end
    }
}

/// In every match that an iteration over the matches of a text yields with
/// the program of an expression that the grammar accepts, group 0 is the
/// whole match and every group that has a span lies inside it.
pub proof fn law_iterated_group_zero_is_outermost(
    source: Seq<char>,
    chars: Seq<char>,
    i: int,
    g: int,
)
    requires
        parse_spec(source) is Ok,
        0 <= i < all_matches(program_code(parse_spec(source)->Ok_0), chars).len(),
        0 <= g < all_matches(program_code(parse_spec(source)->Ok_0), chars)[i].len(),
        all_matches(program_code(parse_spec(source)->Ok_0), chars)[i][g] is Some,
    ensures
        ({
            let spans = all_matches(program_code(parse_spec(source)->Ok_0), chars)[i];
            &&& has_match(spans)
            &&& (spans[0]->0).0 <= (spans[g]->0).0
            &&& (spans[g]->0).0 <= (spans[g]->0).1
            &&& (spans[g]->0).1 <= (spans[0]->0).1
            &&& (spans[0]->0).1 <= chars.len()
        }),
{
    let code = program_code(parse_spec(source)->Ok_0);
    let spans = all_matches(code, chars)[i];
    let from = lemma_match_is_search(code, chars, 0, None, i);
    let rest = chars.subrange(from as int, chars.len() as int);
    let found = run_spec(code, rest, true);
    assert(spans == shifted(found, from));
    assert(found[g] is Some);
    law_group_zero_is_outermost(source, rest, g);
    assert(spans[0] == crate::search::shift_span(found[0], from));
}

} // verus!
