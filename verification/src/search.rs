//! The mathematical description of searching a text: a single search from a
//! position, and the sequence of matches that do not overlap.

use vstd::prelude::*;
use crate::bounds::lemma_run_within;
use crate::compile::InstSpec;
use crate::vm::run_spec;

verus! {

/// The spans of the groups of one match, in character positions.
pub type Spans = Seq<Option<(nat, nat)>>;

/// A span moved to the right by `by` characters.
pub open spec fn shift_span(span: Option<(nat, nat)>, by: nat) -> Option<(nat, nat)> {
    match span {
        Some((s, e)) => Some((s + by, e + by)),
        None => None,
    }
}

/// Spans moved to the right by `by` characters.
pub open spec fn shifted(spans: Spans, by: nat) -> Spans {
    Seq::new(spans.len(), |g: int| shift_span(spans[g], by))
}

/// There is a match when group 0 has a span.
pub open spec fn has_match(spans: Spans) -> bool {
    spans.len() > 0 && spans[0] is Some
}

/// The spans that the machine reports for the text from character `start`
/// on, as positions in the whole text.
pub open spec fn search_from(code: Seq<InstSpec>, chars: Seq<char>, start: nat) -> Spans {
    shifted(run_spec(code, chars.subrange(start as int, chars.len() as int), true), start)
}

/// Every span is ordered and lies between `start` and `len`.
pub open spec fn spans_between(spans: Spans, start: nat, len: nat) -> bool {
    forall|g: int|
        0 <= g < spans.len() ==> (#[trigger] spans[g]) is Some ==> {
            let span = spans[g]->0;
            start <= span.0 <= span.1 <= len
        }
}

/// What a search from `start` reports lies between `start` and the end of
/// the text.
pub proof fn lemma_search_from_between(code: Seq<InstSpec>, chars: Seq<char>, start: nat)
    requires
        start <= chars.len(),
    ensures
        spans_between(search_from(code, chars, start), start, chars.len()),
{
    let rest = chars.subrange(start as int, chars.len() as int);
    lemma_run_within(code, rest, true);
    let found = run_spec(code, rest, true);
    let moved = search_from(code, chars, start);
    assert forall|g: int| 0 <= g < moved.len() && (#[trigger] moved[g]) is Some implies ({
        let span = moved[g]->0;
        start <= span.0 <= span.1 <= chars.len()
    }) by {
        assert(found[g] is Some);
    }
}

/// The end of the match that the spans describe.
pub open spec fn end_of(spans: Spans) -> nat {
    (spans[0]->0).1
}

/// The start of the match that the spans describe.
pub open spec fn start_of(spans: Spans) -> nat {
    (spans[0]->0).0
}

/// The next match at or after `last_end`, given the end of the match before
/// it. An empty match at the end of the match before it is passed over: the
/// search starts again one character further.
pub open spec fn next_spans(
    code: Seq<InstSpec>,
    chars: Seq<char>,
    last_end: nat,
    last_match: Option<nat>,
) -> Option<Spans>
    decreases chars.len() + 1 - last_end,
{
    if last_end > chars.len() {
        None
    } else {
        let spans = search_from(code, chars, last_end);
        if !has_match(spans) {
            None
        } else if start_of(spans) == end_of(spans) && last_match == Some(end_of(spans)) {
            next_spans(code, chars, last_end + 1, last_match)
        } else {
            Some(spans)
        }
    }
}

/// The next match lies between `last_end` and the end of the text, and it is
/// not an empty match at the end of the match before it.
pub proof fn lemma_next_spans(
    code: Seq<InstSpec>,
    chars: Seq<char>,
    last_end: nat,
    last_match: Option<nat>,
)
    ensures
        next_spans(code, chars, last_end, last_match) is Some ==> {
            let spans = next_spans(code, chars, last_end, last_match)->0;
            &&& has_match(spans)
            &&& spans_between(spans, last_end, chars.len())
            &&& !(start_of(spans) == end_of(spans) && last_match == Some(end_of(spans)))
        },
    decreases chars.len() + 1 - last_end,
{
    if last_end <= chars.len() {
        let spans = search_from(code, chars, last_end);
        lemma_search_from_between(code, chars, last_end);
        if has_match(spans) && start_of(spans) == end_of(spans) && last_match == Some(
            end_of(spans),
        ) {
            lemma_next_spans(code, chars, last_end + 1, last_match);
            let later = next_spans(code, chars, last_end + 1, last_match);
            if later is Some {
                assert(spans_between(later->0, last_end, chars.len()));
            }
        }
    }
}

/// How far the iteration is from its end: the characters left, and one more
/// while the position is not the end of the match before it.
pub open spec fn distance(len: nat, last_end: nat, last_match: Option<nat>) -> nat {
    if last_end > len {
        0
    } else {
        (2 * (len - last_end) + if last_match == Some(last_end) {
            1nat
        } else {
            2nat
        }) as nat
    }
}

/// All matches that do not overlap, from `last_end` on.
pub open spec fn matches_from(
    code: Seq<InstSpec>,
    chars: Seq<char>,
    last_end: nat,
    last_match: Option<nat>,
) -> Seq<Spans>
    decreases distance(chars.len(), last_end, last_match),
{
    match next_spans(code, chars, last_end, last_match) {
        None => Seq::empty(),
        Some(spans) => {
            proof {
                lemma_next_spans(code, chars, last_end, last_match);
            }
            seq![spans] + matches_from(code, chars, end_of(spans), Some(end_of(spans)))
        },
    }
}

/// All matches of a text that do not overlap.
pub open spec fn all_matches(code: Seq<InstSpec>, chars: Seq<char>) -> Seq<Spans> {
    matches_from(code, chars, 0, None)
}

/// The texts between the given matches, from `last` on: one before each
/// match, and the rest of the text behind the last match unless it is empty.
pub open spec fn pieces(chars: Seq<char>, matches: Seq<Spans>, last: nat) -> Seq<Seq<char>>
    decreases matches.len(),
{
    if matches.len() == 0 {
        if last >= chars.len() {
            Seq::empty()
        } else {
            seq![chars.subrange(last as int, chars.len() as int)]
        }
    } else {
        seq![chars.subrange(last as int, start_of(matches[0]) as int)] + pieces(
            chars,
            matches.drop_first(),
            end_of(matches[0]),
        )
    }
}

/// The texts into which the matches of an expression split a text.
pub open spec fn split_spec(code: Seq<InstSpec>, chars: Seq<char>) -> Seq<Seq<char>> {
    pieces(chars, all_matches(code, chars), 0)
}

/// The text from `last` on in which every given match is replaced by the
/// text that stands for it in `subs`.
pub open spec fn woven(chars: Seq<char>, matches: Seq<Spans>, last: nat, subs: Seq<Seq<char>>) -> Seq<
    char,
>
    decreases matches.len(),
{
    if matches.len() == 0 || subs.len() == 0 {
        chars.subrange(last as int, chars.len() as int)
    } else {
        chars.subrange(last as int, start_of(matches[0]) as int) + subs[0] + woven(
            chars,
            matches.drop_first(),
            end_of(matches[0]),
            subs.drop_first(),
        )
    }
}

/// The first `limit` of the matches, or all of them if `limit` is zero.
pub open spec fn limited(matches: Seq<Spans>, limit: nat) -> Seq<Spans> {
    if limit == 0 || limit >= matches.len() {
        matches
    } else {
        matches.take(limit as int)
    }
}

/// The matches follow one another without overlap: each starts no earlier
/// than `last`, the end of the one before it, and ends within the text.
pub open spec fn chained(matches: Seq<Spans>, last: nat, len: nat) -> bool
    decreases matches.len(),
{
    matches.len() > 0 ==> {
        &&& has_match(matches[0])
        &&& last <= start_of(matches[0]) <= end_of(matches[0]) <= len
        &&& chained(matches.drop_first(), end_of(matches[0]), len)
    }
}

/// The matches from a position on follow one another without overlap.
pub proof fn lemma_matches_chained(
    code: Seq<InstSpec>,
    chars: Seq<char>,
    last_end: nat,
    last_match: Option<nat>,
)
    ensures
        chained(matches_from(code, chars, last_end, last_match), last_end, chars.len()),
    decreases distance(chars.len(), last_end, last_match),
{
    match next_spans(code, chars, last_end, last_match) {
        None => {},
        Some(spans) => {
            lemma_next_spans(code, chars, last_end, last_match);
            let rest = matches_from(code, chars, end_of(spans), Some(end_of(spans)));
            lemma_matches_chained(code, chars, end_of(spans), Some(end_of(spans)));
            let all = matches_from(code, chars, last_end, last_match);
            assert(all.drop_first() =~= rest);
            assert(all[0] == spans);
        },
    }
}

} // verus!
