//! Replacing the matches of an expression in a text.

use vstd::prelude::*;
use vstd::string::{StrSliceExecFns, StringExecFns};
use crate::regexp::{Captures, Regexp};
use crate::search::{
    Spans,
    all_matches,
    chained,
    end_of,
    has_match,
    lemma_matches_chained,
    limited,
    start_of,
    woven,
};
use crate::vm::run_spec;

verus! {

/// A value that says what a match is replaced with.
pub trait Replacer {
    /// The replacement for a match, given the text that was searched, the
    /// spans of the groups in character positions and the table of group
    /// names.
    spec fn replacement(
        &self,
        text: Seq<char>,
        spans: Spans,
        table: Seq<Option<Seq<char>>>,
    ) -> Seq<char>;

    /// Computes the replacement for the groups of a match.
    fn replace(&self, caps: &Captures) -> (r: String)
        requires
            caps.wf(),
        ensures
            r@ == self.replacement(caps.text(), caps.spans(), caps.table()),
    ;
}

/// A replacement that is taken as it is: references to groups in it are not
/// expanded.
pub struct NoExpand<'r>(pub &'r str);

impl<'r> Replacer for NoExpand<'r> {
    open spec fn replacement(
        &self,
        text: Seq<char>,
        spans: Spans,
        table: Seq<Option<Seq<char>>>,
    ) -> Seq<char> {
        self.0@
    }

    fn replace(&self, caps: &Captures) -> (r: String) {
        self.0.to_owned()
    }
}

/// The replacements for the given matches, in order.
pub open spec fn replacements<R: Replacer>(
    rep: &R,
    chars: Seq<char>,
    table: Seq<Option<Seq<char>>>,
    matches: Seq<Spans>,
) -> Seq<Seq<char>> {
    Seq::new(matches.len(), |i: int| rep.replacement(chars, matches[i], table))
}

/// The text in which the first `limit` matches, or with `limit` zero all
/// matches, are replaced.
pub open spec fn replacen_spec<R: Replacer>(
    rep: &R,
    code: Seq<crate::compile::InstSpec>,
    table: Seq<Option<Seq<char>>>,
    chars: Seq<char>,
    limit: nat,
) -> Seq<char> {
    let matches = limited(all_matches(code, chars), limit);
    woven(chars, matches, 0, replacements(rep, chars, table, matches))
}

/// The mathematical values of a list of texts.
pub open spec fn texts_view(texts: Seq<String>) -> Seq<Seq<char>> {
    Seq::new(texts.len(), |i: int| texts[i]@)
}

/// The text in which the leftmost match is replaced; the text itself if
/// nothing matches.
pub open spec fn replace_spec<R: Replacer>(
    rep: &R,
    code: Seq<crate::compile::InstSpec>,
    table: Seq<Option<Seq<char>>>,
    chars: Seq<char>,
) -> Seq<char> {
    let spans = run_spec(code, chars, true);
    if has_match(spans) {
        chars.subrange(0, start_of(spans) as int) + rep.replacement(chars, spans, table)
            + chars.subrange(end_of(spans) as int, chars.len() as int)
    } else {
        chars
    }
}

impl Regexp {
    /// Replaces the leftmost match by what the replacer gives for it. A text
    /// without a match is returned as it is.
    pub fn replace<R: Replacer>(&self, text: &str, rep: R) -> (r: String)
        ensures
            r@ == replace_spec(&rep, self.code(), self.table(), text@),
    {
        let caps = match self.captures(text) {
            None => {
                return text.to_owned();
            },
            Some(caps) => caps,
        };
        proof {
            caps.lemma_spans_between();
        }
        let (s, e) = match caps.pos_chars(0) {
            None => {
                return text.to_owned();
            },
            Some(span) => span,
        };
        let len = text.unicode_len();
        let mut new = String::new();
        new.append(text.substring_char(0, s));
        let sub = rep.replace(&caps);
        new.append(sub.as_str());
        new.append(text.substring_char(e, len));
        new
    }

    /// Replaces at most `limit` matches that do not overlap by what the
    /// replacer gives for them; with `limit` zero, all of them.
    pub fn replacen<R: Replacer>(&self, text: &str, limit: usize, rep: R) -> (r: String)
        ensures
            r@ == replacen_spec(&rep, self.code(), self.table(), text@, limit as nat),
    {
        let ghost chars = text@;
        let ghost all = all_matches(self.code(), chars);
        let ghost taken = limited(all, limit as nat);
        let ghost subs = replacements(&rep, chars, self.table(), taken);
        let ghost goal = woven(chars, taken, 0, subs);
        let len = text.unicode_len();
        let mut new = String::new();
        let mut last_match: usize = 0;
        let mut count: usize = 0;
        let ghost mut i: int = 0;
        let mut it = self.captures_iter(text);
        let mut done = false;
        proof {
            lemma_matches_chained(self.code(), chars, 0, None);
        }
        assert(taken.skip(0) =~= taken);
        assert(subs.skip(0) =~= subs);
        while !done
            invariant
                it.wf(),
                it.code() == self.code(),
                it.table() == self.table(),
                it.chars() == chars,
                chars == text@,
                len == chars.len(),
                all == all_matches(self.code(), chars),
                taken == limited(all, limit as nat),
                subs == replacements(&rep, chars, self.table(), taken),
                0 <= i <= taken.len(),
                limit > 0 ==> count == i && count <= limit,
                subs.len() == taken.len(),
                it.remaining() == all.skip(i),
                last_match <= len,
                chained(it.remaining(), last_match as nat, len as nat),
                !done ==> goal == new@ + woven(
                    chars,
                    taken.skip(i),
                    last_match as nat,
                    subs.skip(i),
                ),
                done ==> goal == new@ + chars.subrange(last_match as int, len as int),
            decreases it.remaining().len(), if done { 0nat } else { 1nat },
        {
            let ghost rest = it.remaining();
            if limit > 0 && count >= limit {
                assert(taken.skip(i).len() == 0);
                done = true;
            } else {
                match it.next() {
                    None => {
                        assert(taken.skip(i).len() == 0);
                        done = true;
                    },
                    Some(cap) => {
                        assert(rest[0] == all[i]);
                        assert(taken[i] == all[i]);
                        proof {
                            cap.lemma_spans_between();
                        }
                        let (s, e) = cap.pos_chars(0).unwrap();
                        new.append(text.substring_char(last_match, s));
                        let sub = rep.replace(&cap);
                        new.append(sub.as_str());
                        assert(taken.skip(i).drop_first() =~= taken.skip(i + 1));
                        assert(subs.skip(i).drop_first() =~= subs.skip(i + 1));
                        assert(subs.skip(i)[0] == sub@);
                        assert(it.remaining() =~= all.skip(i + 1));
                        last_match = e;
                        if limit > 0 {
                            count += 1;
                        }
                        proof {
                            i = i + 1;
                        }
                    },
                }
            }
        }
        new.append(text.substring_char(last_match, len));
        new
    }

    /// Replaces the matches that do not overlap by the given texts, the
    /// first match by the first text and so on, as far as the texts reach.
    pub fn replace_each(&self, text: &str, subs: &Vec<String>) -> (r: String)
        ensures
            r@ == woven(text@, all_matches(self.code(), text@), 0, texts_view(subs@)),
    {
        let ghost chars = text@;
        let ghost all = all_matches(self.code(), chars);
        let ghost given = texts_view(subs@);
        let ghost goal = woven(chars, all, 0, given);
        let len = text.unicode_len();
        let mut new = String::new();
        let mut last_match: usize = 0;
        let mut i: usize = 0;
        let mut it = self.find_iter(text);
        let mut done = false;
        proof {
            lemma_matches_chained(self.code(), chars, 0, None);
        }
        assert(all.skip(0) =~= all);
        assert(given.skip(0) =~= given);
        while !done
            invariant
                it.wf(),
                it.code() == self.code(),
                it.chars() == chars,
                chars == text@,
                len == chars.len(),
                all == all_matches(self.code(), chars),
                given == texts_view(subs@),
                i <= subs.len(),
                i <= all.len(),
                it.remaining() == all.skip(i as int),
                last_match <= len,
                chained(it.remaining(), last_match as nat, len as nat),
                !done ==> goal == new@ + woven(
                    chars,
                    all.skip(i as int),
                    last_match as nat,
                    given.skip(i as int),
                ),
                done ==> goal == new@ + chars.subrange(last_match as int, len as int),
            decreases it.remaining().len(), if done { 0nat } else { 1nat },
        {
            let ghost rest = it.remaining();
            if i >= subs.len() {
                assert(given.skip(i as int).len() == 0);
                done = true;
            } else {
                match it.next_chars() {
                    None => {
                        assert(all.skip(i as int).len() == 0);
                        done = true;
                    },
                    Some((s, e)) => {
                        assert(rest[0] == all[i as int]);
                        new.append(text.substring_char(last_match, s));
                        new.append(subs[i].as_str());
                        assert(all.skip(i as int).drop_first() =~= all.skip(i + 1));
                        assert(given.skip(i as int).drop_first() =~= given.skip(i + 1));
                        assert(given.skip(i as int)[0] == subs@[i as int]@);
                        assert(it.remaining() =~= all.skip(i + 1));
                        last_match = e;
                        i += 1;
                    },
                }
            }
        }
        new.append(text.substring_char(last_match, len));
        new
    }

    /// Replaces all matches that do not overlap by what the replacer gives
    /// for them.
    pub fn replace_all<R: Replacer>(&self, text: &str, rep: R) -> (r: String)
        ensures
            r@ == replacen_spec(&rep, self.code(), self.table(), text@, 0),
    {
        self.replacen(text, 0, rep)
    }
}

} // verus!
