//! Compiled expressions and the functions that search, split and replace
//! with them.

use vstd::prelude::*;
use vstd::slice::slice_subrange;
use vstd::string::StrSliceExecFns;
use crate::bounds::lemma_run_within;
use crate::compile::{
    DynamicProgram,
    Inst,
    InstSpec,
    insts_view,
    names_of,
    names_view,
    program_code,
};
use crate::grammar::parse_spec;
use crate::parse::{fault_text, parse};
use crate::{Error, ErrorKind};
use crate::search::{
    Spans,
    has_match,
    lemma_next_spans,
    matches_from,
    next_spans,
    pieces,
    shifted,
    spans_between,
};
use crate::text::{byte_offset, char_to_byte_indices, is_offset_table, to_chars};
use crate::vm::{run, run_spec, span_view, spans_view};

pub use crate::expand::expand;
pub use crate::replace::{NoExpand, Replacer};

verus! {

/// A span in character positions as a span in byte offsets of the text.
pub open spec fn byte_span(span: Option<(nat, nat)>, chars: Seq<char>) -> Option<(nat, nat)> {
    match span {
        Some((s, e)) => Some((byte_offset(chars, s as int), byte_offset(chars, e as int))),
        None => None,
    }
}

/// Spans in character positions as spans in byte offsets of the text.
pub open spec fn byte_spans(spans: Spans, chars: Seq<char>) -> Spans {
    Seq::new(spans.len(), |g: int| byte_span(spans[g], chars))
}

/// Replaces every position of every span by the entry of the table at that
/// position.
pub fn cap_to_byte_indices(cis: Vec<Option<(usize, usize)>>, bis: &[usize]) -> (r: Vec<
    Option<(usize, usize)>,
>)
    requires
        forall|g: int|
            0 <= g < cis@.len() ==> (#[trigger] cis@[g]) is Some ==> {
                let span = cis@[g]->0;
                span.0 < bis@.len() && span.1 < bis@.len()
            },
    ensures
        r@.len() == cis@.len(),
        forall|g: int|
            0 <= g < cis@.len() ==> #[trigger] r@[g] == match cis@[g] {
                Some((s, e)) => Some((bis@[s as int], bis@[e as int])),
                None => None,
            },
{
    let mut cis = cis;
    let ghost given = cis@;
    let mut g: usize = 0;
    while g < cis.len()
        invariant
            g <= cis.len(),
            cis@.len() == given.len(),
            forall|k: int| g <= k < given.len() ==> cis@[k] == given[k],
            forall|k: int|
                0 <= k < given.len() ==> (#[trigger] given[k]) is Some ==> {
                    let span = given[k]->0;
                    span.0 < bis@.len() && span.1 < bis@.len()
                },
            forall|k: int|
                0 <= k < g ==> #[trigger] cis@[k] == match given[k] {
                    Some((s, e)) => Some((bis@[s as int], bis@[e as int])),
                    None => None,
                },
        decreases cis.len() - g,
    {
        assert(given[g as int] == cis@[g as int]);
        match cis[g] {
            Some((s, e)) => {
                cis[g] = Some((bis[s], bis[e]));
            },
            None => {},
        }
        g += 1;
    }
    cis
}

/// A text prepared for searching: its characters and the byte offset of
/// each of them.
pub struct SearchText<'r> {
    text: &'r str,
    chars: Vec<char>,
    bytei: Vec<usize>,
    caps: bool,
}

impl<'r> SearchText<'r> {
    /// The characters of the text.
    pub closed spec fn chars(&self) -> Seq<char> {
        self.text@
    }

    /// Whether searches report all groups.
    pub closed spec fn wants_captures(&self) -> bool {
        self.caps
    }

    /// The character list and the table of offsets belong to the text.
    pub closed spec fn wf(&self) -> bool {
        &&& self.chars@ == self.text@
        &&& is_offset_table(self.bytei@, self.text@)
    }

    /// Prepares a text for searching.
    pub fn from_str(input: &'r str, caps: bool) -> (r: SearchText<'r>)
        ensures
            r.wf(),
            r.chars() == input@,
            r.wants_captures() == caps,
    {
        let chars = to_chars(input);
        let bytei = char_to_byte_indices(input);
        SearchText { text: input, chars, bytei, caps }
    }

    /// The number of characters of the text.
    pub fn char_len(&self) -> (n: usize)
        requires
            self.wf(),
        ensures
            n == self.chars().len(),
    {
        self.chars.len()
    }

    /// Runs the program over the whole text and reports the spans in byte
    /// offsets.
    pub fn exec(&self, re: &Regexp) -> (r: Vec<Option<(usize, usize)>>)
        requires
            self.wf(),
        ensures
            spans_view(r@) == byte_spans(
                run_spec(re.code(), self.chars(), self.wants_captures()),
                self.chars(),
            ),
    {
        let caps = run(re.prog.as_slice(), self.chars.as_slice(), self.caps);
        proof {
            lemma_run_within(re.code(), self.chars(), self.caps);
            assert forall|g: int| 0 <= g < caps@.len() && (#[trigger] caps@[g]) is Some implies ({
                let span = caps@[g]->0;
                span.0 < self.bytei@.len() && span.1 < self.bytei@.len()
            }) by {
                assert(spans_view(caps@)[g] is Some);
            }
        }
        let ghost found = caps@;
        let r = cap_to_byte_indices(caps, self.bytei.as_slice());
        proof {
            let want = byte_spans(run_spec(re.code(), self.chars(), self.caps), self.chars());
            assert(spans_view(r@).len() == want.len());
            assert forall|g: int| 0 <= g < want.len() implies spans_view(r@)[g] == want[g] by {
                assert(spans_view(found)[g] == span_view(found[g]));
            }
            assert(spans_view(r@) =~= want);
        }
        r
    }

    /// Runs the program over the characters from `us` up to `ue` and reports
    /// the spans in character positions of the whole text.
    pub fn exec_slice(&self, re: &Regexp, us: usize, ue: usize) -> (r: Vec<Option<(usize, usize)>>)
        requires
            self.wf(),
            us <= ue <= self.chars().len(),
        ensures
            spans_view(r@) == shifted(
                run_spec(
                    re.code(),
                    self.chars().subrange(us as int, ue as int),
                    self.wants_captures(),
                ),
                us as nat,
            ),
    {
        let chars = slice_subrange(self.chars.as_slice(), us, ue);
        let caps = run(re.prog.as_slice(), chars, self.caps);
        let ghost found = run_spec(re.code(), chars@, self.caps);
        proof {
            lemma_run_within(re.code(), chars@, self.caps);
        }
        let mut r: Vec<Option<(usize, usize)>> = Vec::with_capacity(caps.len());
        let mut g: usize = 0;
        while g < caps.len()
            invariant
                g <= caps.len(),
                us + chars@.len() == ue,
                spans_view(caps@) == found,
                spans_between(found, 0, chars@.len()),
                r@.len() == g,
                spans_view(r@) == shifted(found, us as nat).take(g as int),
            decreases caps.len() - g,
        {
            assert(found[g as int] == span_view(caps@[g as int]));
            let moved = match caps[g] {
                Some((s, e)) => Some((us + s, us + e)),
                None => None,
            };
            r.push(moved);
            assert(spans_view(r@) =~= shifted(found, us as nat).take(g + 1));
            g += 1;
        }
        assert(shifted(found, us as nat).take(caps@.len() as int) =~= shifted(found, us as nat));
        r
    }
}

/// The mathematical value of an optional position.
pub open spec fn position_view(p: Option<usize>) -> Option<nat> {
    match p {
        Some(p) => Some(p as nat),
        None => None,
    }
}

impl<'r> SearchText<'r> {
    /// The byte offset of the `k`-th character.
    pub fn byte_at(&self, k: usize) -> (b: usize)
        requires
            self.wf(),
            k <= self.chars().len(),
        ensures
            b == byte_offset(self.chars(), k as int),
    {
        self.bytei[k]
    }

    /// Finds the next match at or after `last_end`, in character positions,
    /// passing over an empty match at the end of the match before it.
    pub fn next_match(&self, re: &Regexp, last_end: usize, last_match: Option<usize>) -> (r: Option<
        Vec<Option<(usize, usize)>>,
    >)
        requires
            self.wf(),
            self.wants_captures(),
        ensures
            match next_spans(re.code(), self.chars(), last_end as nat, position_view(last_match)) {
                Some(spans) => r is Some && spans_view(r->0@) == spans,
                None => r is None,
            },
    {
        let ghost goal = next_spans(
            re.code(),
            self.chars(),
            last_end as nat,
            position_view(last_match),
        );
        let len = self.chars.len();
        let mut from = last_end;
        while from <= len
            invariant
                self.wf(),
                self.wants_captures(),
                len == self.chars().len(),
                goal == next_spans(
                    re.code(),
                    self.chars(),
                    last_end as nat,
                    position_view(last_match),
                ),
                goal == next_spans(re.code(), self.chars(), from as nat, position_view(last_match)),
            decreases len + 1 - from,
        {
            let found = self.exec_slice(re, from, len);
            if !re.has_match(&found) {
                return None;
            }
            let (us, ue) = found[0].unwrap();
            assert(spans_view(found@)[0] == span_view(found@[0]));
            let skip = us == ue && match last_match {
                Some(m) => m == ue,
                None => false,
            };
            if !skip {
                return Some(found);
            }
            assert(self.bytei.len() == len + 1);
            from += 1;
        }
        None
    }
}

/// A compiled expression.
#[derive(Debug)]
pub struct Regexp {
    orig: String,
    prog: Vec<Inst>,
    names: Vec<Option<String>>,
}

impl Regexp {
    /// The source text of the expression.
    pub closed spec fn source(&self) -> Seq<char> {
        self.orig@
    }

    /// The instructions of the expression.
    pub closed spec fn code(&self) -> Seq<InstSpec> {
        insts_view(self.prog@)
    }

    /// The table of group names.
    pub closed spec fn table(&self) -> Seq<Option<Seq<char>>> {
        names_view(self.names@)
    }
}

/// Whether the result of compiling is what the grammar and the compiler
/// give for the source text: the program of the tree that the text means,
/// or an error of kind `BadSyntax` with the position and the description of
/// the fault.
pub open spec fn compiled(r: Result<Regexp, Error>, s: Seq<char>) -> bool {
    match parse_spec(s) {
        Ok(tree) => {
            &&& r is Ok
            &&& r->Ok_0.source() == s
            &&& r->Ok_0.code() == program_code(tree)
            &&& r->Ok_0.table() == names_of(tree, Seq::empty())
        },
        Err(f) => {
            &&& r is Err
            &&& r->Err_0.pos == f.pos
            &&& r->Err_0.kind == ErrorKind::BadSyntax
            &&& r->Err_0.msg@ == fault_text(f.fault)
        },
    }
}

impl Regexp {
    /// Compiles an expression. The result can be used any number of times
    /// to search, split or replace.
    pub fn new(regex: &str) -> (r: Result<Regexp, Error>)
        ensures
            compiled(r, regex@),
    {
        let ast = match parse(regex) {
            Err(e) => {
                return Err(e);
            },
            Ok(ast) => ast,
        };
        let p = DynamicProgram::new(regex, Box::new(ast));
        Ok(Regexp { orig: p.regex, prog: p.insts, names: p.names })
    }

    /// Tells whether the spans describe a match.
    pub fn has_match(&self, caps: &Vec<Option<(usize, usize)>>) -> (r: bool)
        ensures
            r == has_match(spans_view(caps@)),
    {
        assert(caps@.len() > 0 ==> spans_view(caps@)[0] == span_view(caps@[0]));
        caps.len() > 0 && caps[0].is_some()
    }

    /// Runs the machine over the text and reports the spans of all groups in
    /// byte offsets.
    pub fn run(&self, text: &str) -> (r: Vec<Option<(usize, usize)>>)
        ensures
            spans_view(r@) == byte_spans(run_spec(self.code(), text@, true), text@),
    {
        let search = SearchText::from_str(text, true);
        search.exec(self)
    }

    /// Tells whether the expression matches somewhere in the text.
    pub fn is_match(&self, text: &str) -> (r: bool)
        ensures
            r == has_match(run_spec(self.code(), text@, false)),
    {
        let search = SearchText::from_str(text, false);
        let caps = search.exec(self);
        self.has_match(&caps)
    }

    /// The span of the leftmost match in byte offsets, if there is a match.
    pub fn find(&self, text: &str) -> (r: Option<(usize, usize)>)
        ensures
            span_view(r) == find_spec(self.code(), text@),
    {
        let caps = self.run(text);
        let ghost spans = run_spec(self.code(), text@, true);
        assert(spans_view(caps@).len() == caps@.len());
        assert(byte_spans(spans, text@).len() == spans.len());
        if caps.len() > 0 {
            assert(spans_view(caps@)[0] == span_view(caps@[0]));
            assert(byte_spans(spans, text@)[0] == byte_span(spans[0], text@));
            caps[0]
        } else {
            None
        }
    }
}

/// The span of group 0 of the leftmost match in byte offsets.
pub open spec fn find_spec(code: Seq<InstSpec>, chars: Seq<char>) -> Option<(nat, nat)> {
    let spans = run_spec(code, chars, true);
    if spans.len() > 0 {
        byte_span(spans[0], chars)
    } else {
        None
    }
}

/// An iteration over the matches of a text that do not overlap. Each step
/// yields the span of a match in byte offsets.
pub struct FindMatches<'r> {
    re: &'r Regexp,
    search: SearchText<'r>,
    last_match: Option<usize>,
    last_end: usize,
}

impl<'r> FindMatches<'r> {
    /// The text was prepared for a search that reports all groups.
    pub closed spec fn wf(&self) -> bool {
        self.search.wf() && self.search.wants_captures()
    }

    /// The instructions of the expression.
    pub closed spec fn code(&self) -> Seq<InstSpec> {
        self.re.code()
    }

    /// The characters of the text.
    pub closed spec fn chars(&self) -> Seq<char> {
        self.search.chars()
    }

    /// The matches that are still to come, in character positions.
    pub closed spec fn remaining(&self) -> Seq<Spans> {
        matches_from(
            self.re.code(),
            self.search.chars(),
            self.last_end as nat,
            position_view(self.last_match),
        )
    }

    /// The position at which the next search starts.
    pub closed spec fn position(&self) -> nat {
        self.last_end as nat
    }

    /// The end of the match that was yielded last, if one was.
    pub closed spec fn previous(&self) -> Option<nat> {
        position_view(self.last_match)
    }

    /// What is still to come are the matches from the position on.
    pub proof fn lemma_remaining(&self)
        ensures
            self.remaining() == matches_from(
                self.code(),
                self.chars(),
                self.position(),
                self.previous(),
            ),
    {
    }

    /// Yields the span of the next match in character positions, or `None`
    /// when no match is left.
    pub fn next_chars(&mut self) -> (r: Option<(usize, usize)>)
        requires
            old(self).wf(),
        ensures
            final(self).wf(),
            final(self).code() == old(self).code(),
            final(self).chars() == old(self).chars(),
            old(self).remaining().len() == 0 ==> r is None && final(self).remaining().len() == 0
                && final(self).position() == old(self).position(),
            old(self).remaining().len() > 0 ==> {
                &&& has_match(old(self).remaining()[0])
                &&& span_view(r) == old(self).remaining()[0][0]
                &&& r matches Some(span) && old(self).position() <= span.0 <= span.1 <= old(self).chars().len() && final(self).position() == span.1 && final(self).previous()
                    == Some(span.1 as nat)
                &&& final(self).remaining() == old(self).remaining().drop_first()
            },
    {
        let ghost before = self.remaining();
        let found = self.search.next_match(self.re, self.last_end, self.last_match);
        proof {
            lemma_next_spans(
                self.re.code(),
                self.search.chars(),
                self.last_end as nat,
                position_view(self.last_match),
            );
        }
        match found {
            None => None,
            Some(spans) => {
                assert(spans_view(spans@)[0] == span_view(spans@[0]));
                let (us, ue) = spans[0].unwrap();
                self.last_end = ue;
                self.last_match = Some(ue);
                assert(self.remaining() =~= before.drop_first());
                Some((us, ue))
            },
        }
    }

    /// Yields the span of the next match in byte offsets, or `None` when no
    /// match is left.
    pub fn next(&mut self) -> (r: Option<(usize, usize)>)
        requires
            old(self).wf(),
        ensures
            final(self).wf(),
            final(self).code() == old(self).code(),
            final(self).chars() == old(self).chars(),
            old(self).remaining().len() == 0 ==> r is None && final(self).remaining().len() == 0,
            old(self).remaining().len() > 0 ==> span_view(r) == byte_span(
                old(self).remaining()[0][0],
                old(self).chars(),
            ) && final(self).remaining() == old(self).remaining().drop_first(),
    {
        match self.next_chars() {
            None => None,
            Some((us, ue)) => Some((self.search.byte_at(us), self.search.byte_at(ue))),
        }
    }
}

impl Regexp {
    /// Starts an iteration over the matches of the text that do not overlap.
    pub fn find_iter<'r>(&'r self, text: &'r str) -> (r: FindMatches<'r>)
        ensures
            r.wf(),
            r.code() == self.code(),
            r.chars() == text@,
            r.remaining() == matches_from(self.code(), text@, 0, None),
            r.position() == 0,
            r.previous() == None::<nat>,
    {
        FindMatches {
            re: self,
            search: SearchText::from_str(text, true),
            last_match: None,
            last_end: 0,
        }
    }
}

/// The text of a span, or nothing for an absent span.
pub open spec fn text_of(span: Option<(nat, nat)>, chars: Seq<char>) -> Seq<char> {
    match span {
        Some((s, e)) => chars.subrange(s as int, e as int),
        None => Seq::empty(),
    }
}

/// The largest index below `n` at which the table holds the name, if there
/// is one: a name that was given twice belongs to the later group.
pub open spec fn named_index(table: Seq<Option<Seq<char>>>, name: Seq<char>, n: nat) -> Option<nat>
    decreases n,
{
    if n == 0 || n > table.len() {
        None
    } else if table[n - 1] == Some(name) {
        Some((n - 1) as nat)
    } else {
        named_index(table, name, (n - 1) as nat)
    }
}

/// A copy of a table of names.
pub fn copy_names(names: &Vec<Option<String>>) -> (r: Vec<Option<String>>)
    ensures
        r@ == names@,
{
    let mut r: Vec<Option<String>> = Vec::with_capacity(names.len());
    let mut i: usize = 0;
    while i < names.len()
        invariant
            i <= names.len(),
            r@ == names@.take(i as int),
        decreases names.len() - i,
    {
        let copy = match &names[i] {
            Some(n) => Some(n.clone()),
            None => None,
        };
        r.push(copy);
        assert(names@.take(i + 1) =~= names@.take(i as int).push(names@[i as int]));
        i += 1;
    }
    assert(names@.take(names.len() as int) =~= names@);
    r
}

/// The groups of one match. Group 0 is the whole match; the others follow
/// in the order in which they open in the expression.
pub struct Captures<'r> {
    text: &'r str,
    locs: Vec<Option<(usize, usize)>>,
    chars: Vec<Option<(usize, usize)>>,
    named: Vec<Option<String>>,
}

impl<'r> Captures<'r> {
    /// The characters of the text that was searched.
    pub closed spec fn text(&self) -> Seq<char> {
        self.text@
    }

    /// The spans of the groups in character positions.
    pub closed spec fn spans(&self) -> Spans {
        spans_view(self.chars@)
    }

    /// The table of group names.
    pub closed spec fn table(&self) -> Seq<Option<Seq<char>>> {
        names_view(self.named@)
    }

    /// The spans lie in the text, and the byte offsets belong to them.
    pub closed spec fn wf(&self) -> bool {
        &&& spans_between(self.spans(), 0, self.text@.len())
        &&& spans_view(self.locs@) == byte_spans(self.spans(), self.text@)
    }

    /// The spans of well-formed groups are ordered and lie in the text.
    pub proof fn lemma_spans_between(&self)
        requires
            self.wf(),
        ensures
            spans_between(self.spans(), 0, self.text().len()),
    {
    }

    /// The text of group `i`; nothing if the group is absent or does not
    /// exist.
    pub open spec fn at_spec(&self, i: nat) -> Seq<char> {
        if i < self.spans().len() {
            text_of(self.spans()[i as int], self.text())
        } else {
            Seq::empty()
        }
    }

    /// The span of group `i` in byte offsets; `None` if the group is absent
    /// or does not exist.
    pub open spec fn pos_spec(&self, i: nat) -> Option<(nat, nat)> {
        if i < self.spans().len() {
            byte_span(self.spans()[i as int], self.text())
        } else {
            None
        }
    }

    /// The text of the group with the given name; nothing if no group has
    /// the name.
    pub open spec fn name_spec(&self, name: Seq<char>) -> Seq<char> {
        match named_index(self.table(), name, self.table().len()) {
            Some(i) => self.at_spec(i),
            None => Seq::empty(),
        }
    }

    /// Puts the groups of a match together, from spans in character
    /// positions. Without a match there are no groups.
    pub fn new(re: &Regexp, search: &SearchText<'r>, locs: Vec<Option<(usize, usize)>>) -> (r:
        Option<Captures<'r>>)
        requires
            search.wf(),
            spans_between(spans_view(locs@), 0, search.chars().len()),
        ensures
            r is Some <==> has_match(spans_view(locs@)),
            r is Some ==> {
                &&& r->0.wf()
                &&& r->0.text() == search.chars()
                &&& r->0.spans() == spans_view(locs@)
                &&& r->0.table() == re.table()
            },
    {
        if !re.has_match(&locs) {
            return None;
        }
        let named = copy_names(&re.names);
        let chars = copy_spans(&locs);
        proof {
            assert forall|g: int| 0 <= g < locs@.len() && (#[trigger] locs@[g]) is Some implies ({
                let span = locs@[g]->0;
                span.0 < search.bytei@.len() && span.1 < search.bytei@.len()
            }) by {
                assert(spans_view(locs@)[g] is Some);
            }
        }
        let bytes = cap_to_byte_indices(locs, search.bytei.as_slice());
        proof {
            let want = byte_spans(spans_view(chars@), search.text@);
            assert(spans_view(bytes@).len() == want.len());
            assert forall|g: int| 0 <= g < want.len() implies spans_view(bytes@)[g] == want[g] by {
                assert(spans_view(chars@)[g] == span_view(chars@[g]));
            }
            assert(spans_view(bytes@) =~= want);
        }
        Some(Captures { text: search.text, locs: bytes, chars, named })
    }

    /// The number of groups, group 0 included.
    pub fn len(&self) -> (n: usize)
        ensures
            n == self.spans().len(),
    {
        self.chars.len()
    }

    /// The span of group `i` in byte offsets of the text.
    pub fn pos(&self, i: usize) -> (r: Option<(usize, usize)>)
        requires
            self.wf(),
        ensures
            span_view(r) == self.pos_spec(i as nat),
    {
        assert(spans_view(self.locs@).len() == self.locs@.len());
        if i >= self.locs.len() {
            return None;
        }
        assert(spans_view(self.locs@)[i as int] == span_view(self.locs@[i as int]));
        self.locs[i]
    }

    /// The span of group `i` in character positions of the text.
    pub fn pos_chars(&self, i: usize) -> (r: Option<(usize, usize)>)
        ensures
            span_view(r) == if i < self.spans().len() {
                self.spans()[i as int]
            } else {
                None
            },
    {
        assert(spans_view(self.chars@).len() == self.chars@.len());
        if i >= self.chars.len() {
            return None;
        }
        assert(spans_view(self.chars@)[i as int] == span_view(self.chars@[i as int]));
        self.chars[i]
    }

    /// The text of group `i`.
    pub fn at(&self, i: usize) -> (r: &'r str)
        requires
            self.wf(),
        ensures
            r@ == self.at_spec(i as nat),
    {
        proof {
            reveal_strlit("");
        }
        if i >= self.chars.len() {
            return "";
        }
        assert(spans_view(self.chars@)[i as int] == span_view(self.chars@[i as int]));
        match self.chars[i] {
            None => "",
            Some((s, e)) => self.text.substring_char(s, e),
        }
    }

    /// The text of the group with the given name.
    pub fn name(&self, name: &str) -> (r: &'r str)
        requires
            self.wf(),
        ensures
            r@ == self.name_spec(name@),
    {
        proof {
            reveal_strlit("");
        }
        let wanted = name.to_owned();
        let mut n: usize = self.named.len();
        while n > 0
            invariant
                n <= self.named.len(),
                wanted@ == name@,
                self.wf(),
                named_index(self.table(), name@, self.table().len()) == named_index(
                    self.table(),
                    name@,
                    n as nat,
                ),
            decreases n,
        {
            assert(self.table()[n - 1] == crate::parse::name_view(self.named@[n - 1]));
            let hit = match &self.named[n - 1] {
                Some(known) => *known == wanted,
                None => false,
            };
            if hit {
                return self.at(n - 1);
            }
            n -= 1;
        }
        ""
    }
}

/// A copy of a list of spans.
pub fn copy_spans(spans: &Vec<Option<(usize, usize)>>) -> (r: Vec<Option<(usize, usize)>>)
    ensures
        r@ == spans@,
{
    let mut r: Vec<Option<(usize, usize)>> = Vec::with_capacity(spans.len());
    let mut i: usize = 0;
    while i < spans.len()
        invariant
            i <= spans.len(),
            r@ == spans@.take(i as int),
        decreases spans.len() - i,
    {
        r.push(spans[i]);
        assert(spans@.take(i + 1) =~= spans@.take(i as int).push(spans@[i as int]));
        i += 1;
    }
    assert(spans@.take(spans.len() as int) =~= spans@);
    r
}

/// An iteration over the texts of the groups of one match, in the order of
/// the groups.
pub struct SubCaptures<'r> {
    idx: usize,
    caps: &'r Captures<'r>,
}

impl<'r> SubCaptures<'r> {
    /// The groups that are iterated over.
    pub closed spec fn captures(&self) -> Captures<'r> {
        *self.caps
    }

    /// The index of the group that comes next.
    pub closed spec fn index(&self) -> nat {
        self.idx as nat
    }

    /// Yields the text of the next group, or `None` behind the last one.
    pub fn next(&mut self) -> (r: Option<&'r str>)
        requires
            old(self).captures().wf(),
        ensures
            final(self).captures() == old(self).captures(),
            old(self).index() < old(self).captures().spans().len() ==> r is Some && r->0@ == old(self).captures().at_spec(old(self).index()) && final(self).index() == old(self).index()
                + 1,
            old(self).index() >= old(self).captures().spans().len() ==> r is None && final(self).index() == old(self).index(),
    {
        if self.idx < self.caps.len() {
            self.idx += 1;
            Some(self.caps.at(self.idx - 1))
        } else {
            None
        }
    }
}

/// An iteration over the spans of the groups of one match in byte offsets,
/// in the order of the groups.
pub struct SubCapturesPos<'r> {
    idx: usize,
    caps: &'r Captures<'r>,
}

impl<'r> SubCapturesPos<'r> {
    /// The groups that are iterated over.
    pub closed spec fn captures(&self) -> Captures<'r> {
        *self.caps
    }

    /// The index of the group that comes next.
    pub closed spec fn index(&self) -> nat {
        self.idx as nat
    }

    /// Yields the span of the next group, or `None` behind the last one.
    pub fn next(&mut self) -> (r: Option<Option<(usize, usize)>>)
        requires
            old(self).captures().wf(),
        ensures
            final(self).captures() == old(self).captures(),
            old(self).index() < old(self).captures().spans().len() ==> r is Some && span_view(r->0)
                == old(self).captures().pos_spec(old(self).index()) && final(self).index() == old(self).index() + 1,
            old(self).index() >= old(self).captures().spans().len() ==> r is None && final(self).index() == old(self).index(),
    {
        if self.idx < self.caps.len() {
            self.idx += 1;
            Some(self.caps.pos(self.idx - 1))
        } else {
            None
        }
    }
}

impl<'r> Captures<'r> {
    /// Starts an iteration over the texts of the groups.
    pub fn iter(&'r self) -> (r: SubCaptures<'r>)
        ensures
            r.captures() == *self,
            r.index() == 0,
    {
        SubCaptures { idx: 0, caps: self }
    }

    /// Starts an iteration over the spans of the groups in byte offsets.
    pub fn iter_pos(&'r self) -> (r: SubCapturesPos<'r>)
        ensures
            r.captures() == *self,
            r.index() == 0,
    {
        SubCapturesPos { idx: 0, caps: self }
    }
}

/// An iteration over the matches of a text that do not overlap. Each step
/// yields the groups of a match.
pub struct FindCaptures<'r> {
    re: &'r Regexp,
    search: SearchText<'r>,
    last_match: Option<usize>,
    last_end: usize,
}

impl<'r> FindCaptures<'r> {
    /// The text was prepared for a search that reports all groups.
    pub closed spec fn wf(&self) -> bool {
        self.search.wf() && self.search.wants_captures()
    }

    /// The instructions of the expression.
    pub closed spec fn code(&self) -> Seq<InstSpec> {
        self.re.code()
    }

    /// The table of group names of the expression.
    pub closed spec fn table(&self) -> Seq<Option<Seq<char>>> {
        self.re.table()
    }

    /// The characters of the text.
    pub closed spec fn chars(&self) -> Seq<char> {
        self.search.chars()
    }

    /// The matches that are still to come, in character positions.
    pub closed spec fn remaining(&self) -> Seq<Spans> {
        matches_from(
            self.re.code(),
            self.search.chars(),
            self.last_end as nat,
            position_view(self.last_match),
        )
    }

    /// Yields the groups of the next match, or `None` when no match is left.
    pub fn next(&mut self) -> (r: Option<Captures<'r>>)
        requires
            old(self).wf(),
        ensures
            final(self).wf(),
            final(self).code() == old(self).code(),
            final(self).table() == old(self).table(),
            final(self).chars() == old(self).chars(),
            old(self).remaining().len() == 0 ==> r is None && final(self).remaining().len() == 0,
            old(self).remaining().len() > 0 ==> {
                &&& r is Some
                &&& r->0.wf()
                &&& r->0.text() == old(self).chars()
                &&& r->0.table() == old(self).table()
                &&& r->0.spans() == old(self).remaining()[0]
                &&& final(self).remaining() == old(self).remaining().drop_first()
            },
    {
        let ghost before = self.remaining();
        let found = self.search.next_match(self.re, self.last_end, self.last_match);
        proof {
            lemma_next_spans(
                self.re.code(),
                self.search.chars(),
                self.last_end as nat,
                position_view(self.last_match),
            );
        }
        match found {
            None => None,
            Some(spans) => {
                assert(spans_view(spans@)[0] == span_view(spans@[0]));
                let (_, ue) = spans[0].unwrap();
                self.last_end = ue;
                self.last_match = Some(ue);
                assert(self.remaining() =~= before.drop_first());
                Captures::new(self.re, &self.search, spans)
            },
        }
    }
}

impl Regexp {
    /// The groups of the leftmost match, if there is a match.
    pub fn captures<'r>(&self, text: &'r str) -> (r: Option<Captures<'r>>)
        ensures
            r is Some <==> has_match(run_spec(self.code(), text@, true)),
            r is Some ==> {
                &&& r->0.wf()
                &&& r->0.text() == text@
                &&& r->0.spans() == run_spec(self.code(), text@, true)
                &&& r->0.table() == self.table()
            },
    {
        let search = SearchText::from_str(text, true);
        let len = search.char_len();
        let caps = search.exec_slice(self, 0, len);
        proof {
            assert(text@.subrange(0, len as int) =~= text@);
            let found = run_spec(self.code(), text@, true);
            assert(shifted(found, 0) =~= found);
            lemma_run_within(self.code(), text@, true);
        }
        Captures::new(self, &search, caps)
    }

    /// Starts an iteration over the groups of the matches of the text that
    /// do not overlap.
    pub fn captures_iter<'r>(&'r self, text: &'r str) -> (r: FindCaptures<'r>)
        ensures
            r.wf(),
            r.code() == self.code(),
            r.table() == self.table(),
            r.chars() == text@,
            r.remaining() == matches_from(self.code(), text@, 0, None),
    {
        FindCaptures {
            re: self,
            search: SearchText::from_str(text, true),
            last_match: None,
            last_end: 0,
        }
    }
}

/// An iteration over the texts between the matches of an expression.
pub struct RegexpSplits<'r> {
    finder: FindMatches<'r>,
    text: &'r str,
    last: usize,
}

impl<'r> RegexpSplits<'r> {
    /// The iteration over the matches is well formed and belongs to the
    /// text, and the next match starts no earlier than the last one ended.
    pub closed spec fn wf(&self) -> bool {
        &&& self.finder.wf()
        &&& self.finder.chars() == self.text@
        &&& self.last <= self.text@.len()
        &&& self.finder.remaining().len() > 0 ==> self.last <= self.finder.position()
    }

    /// The instructions of the expression.
    pub closed spec fn code(&self) -> Seq<InstSpec> {
        self.finder.code()
    }

    /// The characters of the text.
    pub closed spec fn chars(&self) -> Seq<char> {
        self.text@
    }

    /// The position behind the match that was passed last.
    pub closed spec fn last(&self) -> nat {
        self.last as nat
    }

    /// The matches that are still to come.
    pub closed spec fn matches(&self) -> Seq<Spans> {
        self.finder.remaining()
    }

    /// The texts that are still to come.
    pub open spec fn remaining(&self) -> Seq<Seq<char>> {
        pieces(self.chars(), self.matches(), self.last())
    }

    /// Yields the text up to the next match, or behind the last match the
    /// rest of the text unless it is empty.
    pub fn next(&mut self) -> (r: Option<&'r str>)
        requires
            old(self).wf(),
        ensures
            final(self).wf(),
            final(self).code() == old(self).code(),
            final(self).chars() == old(self).chars(),
            old(self).remaining().len() == 0 ==> r is None && final(self).remaining().len() == 0,
            old(self).remaining().len() > 0 ==> r is Some && r->0@ == old(self).remaining()[0]
                && final(self).remaining() == old(self).remaining().drop_first(),
    {
        let ghost before = self.remaining();
        let ghost matches = self.finder.remaining();
        proof {
            self.finder.lemma_remaining();
            lemma_next_spans(
                self.finder.code(),
                self.finder.chars(),
                self.finder.position(),
                self.finder.previous(),
            );
        }
        let len = self.text.unicode_len();
        match self.finder.next_chars() {
            None => {
                if self.last >= len {
                    None
                } else {
                    let s = self.text.substring_char(self.last, len);
                    self.last = len;
                    assert(self.remaining() =~= before.drop_first());
                    Some(s)
                }
            },
            Some((s, e)) => {
                let text = self.text.substring_char(self.last, s);
                self.last = e;
                assert(self.remaining() =~= before.drop_first());
                Some(text)
            },
        }
    }
}

impl Regexp {
    /// Starts an iteration over the texts between the matches of the
    /// expression in the text.
    pub fn split<'r>(&'r self, text: &'r str) -> (r: RegexpSplits<'r>)
        ensures
            r.wf(),
            r.code() == self.code(),
            r.chars() == text@,
            r.last() == 0,
            r.matches() == matches_from(self.code(), text@, 0, None),
    {
        RegexpSplits { finder: self.find_iter(text), text, last: 0 }
    }
}

/// An iteration over at most a given number of texts between the matches of
/// an expression. The last of them is all that is left of the text.
pub struct RegexpSplitsN<'r> {
    splits: RegexpSplits<'r>,
    cur: usize,
    limit: usize,
}

impl<'r> RegexpSplitsN<'r> {
    /// The iteration over the texts is well formed.
    pub closed spec fn wf(&self) -> bool {
        self.splits.wf()
    }

    /// The characters of the text.
    pub closed spec fn chars(&self) -> Seq<char> {
        self.splits.chars()
    }

    /// The position behind the match that was passed last.
    pub closed spec fn last(&self) -> nat {
        self.splits.last()
    }

    /// The texts that an iteration without a limit would still yield.
    pub closed spec fn unlimited(&self) -> Seq<Seq<char>> {
        self.splits.remaining()
    }

    /// The number of steps taken, as far as they count against the limit.
    pub closed spec fn taken(&self) -> nat {
        self.cur as nat
    }

    /// The largest number of texts to yield.
    pub closed spec fn limit(&self) -> nat {
        self.limit as nat
    }

    /// Yields nothing once the limit is reached; as the last text within the
    /// limit, all that is left of the text; and before that what the
    /// iteration without a limit yields.
    pub fn next(&mut self) -> (r: Option<&'r str>)
        requires
            old(self).wf(),
        ensures
            final(self).wf(),
            final(self).chars() == old(self).chars(),
            final(self).limit() == old(self).limit(),
            old(self).taken() >= old(self).limit() ==> {
                &&& r is None
                &&& final(self).taken() == old(self).taken()
                &&& final(self).unlimited() == old(self).unlimited()
                &&& final(self).last() == old(self).last()
            },
            old(self).taken() < old(self).limit() ==> final(self).taken() == old(self).taken() + 1,
            old(self).taken() + 1 == old(self).limit() ==> {
                &&& r is Some
                &&& r->0@ == old(self).chars().subrange(
                    old(self).last() as int,
                    old(self).chars().len() as int,
                )
                &&& final(self).unlimited() == old(self).unlimited()
                &&& final(self).last() == old(self).last()
            },
            old(self).taken() + 1 < old(self).limit() ==> {
                &&& old(self).unlimited().len() == 0 ==> r is None && final(self).unlimited().len()
                    == 0
                &&& old(self).unlimited().len() > 0 ==> r is Some && r->0@ == old(self).unlimited()[0] && final(self).unlimited() == old(self).unlimited().drop_first()
            },
    {
        if self.cur >= self.limit {
            None
        } else {
            self.cur += 1;
            if self.cur >= self.limit {
                let len = self.splits.text.unicode_len();
                Some(self.splits.text.substring_char(self.splits.last, len))
            } else {
                self.splits.next()
            }
        }
    }
}

impl Regexp {
    /// Starts an iteration over at most `limit` texts between the matches of
    /// the expression in the text.
    pub fn splitn<'r>(&'r self, text: &'r str, limit: usize) -> (r: RegexpSplitsN<'r>)
        ensures
            r.wf(),
            r.chars() == text@,
            r.last() == 0,
            r.taken() == 0,
            r.limit() == limit,
            r.unlimited() == crate::search::split_spec(self.code(), text@),
    {
        RegexpSplitsN { splits: self.split(text), cur: 0, limit }
    }
}

} // verus!
