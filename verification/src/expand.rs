//! Replacement templates: text in which `$` followed by a number or a name
//! stands for the text of a group.

use vstd::prelude::*;
use crate::chars::{is_word, spec_is_word};
use crate::regexp::{Captures, named_index, text_of};
use crate::replace::Replacer;
use crate::search::Spans;
use crate::text::{string_from_chars, to_chars};

verus! {

/// The end of the run of word characters that starts at `i`.
pub open spec fn name_end(t: Seq<char>, i: nat) -> nat
    decreases t.len() - i,
{
    if i < t.len() && spec_is_word(t[i as int]) {
        name_end(t, i + 1)
    } else {
        i
    }
}

/// Every character is one of the digits `0` to `9`.
pub open spec fn all_digits(s: Seq<char>) -> bool {
    forall|i: int| 0 <= i < s.len() ==> '0' <= #[trigger] s[i] <= '9'
}

/// The number that a sequence of digits writes in base ten.
pub open spec fn digits_value(s: Seq<char>) -> nat
    decreases s.len(),
{
    if s.len() == 0 {
        0
    } else {
        (digits_value(s.drop_last()) * 10 + (s.last() as u32 - '0' as u32)) as nat
    }
}

/// The text of group `i`, or nothing if the group is absent or does not
/// exist.
pub open spec fn group_text(text: Seq<char>, spans: Spans, i: nat) -> Seq<char> {
    if i < spans.len() {
        text_of(spans[i as int], text)
    } else {
        Seq::empty()
    }
}

/// What a reference stands for: a number is the index of a group, anything
/// else the name of one. A reference to a group that does not exist stands
/// for nothing.
pub open spec fn reference(
    text: Seq<char>,
    spans: Spans,
    table: Seq<Option<Seq<char>>>,
    name: Seq<char>,
) -> Seq<char> {
    if all_digits(name) {
        group_text(text, spans, digits_value(name))
    } else {
        match named_index(table, name, table.len()) {
            Some(i) => group_text(text, spans, i),
            None => Seq::empty(),
        }
    }
}

/// The template from `i` on with its references expanded. `$$` stands for
/// one `$`; a `$` that no word character follows stands for itself.
pub open spec fn expand_from(
    text: Seq<char>,
    spans: Spans,
    table: Seq<Option<Seq<char>>>,
    t: Seq<char>,
    i: nat,
) -> Seq<char>
    decreases t.len() - i,
{
    if i >= t.len() {
        Seq::empty()
    } else if t[i as int] != '$' {
        seq![t[i as int]] + expand_from(text, spans, table, t, i + 1)
    } else if i + 1 < t.len() && t[i as int + 1] == '$' {
        seq!['$'] + expand_from(text, spans, table, t, i + 2)
    } else {
        proof {
            lemma_name_end(t, i + 1);
        }
        let j = name_end(t, i + 1);
        if j <= i + 1 {
            seq!['$'] + expand_from(text, spans, table, t, i + 1)
        } else {
            reference(text, spans, table, t.subrange(i as int + 1, j as int)) + expand_from(
                text,
                spans,
                table,
                t,
                j,
            )
        }
    }
}

/// A template with its references expanded.
pub open spec fn expand_spec(
    text: Seq<char>,
    spans: Spans,
    table: Seq<Option<Seq<char>>>,
    t: Seq<char>,
) -> Seq<char> {
    expand_from(text, spans, table, t, 0)
}

/// The run of word characters from `i` on ends within the template.
pub proof fn lemma_name_end(t: Seq<char>, i: nat)
    requires
        i <= t.len(),
    ensures
        i <= name_end(t, i) <= t.len(),
    decreases t.len() - i,
{
    if i < t.len() && spec_is_word(t[i as int]) {
        lemma_name_end(t, i + 1);
    }
}

/// Finds the end of the run of word characters that starts at `i`.
pub fn scan_name(t: &Vec<char>, i: usize) -> (j: usize)
    requires
        i <= t.len(),
    ensures
        j == name_end(t@, i as nat),
        i <= j <= t.len(),
{
    let mut j = i;
    while j < t.len() && is_word(t[j])
        invariant
            i <= j <= t.len(),
            name_end(t@, i as nat) == name_end(t@, j as nat),
        decreases t.len() - j,
    {
        j += 1;
    }
    j
}

/// Tells whether every character is one of the digits `0` to `9`.
pub fn is_number(name: &Vec<char>) -> (r: bool)
    ensures
        r == all_digits(name@),
{
    let mut i: usize = 0;
    while i < name.len()
        invariant
            i <= name.len(),
            all_digits(name@.take(i as int)),
        decreases name.len() - i,
    {
        let c = name[i];
        if !('0' <= c && c <= '9') {
            assert(!all_digits(name@));
            return false;
        }
        assert(name@.take(i + 1).drop_last() =~= name@.take(i as int));
        i += 1;
    }
    assert(name@.take(name.len() as int) =~= name@);
    true
}

/// Reads a number written in digits. Returns `None` if the number does not
/// fit.
pub fn read_number(name: &Vec<char>) -> (r: Option<usize>)
    requires
        all_digits(name@),
    ensures
        r is Some ==> r->0 == digits_value(name@),
        r is None ==> digits_value(name@) > usize::MAX,
{
    let mut n: usize = 0;
    let mut i: usize = 0;
    while i < name.len()
        invariant
            i <= name.len(),
            all_digits(name@),
            n == digits_value(name@.take(i as int)),
        decreases name.len() - i,
    {
        let c = name[i];
        assert('0' <= name@[i as int] <= '9');
        let d: usize = (c as u32 - '0' as u32) as usize;
        assert(name@.take(i + 1).drop_last() =~= name@.take(i as int));
        if n > (usize::MAX - d) / 10 {
            proof {
                lemma_digits_grow(name@, i + 1);
            }
            return None;
        }
        n = n * 10 + d;
        i += 1;
    }
    assert(name@.take(name.len() as int) =~= name@);
    Some(n)
}

/// The value of a number is at least the value of each start of it.
pub proof fn lemma_digits_grow(s: Seq<char>, k: int)
    requires
        0 <= k <= s.len(),
        all_digits(s),
    ensures
        digits_value(s.take(k)) <= digits_value(s),
    decreases s.len() - k,
{
    if k < s.len() {
        lemma_digits_grow(s, k + 1);
        assert(s.take(k + 1).drop_last() =~= s.take(k));
        assert('0' <= s[k] <= '9');
        assert(s.take(k + 1).last() == s[k]);
    } else {
        assert(s.take(k) =~= s);
    }
}

/// A copy of the characters from `from` up to `to`.
pub fn copy_chars(t: &Vec<char>, from: usize, to: usize) -> (r: Vec<char>)
    requires
        from <= to <= t.len(),
    ensures
        r@ == t@.subrange(from as int, to as int),
{
    let mut r: Vec<char> = Vec::with_capacity(to - from);
    let mut i: usize = from;
    while i < to
        invariant
            from <= i <= to <= t.len(),
            r@ == t@.subrange(from as int, i as int),
        decreases to - i,
    {
        r.push(t[i]);
        assert(t@.subrange(from as int, i + 1) =~= t@.subrange(from as int, i as int).push(
            t@[i as int],
        ));
        i += 1;
    }
    r
}

/// Appends the characters of a text to a list of characters.
pub fn push_text(out: &mut Vec<char>, text: &str)
    ensures
        final(out)@ == old(out)@ + text@,
{
    let chars = to_chars(text);
    let mut i: usize = 0;
    while i < chars.len()
        invariant
            i <= chars.len(),
            chars@ == text@,
            out@ == old(out)@ + chars@.take(i as int),
        decreases chars.len() - i,
    {
        out.push(chars[i]);
        assert(old(out)@ + chars@.take(i + 1) =~= (old(out)@ + chars@.take(i as int)).push(
            chars@[i as int],
        ));
        i += 1;
    }
    assert(chars@.take(chars.len() as int) =~= chars@);
}

/// The text that a reference stands for.
pub fn resolve<'r>(caps: &Captures<'r>, name: &Vec<char>) -> (r: &'r str)
    requires
        caps.wf(),
    ensures
        r@ == reference(caps.text(), caps.spans(), caps.table(), name@),
{
    if is_number(name) {
        match read_number(name) {
            Some(i) => caps.at(i),
            None => {
                let n = caps.len();
                proof {
                    reveal_strlit("");
                }
                ""
            },
        }
    } else {
        let wanted = string_from_chars(name);
        caps.name(wanted.as_str())
    }
}

/// Expands the references of a template to the texts of the groups of a
/// match. `$` followed by a number stands for the group with that index,
/// `$` followed by other word characters for the group with that name, and
/// `$$` for one `$`. A reference to a group that does not exist stands for
/// nothing.
pub fn expand(caps: &Captures, text: &str) -> (r: String)
    requires
        caps.wf(),
    ensures
        r@ == expand_spec(caps.text(), caps.spans(), caps.table(), text@),
{
    let t = to_chars(text);
    let ghost goal = expand_spec(caps.text(), caps.spans(), caps.table(), t@);
    let mut out: Vec<char> = Vec::with_capacity(t.len());
    let mut i: usize = 0;
    while i < t.len()
        invariant
            i <= t.len(),
            caps.wf(),
            goal == out@ + expand_from(caps.text(), caps.spans(), caps.table(), t@, i as nat),
        decreases t.len() - i,
    {
        let ghost before = out@;
        let ghost rest = expand_from(caps.text(), caps.spans(), caps.table(), t@, i as nat);
        let c = t[i];
        if c != '$' {
            out.push(c);
            i += 1;
        } else if i + 1 < t.len() && t[i + 1] == '$' {
            out.push('$');
            i += 2;
        } else {
            let j = scan_name(&t, i + 1);
            if j <= i + 1 {
                out.push('$');
                i += 1;
            } else {
                let name = copy_chars(&t, i + 1, j);
                let piece = resolve(caps, &name);
                push_text(&mut out, piece);
                i = j;
            }
        }
        assert(goal =~= out@ + expand_from(caps.text(), caps.spans(), caps.table(), t@, i as nat));
    }
    assert(goal =~= out@);
    string_from_chars(&out)
}

impl<'r> Replacer for &'r str {
    open spec fn replacement(
        &self,
        text: Seq<char>,
        spans: Spans,
        table: Seq<Option<Seq<char>>>,
    ) -> Seq<char> {
        expand_spec(text, spans, table, self@)
    }

    fn replace(&self, caps: &Captures) -> (r: String) {
        expand(caps, *self)
    }
}

} // verus!
