//! The virtual machine: a simulation of a program's automaton that advances
//! all threads in lock step over the input, in priority order.

use vstd::prelude::*;
use crate::chars::{spec_char_eq, spec_class_has, spec_is_word};
use crate::chars::{char_eq, class_has, is_word};
use crate::compile::{Inst, InstSpec, count_groups, groups_of, insts_view};

verus! {

/// The positions that a thread has saved, one entry per slot.
pub type Slots = Seq<Option<nat>>;

/// The mathematical value of a thread: the instruction it stands at and the
/// positions it has saved.
pub struct ThreadSpec {
    pub pc: nat,
    pub slots: Slots,
}

/// A list of threads in priority order, with a mark for every instruction
/// that was already reached at the list's input position.
pub struct ThreadsSpec {
    pub seen: Seq<bool>,
    pub list: Seq<ThreadSpec>,
}

/// The number of unmarked entries.
pub open spec fn unmarked(seen: Seq<bool>) -> nat
    decreases seen.len(),
{
    if seen.len() == 0 {
        0
    } else {
        unmarked(seen.drop_last()) + if seen.last() {
            0nat
        } else {
            1nat
        }
    }
}

/// Marking an unmarked entry leaves one unmarked entry fewer.
pub proof fn lemma_mark(seen: Seq<bool>, i: int)
    requires
        0 <= i < seen.len(),
        !seen[i],
    ensures
        unmarked(seen.update(i, true)) + 1 == unmarked(seen),
    decreases seen.len(),
{
    let after = seen.update(i, true);
    if i == seen.len() - 1 {
        assert(after.drop_last() =~= seen.drop_last());
    } else {
        lemma_mark(seen.drop_last(), i);
        assert(after.drop_last() =~= seen.drop_last().update(i, true));
    }
}

/// A list without threads in which nothing is marked.
pub open spec fn no_threads(len: nat) -> ThreadsSpec {
    ThreadsSpec { seen: Seq::new(len, |i: int| false), list: Seq::empty() }
}

/// Whether the character at a position exists and is a word character.
pub open spec fn word_at(input: Seq<char>, i: int) -> bool {
    0 <= i < input.len() && spec_is_word(input[i])
}

/// Whether a zero-width assertion holds at a position. Other instructions
/// never hold.
pub open spec fn holds_at(inst: InstSpec, input: Seq<char>, pos: nat) -> bool {
    match inst {
        InstSpec::EmptyBegin(multi) => pos == 0 || (multi && 0 < pos <= input.len() && input[pos - 1] == '\n'),
        InstSpec::EmptyEnd(multi) => pos >= input.len() || (multi && input[pos as int] == '\n'),
        InstSpec::EmptyWordBoundary(yes) => (word_at(input, pos - 1) != word_at(
            input,
            pos as int,
        )) == yes,
        _ => false,
    }
}

/// Whether an instruction consumes the character. Instructions that consume
/// nothing never do.
pub open spec fn consumes(inst: InstSpec, c: char) -> bool {
    match inst {
        InstSpec::Char(r, casei) => spec_char_eq(casei, r, c),
        InstSpec::CharClass(ranges, negated, casei) => spec_class_has(ranges, casei, c) != negated,
        InstSpec::Any(nl) => nl || c != '\n',
        _ => false,
    }
}

/// The slots after a position is saved in slot `k`. A slot that the thread
/// does not have is ignored.
pub open spec fn save(slots: Slots, k: nat, pos: nat) -> Slots {
    if k < slots.len() {
        slots.update(k as int, Some(pos))
    } else {
        slots
    }
}

/// The list after the threads on `stack` are added, the last of the stack
/// first. A thread follows the instructions that consume nothing; what it
/// reaches at a consuming instruction or at `Match` is appended to the list.
/// An instruction that was reached before at this position is not entered
/// again, so the thread of higher priority keeps it.
pub open spec fn follow(
    code: Seq<InstSpec>,
    input: Seq<char>,
    pos: nat,
    th: ThreadsSpec,
    stack: Seq<ThreadSpec>,
) -> ThreadsSpec
    decreases unmarked(th.seen), stack.len(),
{
    if stack.len() == 0 {
        th
    } else {
        let t = stack.last();
        let rest = stack.drop_last();
        if t.pc >= th.seen.len() || t.pc >= code.len() || th.seen[t.pc as int] {
            follow(code, input, pos, th, rest)
        } else {
            proof {
                lemma_mark(th.seen, t.pc as int);
            }
            let seen = th.seen.update(t.pc as int, true);
            let marked = ThreadsSpec { seen, list: th.list };
            let inst = code[t.pc as int];
            match inst {
                InstSpec::Jump(to) => follow(
                    code,
                    input,
                    pos,
                    marked,
                    rest.push(ThreadSpec { pc: to, slots: t.slots }),
                ),
                InstSpec::Split(a, b) => follow(
                    code,
                    input,
                    pos,
                    marked,
                    rest.push(ThreadSpec { pc: b, slots: t.slots }).push(
                        ThreadSpec { pc: a, slots: t.slots },
                    ),
                ),
                InstSpec::Save(k) => follow(
                    code,
                    input,
                    pos,
                    marked,
                    rest.push(ThreadSpec { pc: t.pc + 1, slots: save(t.slots, k, pos) }),
                ),
                InstSpec::EmptyBegin(_) | InstSpec::EmptyEnd(_) | InstSpec::EmptyWordBoundary(
                    _,
                ) => if holds_at(inst, input, pos) {
                    follow(
                        code,
                        input,
                        pos,
                        marked,
                        rest.push(ThreadSpec { pc: t.pc + 1, slots: t.slots }),
                    )
                } else {
                    follow(code, input, pos, marked, rest)
                },
                _ => follow(
                    code,
                    input,
                    pos,
                    ThreadsSpec { seen, list: th.list.push(t) },
                    rest,
                ),
            }
        }
    }
}

/// The outcome of one step over the threads of a position: the list for the
/// next position, and the slots of the thread that matched, if one did.
pub struct StepSpec {
    pub next: ThreadsSpec,
    pub matched: Option<Slots>,
}

/// Runs the threads of `list` from the `i`-th on, in priority order, at
/// position `pos`. A thread at `Match` ends the step: the threads after it
/// have lower priority and are dropped. A thread whose instruction consumes
/// the character at `pos` is added, one instruction further, to the list of
/// the next position.
pub open spec fn step(
    code: Seq<InstSpec>,
    input: Seq<char>,
    pos: nat,
    list: Seq<ThreadSpec>,
    i: nat,
    next: ThreadsSpec,
) -> StepSpec
    decreases list.len() - i,
{
    if i >= list.len() {
        StepSpec { next, matched: None }
    } else {
        let t = list[i as int];
        if t.pc >= code.len() {
            step(code, input, pos, list, i + 1, next)
        } else if code[t.pc as int] is Match {
            StepSpec { next, matched: Some(t.slots) }
        } else if pos < input.len() && consumes(code[t.pc as int], input[pos as int]) {
            step(
                code,
                input,
                pos,
                list,
                i + 1,
                follow(
                    code,
                    input,
                    pos + 1,
                    next,
                    seq![ThreadSpec { pc: t.pc + 1, slots: t.slots }],
                ),
            )
        } else {
            step(code, input, pos, list, i + 1, next)
        }
    }
}

/// Slots in which nothing is saved, two for each group of the program.
pub open spec fn fresh_slots(code: Seq<InstSpec>) -> Slots {
    Seq::new(2 * groups_of(code), |i: int| None::<nat>)
}

/// The simulation from position `pos` on, given the threads that arrived
/// there and the best match so far. As long as nothing has matched, a new
/// thread starts at every position, behind the threads that are already
/// there. The simulation ends behind the last position, or when something
/// has matched and no thread is left.
pub open spec fn simulate(
    code: Seq<InstSpec>,
    input: Seq<char>,
    pos: nat,
    arrived: ThreadsSpec,
    best: Option<Slots>,
) -> Option<Slots>
    decreases input.len() - pos,
{
    let current = if best is None {
        follow(code, input, pos, arrived, seq![ThreadSpec { pc: 0, slots: fresh_slots(code) }])
    } else {
        arrived
    };
    if current.list.len() == 0 && best is Some {
        best
    } else {
        let out = step(code, input, pos, current.list, 0, no_threads(code.len()));
        let better = if out.matched is Some {
            out.matched
        } else {
            best
        };
        if pos >= input.len() {
            better
        } else {
            simulate(code, input, pos + 1, out.next, better)
        }
    }
}

/// The span of group `g` in the slots of a thread: present when both of its
/// slots are and the start does not lie behind the end.
pub open spec fn span_of(slots: Slots, g: int) -> Option<(nat, nat)> {
    if 0 <= g && 2 * g + 1 < slots.len() {
        match (slots[2 * g], slots[2 * g + 1]) {
            (Some(s), Some(e)) => if s <= e {
                Some((s, e))
            } else {
                None
            },
            _ => None,
        }
    } else {
        None
    }
}

/// The spans of all groups in the slots of the thread that matched; without
/// a match every span is absent.
pub open spec fn spans_of(code: Seq<InstSpec>, matched: Option<Slots>) -> Seq<
    Option<(nat, nat)>,
> {
    Seq::new(
        groups_of(code),
        |g: int|
            match matched {
                Some(slots) => span_of(slots, g),
                None => None,
            },
    )
}

/// What the machine reports for a program and an input, in character
/// positions: the span of every group, or with `captures` unset, the span of
/// group 0 alone.
pub open spec fn run_spec(code: Seq<InstSpec>, input: Seq<char>, captures: bool) -> Seq<
    Option<(nat, nat)>,
> {
    let all = spans_of(code, simulate(code, input, 0, no_threads(code.len()), None));
    if captures || all.len() == 0 {
        all
    } else {
        all.take(1)
    }
}

/// A thread of the machine.
pub struct Thread {
    pub pc: usize,
    pub slots: Vec<Option<usize>>,
}

/// The mathematical value of a saved position.
pub open spec fn slot_view(slot: Option<usize>) -> Option<nat> {
    match slot {
        Some(p) => Some(p as nat),
        None => None,
    }
}

/// The mathematical value of the slots of a thread.
pub open spec fn slots_view(slots: Seq<Option<usize>>) -> Slots {
    Seq::new(slots.len(), |i: int| slot_view(slots[i]))
}

impl View for Thread {
    type V = ThreadSpec;

    open spec fn view(&self) -> ThreadSpec {
        ThreadSpec { pc: self.pc as nat, slots: slots_view(self.slots@) }
    }
}

/// The mathematical value of a list of threads.
pub open spec fn threads_view(list: Seq<Thread>) -> Seq<ThreadSpec> {
    Seq::new(list.len(), |i: int| list[i]@)
}

/// The mathematical value of the slots of a match, if there is one.
pub open spec fn match_view(best: Option<Vec<Option<usize>>>) -> Option<Slots> {
    match best {
        Some(slots) => Some(slots_view(slots@)),
        None => None,
    }
}

/// The mathematical value of a span.
pub open spec fn span_view(span: Option<(usize, usize)>) -> Option<(nat, nat)> {
    match span {
        Some((s, e)) => Some((s as nat, e as nat)),
        None => None,
    }
}

/// The mathematical value of a list of spans.
pub open spec fn spans_view(spans: Seq<Option<(usize, usize)>>) -> Seq<Option<(nat, nat)>> {
    Seq::new(spans.len(), |i: int| span_view(spans[i]))
}

/// A copy of the slots of a thread.
pub fn copy_slots(slots: &Vec<Option<usize>>) -> (r: Vec<Option<usize>>)
    ensures
        r@ == slots@,
{
    let mut r: Vec<Option<usize>> = Vec::with_capacity(slots.len());
    let mut i: usize = 0;
    while i < slots.len()
        invariant
            i <= slots.len(),
            r@ == slots@.take(i as int),
        decreases slots.len() - i,
    {
        r.push(slots[i]);
        assert(slots@.take(i + 1) =~= slots@.take(i as int).push(slots@[i as int]));
        i += 1;
    }
    assert(slots@.take(slots.len() as int) =~= slots@);
    r
}

/// Tells whether the character at a position exists and is a word
/// character.
pub fn is_word_at(input: &[char], i: usize) -> (r: bool)
    ensures
        r == word_at(input@, i as int),
{
    i < input.len() && is_word(input[i])
}

/// Tells whether a zero-width assertion holds at a position.
pub fn holds(inst: &Inst, input: &[char], pos: usize) -> (r: bool)
    requires
        pos <= input.len(),
    ensures
        r == holds_at(inst@, input@, pos as nat),
{
    match inst {
        Inst::EmptyBegin(multi) => pos == 0 || (*multi && input[pos - 1] == '\n'),
        Inst::EmptyEnd(multi) => pos >= input.len() || (*multi && input[pos] == '\n'),
        Inst::EmptyWordBoundary(yes) => {
            let before = pos > 0 && is_word_at(input, pos - 1);
            let after = is_word_at(input, pos);
            (before != after) == *yes
        },
        _ => false,
    }
}

/// Tells whether an instruction consumes a character.
pub fn accepts(inst: &Inst, c: char) -> (r: bool)
    ensures
        r == consumes(inst@, c),
{
    match inst {
        Inst::Char_(r, casei) => char_eq(*casei, *r, c),
        Inst::CharClass(ranges, negated, casei) => class_has(ranges.as_slice(), *casei, c)
            != *negated,
        Inst::Any_(nl) => *nl || c != '\n',
        _ => false,
    }
}

/// The mathematical value of a list of threads with its marks.
pub open spec fn threads_of(seen: Seq<bool>, list: Seq<Thread>) -> ThreadsSpec {
    ThreadsSpec { seen, list: threads_view(list) }
}

/// Adds the threads on `stack` to a list, the last of the stack first,
/// following the instructions that consume nothing.
pub fn follow_threads(
    insts: &[Inst],
    input: &[char],
    pos: usize,
    seen: &mut Vec<bool>,
    list: &mut Vec<Thread>,
    stack: Vec<Thread>,
)
    requires
        pos <= input.len(),
    ensures
        threads_of(final(seen)@, final(list)@) == follow(
            insts_view(insts@),
            input@,
            pos as nat,
            threads_of(old(seen)@, old(list)@),
            threads_view(stack@),
        ),
{
    let ghost code = insts_view(insts@);
    let ghost goal = follow(
        code,
        input@,
        pos as nat,
        threads_of(seen@, list@),
        threads_view(stack@),
    );
    let mut stack = stack;
    while stack.len() > 0
        invariant
            pos <= input.len(),
            code == insts_view(insts@),
            goal == follow(
                code,
                input@,
                pos as nat,
                threads_of(seen@, list@),
                threads_view(stack@),
            ),
        decreases unmarked(seen@), stack.len(),
    {
        let ghost th = threads_of(seen@, list@);
        let ghost before = threads_view(stack@);
        let t = stack.pop().unwrap();
        let pc = t.pc;
        assert(before.last() == t@);
        assert(before.drop_last() =~= threads_view(stack@));
        let ghost rest = threads_view(stack@);
        if pc >= seen.len() || pc >= insts.len() || seen[pc] {
            continue ;
        }
        proof {
            lemma_mark(seen@, pc as int);
        }
        seen[pc] = true;
        assert(code[pc as int] == insts[pc as int]@);
        match &insts[pc] {
            Inst::Jump(to) => {
                stack.push(Thread { pc: *to, slots: t.slots });
                assert(threads_view(stack@) =~= rest.push(
                    ThreadSpec { pc: *to as nat, slots: t@.slots },
                ));
            },
            Inst::Split(a, b) => {
                let copy = copy_slots(&t.slots);
                stack.push(Thread { pc: *b, slots: copy });
                stack.push(Thread { pc: *a, slots: t.slots });
                assert(threads_view(stack@) =~= rest.push(
                    ThreadSpec { pc: *b as nat, slots: t@.slots },
                ).push(ThreadSpec { pc: *a as nat, slots: t@.slots }));
            },
            Inst::Save(k) => {
                let mut slots = t.slots;
                if *k < slots.len() {
                    slots[*k] = Some(pos);
                }
                assert(slots_view(slots@) =~= save(t@.slots, *k as nat, pos as nat));
                stack.push(Thread { pc: pc + 1, slots });
                assert(threads_view(stack@) =~= rest.push(
                    ThreadSpec { pc: (pc + 1) as nat, slots: save(t@.slots, *k as nat, pos as nat) },
                ));
            },
            Inst::EmptyBegin(_) | Inst::EmptyEnd(_) | Inst::EmptyWordBoundary(_) => {
                if holds(&insts[pc], input, pos) {
                    stack.push(Thread { pc: pc + 1, slots: t.slots });
                    assert(threads_view(stack@) =~= rest.push(
                        ThreadSpec { pc: (pc + 1) as nat, slots: t@.slots },
                    ));
                }
            },
            _ => {
                let ghost listed = threads_view(list@);
                list.push(t);
                assert(threads_view(list@) =~= listed.push(t@));
            },
        }
    }
}

/// Runs the threads of a list in priority order at one position, and fills
/// the list of the next position. Returns the slots of the thread that
/// matched, if one did.
pub fn step_threads(
    insts: &[Inst],
    input: &[char],
    pos: usize,
    list: &Vec<Thread>,
    seen: &mut Vec<bool>,
    next: &mut Vec<Thread>,
) -> (matched: Option<Vec<Option<usize>>>)
    requires
        pos <= input.len(),
    ensures
        (StepSpec { next: threads_of(final(seen)@, final(next)@), matched: match_view(matched) })
            == step(
            insts_view(insts@),
            input@,
            pos as nat,
            threads_view(list@),
            0,
            threads_of(old(seen)@, old(next)@),
        ),
{
    let ghost code = insts_view(insts@);
    let ghost goal = step(
        code,
        input@,
        pos as nat,
        threads_view(list@),
        0,
        threads_of(seen@, next@),
    );
    let mut matched: Option<Vec<Option<usize>>> = None;
    let mut i: usize = 0;
    while i < list.len() && matched.is_none()
        invariant
            i <= list.len(),
            pos <= input.len(),
            code == insts_view(insts@),
            matched is None ==> goal == step(
                code,
                input@,
                pos as nat,
                threads_view(list@),
                i as nat,
                threads_of(seen@, next@),
            ),
            matched is Some ==> goal == (StepSpec {
                next: threads_of(seen@, next@),
                matched: match_view(matched),
            }),
        decreases list.len() - i, if matched is None { 1nat } else { 0nat },
    {
        let t = &list[i];
        assert(threads_view(list@)[i as int] == t@);
        if t.pc < insts.len() {
            assert(code[t.pc as int] == insts[t.pc as int]@);
            match &insts[t.pc] {
                Inst::Match => {
                    let slots = copy_slots(&t.slots);
                    assert(match_view(Some(slots)) == Some(t@.slots));
                    matched = Some(slots);
                },
                inst => {
                    if pos < input.len() && accepts(inst, input[pos]) {
                        let start = Thread { pc: t.pc + 1, slots: copy_slots(&t.slots) };
                        let mut stack: Vec<Thread> = Vec::new();
                        stack.push(start);
                        assert(threads_view(stack@) =~= seq![
                            ThreadSpec { pc: t@.pc + 1, slots: t@.slots },
                        ]);
                        follow_threads(insts, input, pos + 1, seen, next, stack);
                    }
                    i += 1;
                },
            }
        } else {
            i += 1;
        }
    }
    matched
}

/// A list of `len` marks, none of them set.
pub fn blank_marks(len: usize) -> (r: Vec<bool>)
    ensures
        r@ == no_threads(len as nat).seen,
{
    let mut r: Vec<bool> = Vec::with_capacity(len);
    let mut i: usize = 0;
    while i < len
        invariant
            i <= len,
            r@ == Seq::new(i as nat, |k: int| false),
        decreases len - i,
    {
        r.push(false);
        assert(r@ =~= Seq::new((i + 1) as nat, |k: int| false));
        i += 1;
    }
    r
}

/// Slots in which nothing is saved, two for each of `groups` groups.
pub fn blank_slots(groups: usize) -> (r: Vec<Option<usize>>)
    ensures
        slots_view(r@) == Seq::new(2 * (groups as nat), |i: int| None::<nat>),
{
    let mut r: Vec<Option<usize>> = Vec::new();
    let mut i: usize = 0;
    while i < groups
        invariant
            i <= groups,
            r@.len() == 2 * (i as nat),
            forall|k: int| 0 <= k < r@.len() ==> r@[k] is None,
        decreases groups - i,
    {
        r.push(None);
        r.push(None);
        i += 1;
    }
    assert(slots_view(r@) =~= Seq::new(2 * (groups as nat), |i: int| None::<nat>));
    r
}

/// Simulates the program over the whole input and returns the slots of the
/// thread that matched, if one did.
pub fn search(insts: &[Inst], input: &[char]) -> (best: Option<Vec<Option<usize>>>)
    ensures
        match_view(best) == simulate(
            insts_view(insts@),
            input@,
            0,
            no_threads(insts@.len()),
            None,
        ),
{
    let ghost code = insts_view(insts@);
    let groups = count_groups(insts);
    let mut seen = blank_marks(insts.len());
    let mut list: Vec<Thread> = Vec::new();
    let mut best: Option<Vec<Option<usize>>> = None;
    let mut pos: usize = 0;
    assert(threads_of(seen@, list@) == no_threads(insts@.len())) by {
        assert(threads_view(list@) =~= Seq::empty());
    }
    let ghost goal = simulate(code, input@, 0, no_threads(insts@.len()), None);
    loop
        invariant_except_break
            pos <= input.len(),
            goal == simulate(code, input@, pos as nat, threads_of(seen@, list@), match_view(best)),
        invariant
            code == insts_view(insts@),
            groups == groups_of(code),
        ensures
            match_view(best) == goal,
        decreases input.len() - pos,
    {
        if best.is_none() {
            let start = Thread { pc: 0, slots: blank_slots(groups) };
            let mut stack: Vec<Thread> = Vec::new();
            stack.push(start);
            assert(threads_view(stack@) =~= seq![ThreadSpec { pc: 0, slots: fresh_slots(code) }]);
            follow_threads(insts, input, pos, &mut seen, &mut list, stack);
        }
        if list.len() == 0 && best.is_some() {
            break ;
        }
        let mut next_seen = blank_marks(insts.len());
        let mut next: Vec<Thread> = Vec::new();
        assert(threads_of(next_seen@, next@) == no_threads(code.len())) by {
            assert(threads_view(next@) =~= Seq::empty());
        }
        let matched = step_threads(insts, input, pos, &list, &mut next_seen, &mut next);
        if matched.is_some() {
            best = matched;
        }
        if pos >= input.len() {
            break ;
        }
        pos += 1;
        seen = next_seen;
        list = next;
    }
    best
}

/// Runs a program over an input and returns the span of every group in
/// character positions; with `captures` unset, the span of group 0 alone.
/// Without a match every span is absent.
pub fn run(insts: &[Inst], input: &[char], captures: bool) -> (r: Vec<Option<(usize, usize)>>)
    ensures
        spans_view(r@) == run_spec(insts_view(insts@), input@, captures),
{
    let ghost code = insts_view(insts@);
    let groups = count_groups(insts);
    let best = search(insts, input);
    let wanted: usize = if captures || groups == 0 {
        groups
    } else {
        1
    };
    let ghost all = spans_of(code, match_view(best));
    let mut r: Vec<Option<(usize, usize)>> = Vec::with_capacity(wanted);
    let mut g: usize = 0;
    while g < wanted
        invariant
            g <= wanted <= groups,
            groups == all.len(),
            all == spans_of(code, match_view(best)),
            r@.len() == g,
            spans_view(r@) == all.take(g as int),
        decreases wanted - g,
    {
        let span = match &best {
            Some(slots) => {
                if g < slots.len() / 2 {
                    match (slots[2 * g], slots[2 * g + 1]) {
                        (Some(s), Some(e)) => if s <= e {
                            Some((s, e))
                        } else {
                            None
                        },
                        _ => None,
                    }
                } else {
                    None
                }
            },
            None => None,
        };
        assert(span_view(span) == all[g as int]);
        r.push(span);
        assert(spans_view(r@) =~= all.take(g + 1));
        g += 1;
    }
    assert(all.take(all.len() as int) =~= all);
    r
}

} // verus!
