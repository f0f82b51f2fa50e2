//! The frame of a compiled program: group 0 opens before anything else and
//! closes right before the match, so that every other group lies inside it.

use vstd::prelude::*;
use crate::compile::{
    InstSpec,
    cat_code,
    cat_len,
    code,
    code_len,
    lemma_code_len,
    program_code,
    split_for,
};
use crate::bounds::{slots_within};
use crate::compile::{groups_of, slots_used};
use crate::parse::{AstSpec, Repeater};
use crate::search::{has_match};
use crate::vm::{
    Slots,
    ThreadSpec,
    ThreadsSpec,
    consumes,
    follow,
    fresh_slots,
    lemma_mark,
    no_threads,
    run_spec,
    save,
    simulate,
    span_of,
    spans_of,
    step,
    unmarked,
};

verus! {

/// Every group index in the tree is at least 1: index 0 is left to the
/// whole match.
pub open spec fn groups_positive(ast: AstSpec) -> bool
    decreases ast,
{
    match ast {
        AstSpec::Capture(cap, _, x) => cap >= 1 && groups_positive(*x),
        AstSpec::Cat(xs) => forall|i: int| 0 <= i < xs.len() ==> groups_positive(#[trigger] xs[i]),
        AstSpec::Alt(x, y) => groups_positive(*x) && groups_positive(*y),
        AstSpec::Rep(x, _, _) => groups_positive(*x),
        _ => true,
    }
}

/// An instruction that may stand inside the frame between `lo` and `hi`: it
/// saves neither slot of group 0, it does not match, and it transfers only
/// to instructions from `lo` up to `hi`.
pub open spec fn inner(inst: InstSpec, lo: nat, hi: nat) -> bool {
    match inst {
        InstSpec::Save(k) => k >= 2,
        InstSpec::Jump(t) => lo <= t <= hi,
        InstSpec::Split(a, b) => lo <= a <= hi && lo <= b <= hi,
        InstSpec::Match => false,
        _ => true,
    }
}

/// Every instruction of the sequence may stand inside the frame.
pub open spec fn all_inner(insts: Seq<InstSpec>, lo: nat, hi: nat) -> bool {
    forall|i: int| 0 <= i < insts.len() ==> inner(#[trigger] insts[i], lo, hi)
}

/// An instruction that may stand in a frame may stand in a wider one.
pub proof fn lemma_inner_wider(insts: Seq<InstSpec>, lo: nat, hi: nat, lo2: nat, hi2: nat)
    requires
        all_inner(insts, lo, hi),
        lo2 <= lo,
        hi <= hi2,
    ensures
        all_inner(insts, lo2, hi2),
{
    assert forall|i: int| 0 <= i < insts.len() implies inner(#[trigger] insts[i], lo2, hi2) by {
        assert(inner(insts[i], lo, hi));
    }
}

/// Sequences of instructions that may stand in a frame may do so in a row.
pub proof fn lemma_inner_concat(a: Seq<InstSpec>, b: Seq<InstSpec>, lo: nat, hi: nat)
    requires
        all_inner(a, lo, hi),
        all_inner(b, lo, hi),
    ensures
        all_inner(a + b, lo, hi),
{
    assert forall|i: int| 0 <= i < (a + b).len() implies inner(#[trigger] (a + b)[i], lo, hi) by {
        if i < a.len() {
            assert(inner(a[i], lo, hi));
        } else {
            assert(inner(b[i - a.len()], lo, hi));
        }
    }
}

/// The code of a tree whose groups have positive indices transfers only to
/// its own instructions and to the one behind them.
pub proof fn lemma_code_inner(ast: AstSpec, base: nat)
    requires
        groups_positive(ast),
    ensures
        all_inner(code(ast, base), base, base + code_len(ast)),
    decreases ast, 1nat, 0nat,
{
    let hi = base + code_len(ast);
    lemma_code_len(ast, base);
    match ast {
        AstSpec::Capture(cap, _, x) => {
            lemma_code_inner(*x, base + 1);
            lemma_code_len(*x, base + 1);
            lemma_inner_wider(code(*x, base + 1), base + 1, base + 1 + code_len(*x), base, hi);
            let open = seq![InstSpec::Save(2 * cap)];
            let close = seq![InstSpec::Save(2 * cap + 1)];
            lemma_inner_concat(open, code(*x, base + 1), base, hi);
            lemma_inner_concat(open + code(*x, base + 1), close, base, hi);
        },
        AstSpec::Cat(xs) => {
            lemma_cat_inner(xs, 0, base);
        },
        AstSpec::Alt(x, y) => {
            let second = base + 2 + code_len(*x);
            lemma_code_inner(*x, base + 1);
            lemma_code_inner(*y, second);
            lemma_inner_wider(code(*x, base + 1), base + 1, base + 1 + code_len(*x), base, hi);
            lemma_inner_wider(code(*y, second), second, second + code_len(*y), base, hi);
            let split = seq![InstSpec::Split(base + 1, second)];
            let jump = seq![InstSpec::Jump(second + code_len(*y))];
            lemma_inner_concat(split, code(*x, base + 1), base, hi);
            lemma_inner_concat(split + code(*x, base + 1), jump, base, hi);
            lemma_inner_concat(split + code(*x, base + 1) + jump, code(*y, second), base, hi);
        },
        AstSpec::Rep(x, Repeater::ZeroOne, g) => {
            lemma_code_inner(*x, base + 1);
            lemma_inner_wider(code(*x, base + 1), base + 1, base + 1 + code_len(*x), base, hi);
            let split = seq![split_for(g, base + 1, base + 1 + code_len(*x))];
            lemma_inner_concat(split, code(*x, base + 1), base, hi);
        },
        AstSpec::Rep(x, Repeater::ZeroMore, g) => {
            lemma_code_inner(*x, base + 1);
            lemma_inner_wider(code(*x, base + 1), base + 1, base + 1 + code_len(*x), base, hi);
            let split = seq![split_for(g, base + 1, base + 2 + code_len(*x))];
            let jump = seq![InstSpec::Jump(base)];
            lemma_inner_concat(split, code(*x, base + 1), base, hi);
            lemma_inner_concat(split + code(*x, base + 1), jump, base, hi);
        },
        AstSpec::Rep(x, Repeater::OneMore, g) => {
            lemma_code_inner(*x, base);
            lemma_inner_wider(code(*x, base), base, base + code_len(*x), base, hi);
            let split = seq![split_for(g, base, base + 1 + code_len(*x))];
            lemma_inner_concat(code(*x, base), split, base, hi);
        },
        _ => {},
    }
}

/// The same for the children of a sequence from the `i`-th on.
pub proof fn lemma_cat_inner(xs: Seq<AstSpec>, i: nat, base: nat)
    requires
        forall|k: int| 0 <= k < xs.len() ==> groups_positive(#[trigger] xs[k]),
    ensures
        all_inner(cat_code(xs, i, base), base, base + cat_len(xs, i)),
    decreases xs, 0nat, xs.len() - i,
{
    if i < xs.len() {
        let hi = base + cat_len(xs, i);
        let next = base + code_len(xs[i as int]);
        assert(groups_positive(xs[i as int]));
        lemma_code_inner(xs[i as int], base);
        lemma_cat_inner(xs, i + 1, next);
        lemma_inner_wider(code(xs[i as int], base), base, next, base, hi);
        lemma_inner_wider(cat_code(xs, i + 1, next), next, next + cat_len(xs, i + 1), base, hi);
        lemma_inner_concat(code(xs[i as int], base), cat_code(xs, i + 1, next), base, hi);
    }
}

/// A program is framed when it starts by saving slot 0 and ends by saving
/// slot 1 and matching, and everything between may stand in this frame.
pub open spec fn framed(code: Seq<InstSpec>) -> bool {
    &&& code.len() >= 3
    &&& code[0] == InstSpec::Save(0)
    &&& code[code.len() - 2] == InstSpec::Save(1)
    &&& code[code.len() - 1] == InstSpec::Match
    &&& forall|pc: int|
        1 <= pc < code.len() - 2 ==> inner(#[trigger] code[pc], 1, (code.len() - 2) as nat)
}

/// The program of a tree whose groups have positive indices is framed.
pub proof fn lemma_program_framed(ast: AstSpec)
    requires
        groups_positive(ast),
    ensures
        framed(program_code(ast)),
{
    let body = code(ast, 1);
    let program = program_code(ast);
    lemma_code_len(ast, 1);
    lemma_code_inner(ast, 1);
    assert forall|pc: int| 1 <= pc < program.len() - 2 implies inner(
        #[trigger] program[pc],
        1,
        (program.len() - 2) as nat,
    ) by {
        assert(program[pc] == body[pc - 1]);
        assert(inner(body[pc - 1], 1, 1 + code_len(ast)));
    }
}

/// Group 0 has opened, and nothing was saved before it opened.
pub open spec fn opened(slots: Slots) -> bool {
    &&& slots.len() >= 2
    &&& slots[0] is Some
    &&& forall|k: int|
        0 <= k < slots.len() ==> (#[trigger] slots[k]) is Some ==> slots[0]->0 <= slots[k]->0
}

/// What holds of a thread of a framed program at position `pos`: it has
/// saved nothing behind `pos`; before its first instruction it has saved
/// nothing at all; behind it group 0 has opened; and at the last
/// instruction group 0 has closed at `pos`.
pub open spec fn good(code: Seq<InstSpec>, t: ThreadSpec, pos: nat) -> bool {
    &&& t.slots.len() >= 2
    &&& slots_within(t.slots, pos)
    &&& t.pc == 0 ==> forall|k: int| 0 <= k < t.slots.len() ==> (#[trigger] t.slots[k]) is None
    &&& 1 <= t.pc < code.len() ==> opened(t.slots)
    &&& t.pc == code.len() - 1 ==> t.slots[1] == Some(pos)
}

/// The same of every thread of a list.
pub open spec fn all_good(code: Seq<InstSpec>, list: Seq<ThreadSpec>, pos: nat) -> bool {
    forall|i: int| 0 <= i < list.len() ==> good(code, #[trigger] list[i], pos)
}

/// What holds of the slots of a thread that matched: group 0 has opened and
/// closed, and nothing was saved before it opened or behind where it closed.
pub open spec fn won(slots: Slots) -> bool {
    &&& opened(slots)
    &&& slots[1] is Some
    &&& forall|k: int|
        0 <= k < slots.len() ==> (#[trigger] slots[k]) is Some ==> slots[k]->0 <= slots[1]->0
}

/// Adding threads keeps the list good.
pub proof fn lemma_follow_good(
    code: Seq<InstSpec>,
    input: Seq<char>,
    pos: nat,
    th: ThreadsSpec,
    stack: Seq<ThreadSpec>,
)
    requires
        framed(code),
        all_good(code, th.list, pos),
        all_good(code, stack, pos),
    ensures
        all_good(code, follow(code, input, pos, th, stack).list, pos),
    decreases unmarked(th.seen), stack.len(),
{
    if stack.len() > 0 {
        let t = stack.last();
        let rest = stack.drop_last();
        assert(good(code, t, pos));
        assert(all_good(code, rest, pos)) by {
            assert forall|i: int| 0 <= i < rest.len() implies good(code, #[trigger] rest[i], pos) by {
                assert(rest[i] == stack[i]);
            }
        }
        if t.pc >= th.seen.len() || t.pc >= code.len() || th.seen[t.pc as int] {
            lemma_follow_good(code, input, pos, th, rest);
        } else {
            lemma_mark(th.seen, t.pc as int);
            let seen = th.seen.update(t.pc as int, true);
            let marked = ThreadsSpec { seen, list: th.list };
            let inst = code[t.pc as int];
            let n = code.len();
            if 1 <= t.pc < n - 2 {
                assert(inner(inst, 1, (n - 2) as nat));
            }
            match inst {
                InstSpec::Jump(to) => {
                    let next = ThreadSpec { pc: to, slots: t.slots };
                    assert(good(code, next, pos));
                    lemma_push_good(code, rest, next, pos);
                    lemma_follow_good(code, input, pos, marked, rest.push(next));
                },
                InstSpec::Split(a, b) => {
                    let second = ThreadSpec { pc: b, slots: t.slots };
                    let first = ThreadSpec { pc: a, slots: t.slots };
                    assert(good(code, second, pos));
                    assert(good(code, first, pos));
                    lemma_push_good(code, rest, second, pos);
                    lemma_push_good(code, rest.push(second), first, pos);
                    lemma_follow_good(code, input, pos, marked, rest.push(second).push(first));
                },
                InstSpec::Save(k) => {
                    let next = ThreadSpec { pc: t.pc + 1, slots: save(t.slots, k, pos) };
                    assert(good(code, next, pos)) by {
                        if t.pc == 0 {
                            assert(k == 0);
                        } else if t.pc == n - 2 {
                            assert(k == 1);
                        } else {
                            assert(k >= 2);
                        }
                    }
                    lemma_push_good(code, rest, next, pos);
                    lemma_follow_good(code, input, pos, marked, rest.push(next));
                },
                InstSpec::EmptyBegin(_) | InstSpec::EmptyEnd(_) | InstSpec::EmptyWordBoundary(
                    _,
                ) => {
                    let next = ThreadSpec { pc: t.pc + 1, slots: t.slots };
                    assert(good(code, next, pos));
                    lemma_push_good(code, rest, next, pos);
                    lemma_follow_good(code, input, pos, marked, rest.push(next));
                    lemma_follow_good(code, input, pos, marked, rest);
                },
                _ => {
                    lemma_push_good(code, th.list, t, pos);
                    lemma_follow_good(
                        code,
                        input,
                        pos,
                        ThreadsSpec { seen, list: th.list.push(t) },
                        rest,
                    );
                },
            }
        }
    }
}

/// A good list with one more good thread is good.
pub proof fn lemma_push_good(code: Seq<InstSpec>, list: Seq<ThreadSpec>, t: ThreadSpec, pos: nat)
    requires
        all_good(code, list, pos),
        good(code, t, pos),
    ensures
        all_good(code, list.push(t), pos),
{
    assert forall|i: int| 0 <= i < list.push(t).len() implies good(
        code,
        #[trigger] list.push(t)[i],
        pos,
    ) by {
        if i < list.len() {
            assert(list.push(t)[i] == list[i]);
        }
    }
}

/// A step over a good list leaves a good list for the next position, and
/// the slots of a thread that matched are those of a thread that won.
pub proof fn lemma_step_good(
    code: Seq<InstSpec>,
    input: Seq<char>,
    pos: nat,
    list: Seq<ThreadSpec>,
    i: nat,
    next: ThreadsSpec,
)
    requires
        framed(code),
        all_good(code, list, pos),
        all_good(code, next.list, pos + 1),
    ensures
        all_good(code, step(code, input, pos, list, i, next).next.list, pos + 1),
        step(code, input, pos, list, i, next).matched is Some ==> won(
            step(code, input, pos, list, i, next).matched->0,
        ),
    decreases list.len() - i,
{
    if i < list.len() {
        let t = list[i as int];
        let n = code.len();
        assert(good(code, t, pos));
        if t.pc >= code.len() {
            lemma_step_good(code, input, pos, list, i + 1, next);
        } else if code[t.pc as int] is Match {
            if 1 <= t.pc < n - 2 {
                assert(inner(code[t.pc as int], 1, (n - 2) as nat));
            }
            assert(t.pc == n - 1);
            assert(won(t.slots));
        } else if pos < input.len() && consumes(code[t.pc as int], input[pos as int]) {
            let start = ThreadSpec { pc: t.pc + 1, slots: t.slots };
            assert(1 <= t.pc < n - 2);
            assert(good(code, start, pos + 1));
            assert(all_good(code, seq![start], pos + 1));
            lemma_follow_good(code, input, pos + 1, next, seq![start]);
            lemma_step_good(
                code,
                input,
                pos,
                list,
                i + 1,
                follow(code, input, pos + 1, next, seq![start]),
            );
        } else {
            lemma_step_good(code, input, pos, list, i + 1, next);
        }
    }
}

/// A framed program has at least one group.
pub proof fn lemma_framed_has_group(code: Seq<InstSpec>)
    requires
        framed(code),
    ensures
        groups_of(code) >= 1,
{
    lemma_slots_used_grows(code, (code.len() - 1) as nat, code.len());
}

/// The count of slots in use does not shrink when more instructions are
/// counted, and it covers every slot that is saved.
pub proof fn lemma_slots_used_grows(code: Seq<InstSpec>, m: nat, n: nat)
    requires
        1 <= m <= n <= code.len(),
    ensures
        slots_used(code, m) <= slots_used(code, n),
        code[m - 1] is Save ==> code[m - 1]->Save_0 < slots_used(code, m),
    decreases n - m,
{
    if m < n {
        lemma_slots_used_grows(code, m, (n - 1) as nat);
    }
}

/// The slots with which a simulation of a framed program ends are those of
/// a thread that won.
pub proof fn lemma_simulate_good(
    code: Seq<InstSpec>,
    input: Seq<char>,
    pos: nat,
    arrived: ThreadsSpec,
    best: Option<Slots>,
)
    requires
        framed(code),
        pos <= input.len(),
        all_good(code, arrived.list, pos),
        best is Some ==> won(best->0),
    ensures
        simulate(code, input, pos, arrived, best) is Some ==> won(
            simulate(code, input, pos, arrived, best)->0,
        ),
    decreases input.len() - pos,
{
    let start = ThreadSpec { pc: 0, slots: fresh_slots(code) };
    lemma_framed_has_group(code);
    assert(good(code, start, pos));
    assert(all_good(code, seq![start], pos));
    let current = if best is None {
        lemma_follow_good(code, input, pos, arrived, seq![start]);
        follow(code, input, pos, arrived, seq![start])
    } else {
        arrived
    };
    if current.list.len() == 0 && best is Some {
    } else {
        let blank = no_threads(code.len());
        assert(all_good(code, blank.list, pos + 1));
        lemma_step_good(code, input, pos, current.list, 0, blank);
        let out = step(code, input, pos, current.list, 0, blank);
        let better = if out.matched is Some {
            out.matched
        } else {
            best
        };
        if pos < input.len() {
            lemma_simulate_good(code, input, pos + 1, out.next, better);
        }
    }
}

/// Group 0 spans the whole match and every other group lies inside it: with
/// a framed program, whenever a thread matches, group 0 is present, and the
/// span of every group that is present lies between the start and the end
/// of group 0.
pub proof fn law_groups_inside_match(code: Seq<InstSpec>, input: Seq<char>)
    requires
        framed(code),
    ensures
        simulate(code, input, 0, no_threads(code.len()), None) is Some <==> has_match(
            run_spec(code, input, true),
        ),
        forall|g: int|
            0 <= g < run_spec(code, input, true).len() ==> (#[trigger] run_spec(
                code,
                input,
                true,
            )[g]) is Some ==> {
                let spans = run_spec(code, input, true);
                &&& has_match(spans)
                &&& (spans[0]->0).0 <= (spans[g]->0).0
                &&& (spans[g]->0).1 <= (spans[0]->0).1
            },
{
    let blank = no_threads(code.len());
    assert(all_good(code, blank.list, 0));
    lemma_simulate_good(code, input, 0, blank, None);
    lemma_framed_has_group(code);
    let matched = simulate(code, input, 0, blank, None);
    let spans = run_spec(code, input, true);
    assert(spans == spans_of(code, matched));
    if matched is Some {
        let slots = matched->0;
        assert(won(slots));
        assert(slots[0] is Some && slots[1] is Some);
        assert(span_of(slots, 0) is Some);
        assert forall|g: int| 0 <= g < spans.len() && (#[trigger] spans[g]) is Some implies ({
            &&& (spans[0]->0).0 <= (spans[g]->0).0
            &&& (spans[g]->0).1 <= (spans[0]->0).1
        }) by {
            assert(slots[2 * g] is Some);
            assert(slots[2 * g + 1] is Some);
        }
    }
}

} // verus!
