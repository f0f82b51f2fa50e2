//! The nesting of groups in a compiled program: a thread enters the code of
//! a group only through the instruction that saves its start and leaves it
//! only through the instruction that saves its end, so that a group whose
//! end is saved starts no later than it ends.

use vstd::prelude::*;
use crate::compile::{InstSpec, cat_code, cat_len, code, code_len, lemma_cat_code_len, lemma_code_len};
use crate::bounds::slots_within;
use crate::compile::program_code;
use crate::frame::{groups_positive, inner, lemma_code_inner, lemma_program_framed};
use crate::grammar::parse_spec;
use crate::numbering::law_parsed_groups_positive;
use crate::vm::{
    Slots,
    ThreadSpec,
    ThreadsSpec,
    consumes,
    follow,
    fresh_slots,
    lemma_mark,
    no_threads,
    save,
    simulate,
    span_of,
    step,
    unmarked,
};
use crate::parse::{AstSpec, Repeater};

verus! {

/// Whether the instruction at `pc` stands inside group `g` of the tree
/// whose code starts at `base`: behind the instruction that saves the start
/// of the group, and not behind the one that saves its end.
pub open spec fn inside(ast: AstSpec, base: nat, g: nat, pc: nat) -> bool
    decreases ast,
{
    match ast {
        AstSpec::Capture(cap, _, x) => (cap == g && base < pc <= base + 1 + code_len(*x))
            || inside(*x, base + 1, g, pc),
        AstSpec::Cat(xs) => cat_inside(xs, 0, base, g, pc),
        AstSpec::Alt(x, y) => inside(*x, base + 1, g, pc) || inside(
            *y,
            base + 2 + code_len(*x),
            g,
            pc,
        ),
        AstSpec::Rep(x, Repeater::OneMore, _) => inside(*x, base, g, pc),
        AstSpec::Rep(x, _, _) => inside(*x, base + 1, g, pc),
        _ => false,
    }
}

/// The same for the children of a sequence from the `i`-th on.
pub open spec fn cat_inside(xs: Seq<AstSpec>, i: nat, base: nat, g: nat, pc: nat) -> bool
    decreases xs, xs.len() - i,
{
    i < xs.len() && (inside(xs[i as int], base, g, pc) || cat_inside(
        xs,
        i + 1,
        base + code_len(xs[i as int]),
        g,
        pc,
    ))
}

/// What stands inside a group of a tree stands strictly between the first
/// instruction of the tree and the one behind its last.
pub proof fn lemma_inside_local(ast: AstSpec, base: nat, g: nat, pc: nat)
    requires
        inside(ast, base, g, pc),
    ensures
        base < pc < base + code_len(ast),
    decreases ast, 1nat, 0nat,
{
    match ast {
        AstSpec::Capture(cap, _, x) => {
            if inside(*x, base + 1, g, pc) {
                lemma_inside_local(*x, base + 1, g, pc);
            }
        },
        AstSpec::Cat(xs) => {
            lemma_cat_inside_local(xs, 0, base, g, pc);
        },
        AstSpec::Alt(x, y) => {
            if inside(*x, base + 1, g, pc) {
                lemma_inside_local(*x, base + 1, g, pc);
            } else {
                lemma_inside_local(*y, base + 2 + code_len(*x), g, pc);
            }
        },
        AstSpec::Rep(x, Repeater::OneMore, _) => {
            lemma_inside_local(*x, base, g, pc);
        },
        AstSpec::Rep(x, _, _) => {
            lemma_inside_local(*x, base + 1, g, pc);
        },
        _ => {},
    }
}

/// The same for the children of a sequence from the `i`-th on.
pub proof fn lemma_cat_inside_local(xs: Seq<AstSpec>, i: nat, base: nat, g: nat, pc: nat)
    requires
        cat_inside(xs, i, base, g, pc),
    ensures
        base < pc < base + cat_len(xs, i),
    decreases xs, 0nat, xs.len() - i,
{
    if inside(xs[i as int], base, g, pc) {
        lemma_inside_local(xs[i as int], base, g, pc);
    } else {
        lemma_cat_inside_local(xs, i + 1, base + code_len(xs[i as int]), g, pc);
    }
}

/// Nothing outside the instructions of a tree stands inside one of its
/// groups.
pub proof fn lemma_outside(ast: AstSpec, base: nat, g: nat, pc: nat)
    requires
        pc <= base || pc >= base + code_len(ast),
    ensures
        !inside(ast, base, g, pc),
{
    if inside(ast, base, g, pc) {
        lemma_inside_local(ast, base, g, pc);
    }
}

/// The same for the children of a sequence from the `i`-th on.
pub proof fn lemma_cat_outside(xs: Seq<AstSpec>, i: nat, base: nat, g: nat, pc: nat)
    requires
        pc <= base || pc >= base + cat_len(xs, i),
    ensures
        !cat_inside(xs, i, base, g, pc),
{
    if cat_inside(xs, i, base, g, pc) {
        lemma_cat_inside_local(xs, i, base, g, pc);
    }
}

/// Whether a thread at the instruction `inst`, which stands at `pc`, can
/// continue at `next`.
pub open spec fn steps_to(inst: InstSpec, pc: nat, next: nat) -> bool {
    match inst {
        InstSpec::Jump(t) => next == t,
        InstSpec::Split(a, b) => next == a || next == b,
        InstSpec::Match => false,
        _ => next == pc + 1,
    }
}

/// What holds of a step from an instruction to the next with respect to a
/// group `g`, given whether the two stand inside the group: the step enters
/// the group only by saving its start and leaves it only by saving its end;
/// an instruction that saves the start is followed by one inside the group,
/// and one that saves the end stands inside it.
pub open spec fn crossing_ok(inst: InstSpec, g: nat, here: bool, there: bool) -> bool {
    &&& there && !here ==> inst == InstSpec::Save(2 * g)
    &&& !there && here ==> inst == InstSpec::Save(2 * g + 1)
    &&& inst == InstSpec::Save(2 * g) ==> there
    &&& inst == InstSpec::Save(2 * g + 1) ==> here
}

/// Every step inside the code of a tree stays in the code or leads to the
/// instruction behind it, and crosses the bounds of the groups of the tree
/// only where their starts and ends are saved.
pub proof fn lemma_steps(ast: AstSpec, base: nat, g: nat, i: nat, next: nat)
    requires
        groups_positive(ast),
        i < code_len(ast),
        steps_to(code(ast, base)[i as int], base + i, next),
    ensures
        base <= next <= base + code_len(ast),
        crossing_ok(
            code(ast, base)[i as int],
            g,
            inside(ast, base, g, base + i),
            inside(ast, base, g, next),
        ),
    decreases ast, 1nat, 0nat,
{
    let pc = base + i;
    lemma_code_len(ast, base);
    lemma_code_inner(ast, base);
    assert(inner(code(ast, base)[i as int], base, base + code_len(ast)));
    match ast {
        AstSpec::Capture(cap, _, x) => {
            lemma_code_len(*x, base + 1);
            lemma_outside(*x, base + 1, g, base);
            lemma_outside(*x, base + 1, g, base + 1);
            lemma_outside(*x, base + 1, g, base + 1 + code_len(*x));
            lemma_outside(*x, base + 1, g, base + 2 + code_len(*x));
            if 1 <= i <= code_len(*x) {
                assert(code(ast, base)[i as int] == code(*x, base + 1)[i - 1]);
                lemma_steps(*x, base + 1, g, (i - 1) as nat, next);
                lemma_code_inner(*x, base + 1);
                assert(inner(code(*x, base + 1)[i - 1], base + 1, base + 1 + code_len(*x)));
            }
        },
        AstSpec::Cat(xs) => {
            lemma_cat_steps(xs, 0, base, g, i, next);
        },
        AstSpec::Alt(x, y) => {
            let second = base + 2 + code_len(*x);
            lemma_code_len(*x, base + 1);
            lemma_code_len(*y, second);
            if 1 <= i <= code_len(*x) {
                assert(code(ast, base)[i as int] == code(*x, base + 1)[i - 1]);
                lemma_steps(*x, base + 1, g, (i - 1) as nat, next);
                lemma_outside(*y, second, g, pc);
                lemma_outside(*y, second, g, next);
            } else if i >= code_len(*x) + 2 {
                assert(code(ast, base)[i as int] == code(*y, second)[i - code_len(*x) - 2]);
                lemma_steps(*y, second, g, (i - code_len(*x) - 2) as nat, next);
                lemma_outside(*x, base + 1, g, pc);
                lemma_outside(*x, base + 1, g, next);
            } else {
                lemma_outside(*x, base + 1, g, pc);
                lemma_outside(*x, base + 1, g, next);
                lemma_outside(*y, second, g, pc);
                lemma_outside(*y, second, g, next);
            }
        },
        AstSpec::Rep(x, Repeater::OneMore, _) => {
            lemma_code_len(*x, base);
            if i < code_len(*x) {
                assert(code(ast, base)[i as int] == code(*x, base)[i as int]);
                lemma_steps(*x, base, g, i, next);
            } else {
                lemma_outside(*x, base, g, pc);
                lemma_outside(*x, base, g, next);
            }
        },
        AstSpec::Rep(x, Repeater::ZeroOne, _) => {
            lemma_code_len(*x, base + 1);
            if 1 <= i {
                assert(code(ast, base)[i as int] == code(*x, base + 1)[i - 1]);
                lemma_steps(*x, base + 1, g, (i - 1) as nat, next);
            } else {
                lemma_outside(*x, base + 1, g, pc);
                lemma_outside(*x, base + 1, g, next);
            }
        },
        AstSpec::Rep(x, Repeater::ZeroMore, _) => {
            lemma_code_len(*x, base + 1);
            if 1 <= i <= code_len(*x) {
                assert(code(ast, base)[i as int] == code(*x, base + 1)[i - 1]);
                lemma_steps(*x, base + 1, g, (i - 1) as nat, next);
            } else {
                lemma_outside(*x, base + 1, g, pc);
                lemma_outside(*x, base + 1, g, next);
            }
        },
        _ => {},
    }
}

/// The same for the children of a sequence from the `k`-th on.
pub proof fn lemma_cat_steps(xs: Seq<AstSpec>, k: nat, base: nat, g: nat, i: nat, next: nat)
    requires
        forall|j: int| 0 <= j < xs.len() ==> groups_positive(#[trigger] xs[j]),
        i < cat_len(xs, k),
        steps_to(cat_code(xs, k, base)[i as int], base + i, next),
    ensures
        base <= next <= base + cat_len(xs, k),
        crossing_ok(
            cat_code(xs, k, base)[i as int],
            g,
            cat_inside(xs, k, base, g, base + i),
            cat_inside(xs, k, base, g, next),
        ),
    decreases xs, 0nat, xs.len() - k,
{
    let pc = base + i;
    let first = xs[k as int];
    let rest = base + code_len(first);
    lemma_code_len(first, base);
    lemma_cat_code_len(xs, k + 1, rest);
    assert(groups_positive(first));
    if i < code_len(first) {
        assert(cat_code(xs, k, base)[i as int] == code(first, base)[i as int]);
        lemma_steps(first, base, g, i, next);
        lemma_cat_outside(xs, k + 1, rest, g, pc);
        lemma_cat_outside(xs, k + 1, rest, g, next);
    } else {
        assert(cat_code(xs, k, base)[i as int] == cat_code(xs, k + 1, rest)[i - code_len(first)]);
        lemma_cat_steps(xs, k + 1, rest, g, (i - code_len(first)) as nat, next);
        lemma_outside(first, base, g, pc);
        lemma_outside(first, base, g, next);
    }
}

/// Whether the instruction at `pc` of the program of a tree stands inside
/// group `g`. Group 0 holds everything behind the first instruction up to
/// the one that saves its end.
pub open spec fn within_group(tree: AstSpec, g: nat, pc: nat) -> bool {
    if g == 0 {
        0 < pc <= code_len(tree) + 1
    } else {
        inside(tree, 1, g, pc)
    }
}

/// Every step in the program of a tree crosses the bounds of a group only
/// where its start and its end are saved.
pub proof fn lemma_program_steps(tree: AstSpec, g: nat, pc: nat, next: nat)
    requires
        groups_positive(tree),
        pc < program_code(tree).len(),
        steps_to(program_code(tree)[pc as int], pc, next),
    ensures
        crossing_ok(
            program_code(tree)[pc as int],
            g,
            within_group(tree, g, pc),
            within_group(tree, g, next),
        ),
{
    let program = program_code(tree);
    let len = code_len(tree);
    lemma_code_len(tree, 1);
    lemma_code_inner(tree, 1);
    lemma_outside(tree, 1, g, 0);
    lemma_outside(tree, 1, g, 1);
    lemma_outside(tree, 1, g, len + 1);
    lemma_outside(tree, 1, g, len + 2);
    if 1 <= pc <= len {
        assert(program[pc as int] == code(tree, 1)[pc - 1]);
        assert(inner(code(tree, 1)[pc - 1], 1, 1 + len));
        lemma_steps(tree, 1, g, (pc - 1) as nat, next);
    }
}

/// What holds of a thread with respect to group `g`: inside the group its
/// start is saved; outside, if its end is saved, so is its start, and the
/// start is no later than the end.
pub open spec fn group_kept(tree: AstSpec, g: nat, t: ThreadSpec) -> bool {
    let start = t.slots[(2 * g) as int];
    let end = t.slots[(2 * g + 1) as int];
    if within_group(tree, g, t.pc) {
        start is Some
    } else {
        end is Some ==> start is Some && start->0 <= end->0
    }
}

/// What holds of a thread of the program of a tree at position `pos`: it
/// has saved nothing behind `pos`, and it keeps every group.
pub open spec fn nested(tree: AstSpec, t: ThreadSpec, pos: nat) -> bool {
    &&& slots_within(t.slots, pos)
    &&& forall|g: nat| 2 * g + 1 < t.slots.len() ==> #[trigger] group_kept(tree, g, t)
}

/// The same of every thread of a list.
pub open spec fn all_nested(tree: AstSpec, list: Seq<ThreadSpec>, pos: nat) -> bool {
    forall|i: int| 0 <= i < list.len() ==> nested(tree, #[trigger] list[i], pos)
}

/// Every group whose end is saved has its start saved, no later than its
/// end.
pub open spec fn settled(slots: Slots) -> bool {
    forall|g: nat|
        2 * g + 1 < slots.len() ==> (#[trigger] slots[(2 * g + 1) as int]) is Some ==> slots[(2 * g) as int]
            is Some && slots[(2 * g) as int]->0 <= slots[(2 * g + 1) as int]->0
}

/// A thread that steps to another instruction without saving stays nested.
pub proof fn lemma_moved_nested(tree: AstSpec, t: ThreadSpec, next: nat, pos: nat, later: nat)
    requires
        groups_positive(tree),
        nested(tree, t, pos),
        pos <= later,
        t.pc < program_code(tree).len(),
        !(program_code(tree)[t.pc as int] is Save),
        steps_to(program_code(tree)[t.pc as int], t.pc, next),
    ensures
        nested(tree, ThreadSpec { pc: next, slots: t.slots }, later),
{
    let moved = ThreadSpec { pc: next, slots: t.slots };
    assert forall|g: nat| 2 * g + 1 < moved.slots.len() implies #[trigger] group_kept(
        tree,
        g,
        moved,
    ) by {
        assert(group_kept(tree, g, t));
        lemma_program_steps(tree, g, t.pc, next);
    }
}

/// A thread that saves the position and steps on stays nested.
pub proof fn lemma_saved_nested(tree: AstSpec, t: ThreadSpec, k: nat, pos: nat)
    requires
        groups_positive(tree),
        nested(tree, t, pos),
        t.pc < program_code(tree).len(),
        program_code(tree)[t.pc as int] == InstSpec::Save(k),
    ensures
        nested(tree, ThreadSpec { pc: t.pc + 1, slots: save(t.slots, k, pos) }, pos),
{
    let moved = ThreadSpec { pc: t.pc + 1, slots: save(t.slots, k, pos) };
    assert forall|g: nat| 2 * g + 1 < moved.slots.len() implies #[trigger] group_kept(
        tree,
        g,
        moved,
    ) by {
        assert(group_kept(tree, g, t));
        lemma_program_steps(tree, g, t.pc, t.pc + 1);
        if t.slots[(2 * g) as int] is Some {
            assert(t.slots[(2 * g) as int]->0 <= pos);
        }
    }
}

/// A nested list with one more nested thread is nested.
pub proof fn lemma_push_nested(tree: AstSpec, list: Seq<ThreadSpec>, t: ThreadSpec, pos: nat)
    requires
        all_nested(tree, list, pos),
        nested(tree, t, pos),
    ensures
        all_nested(tree, list.push(t), pos),
{
    assert forall|i: int| 0 <= i < list.push(t).len() implies nested(
        tree,
        #[trigger] list.push(t)[i],
        pos,
    ) by {
        if i < list.len() {
            assert(list.push(t)[i] == list[i]);
        }
    }
}

/// Adding threads keeps the list nested.
pub proof fn lemma_follow_nested(
    tree: AstSpec,
    input: Seq<char>,
    pos: nat,
    th: ThreadsSpec,
    stack: Seq<ThreadSpec>,
)
    requires
        groups_positive(tree),
        all_nested(tree, th.list, pos),
        all_nested(tree, stack, pos),
    ensures
        all_nested(tree, follow(program_code(tree), input, pos, th, stack).list, pos),
    decreases unmarked(th.seen), stack.len(),
{
    let code = program_code(tree);
    if stack.len() > 0 {
        let t = stack.last();
        let rest = stack.drop_last();
        assert(nested(tree, t, pos));
        assert(all_nested(tree, rest, pos)) by {
            assert forall|i: int| 0 <= i < rest.len() implies nested(
                tree,
                #[trigger] rest[i],
                pos,
            ) by {
                assert(rest[i] == stack[i]);
            }
        }
        if t.pc >= th.seen.len() || t.pc >= code.len() || th.seen[t.pc as int] {
            lemma_follow_nested(tree, input, pos, th, rest);
        } else {
            lemma_mark(th.seen, t.pc as int);
            let seen = th.seen.update(t.pc as int, true);
            let marked = ThreadsSpec { seen, list: th.list };
            let inst = code[t.pc as int];
            match inst {
                InstSpec::Jump(to) => {
                    let next = ThreadSpec { pc: to, slots: t.slots };
                    lemma_moved_nested(tree, t, to, pos, pos);
                    lemma_push_nested(tree, rest, next, pos);
                    lemma_follow_nested(tree, input, pos, marked, rest.push(next));
                },
                InstSpec::Split(a, b) => {
                    let second = ThreadSpec { pc: b, slots: t.slots };
                    let first = ThreadSpec { pc: a, slots: t.slots };
                    lemma_moved_nested(tree, t, a, pos, pos);
                    lemma_moved_nested(tree, t, b, pos, pos);
                    lemma_push_nested(tree, rest, second, pos);
                    lemma_push_nested(tree, rest.push(second), first, pos);
                    lemma_follow_nested(tree, input, pos, marked, rest.push(second).push(first));
                },
                InstSpec::Save(k) => {
                    let next = ThreadSpec { pc: t.pc + 1, slots: save(t.slots, k, pos) };
                    lemma_saved_nested(tree, t, k, pos);
                    lemma_push_nested(tree, rest, next, pos);
                    lemma_follow_nested(tree, input, pos, marked, rest.push(next));
                },
                InstSpec::EmptyBegin(_) | InstSpec::EmptyEnd(_) | InstSpec::EmptyWordBoundary(
                    _,
                ) => {
                    let next = ThreadSpec { pc: t.pc + 1, slots: t.slots };
                    lemma_moved_nested(tree, t, t.pc + 1, pos, pos);
                    lemma_push_nested(tree, rest, next, pos);
                    lemma_follow_nested(tree, input, pos, marked, rest.push(next));
                    lemma_follow_nested(tree, input, pos, marked, rest);
                },
                _ => {
                    lemma_push_nested(tree, th.list, t, pos);
                    lemma_follow_nested(
                        tree,
                        input,
                        pos,
                        ThreadsSpec { seen, list: th.list.push(t) },
                        rest,
                    );
                },
            }
        }
    }
}

/// A step over a nested list leaves a nested list for the next position,
/// and the slots of a thread that matched are settled.
pub proof fn lemma_step_nested(
    tree: AstSpec,
    input: Seq<char>,
    pos: nat,
    list: Seq<ThreadSpec>,
    i: nat,
    next: ThreadsSpec,
)
    requires
        groups_positive(tree),
        all_nested(tree, list, pos),
        all_nested(tree, next.list, pos + 1),
    ensures
        all_nested(tree, step(program_code(tree), input, pos, list, i, next).next.list, pos + 1),
        step(program_code(tree), input, pos, list, i, next).matched is Some ==> settled(
            step(program_code(tree), input, pos, list, i, next).matched->0,
        ),
    decreases list.len() - i,
{
    let code = program_code(tree);
    if i < list.len() {
        let t = list[i as int];
        assert(nested(tree, t, pos));
        if t.pc >= code.len() {
            lemma_step_nested(tree, input, pos, list, i + 1, next);
        } else if code[t.pc as int] is Match {
            lemma_program_framed(tree);
            lemma_code_len(tree, 1);
            if 1 <= t.pc < code.len() - 2 {
                assert(inner(code[t.pc as int], 1, (code.len() - 2) as nat));
            }
            assert(t.pc == code_len(tree) + 2);
            assert forall|g: nat| 2 * g + 1 < t.slots.len() && (#[trigger] t.slots[(2 * g + 1) as int]) is Some implies t.slots[(2 * g) as int] is Some && t.slots[(2 * g) as int]->0
                <= t.slots[(2 * g + 1) as int]->0 by {
                assert(group_kept(tree, g, t));
                lemma_outside(tree, 1, g, t.pc);
            }
        } else if pos < input.len() && consumes(code[t.pc as int], input[pos as int]) {
            let start = ThreadSpec { pc: t.pc + 1, slots: t.slots };
            lemma_moved_nested(tree, t, t.pc + 1, pos, pos + 1);
            assert(all_nested(tree, seq![start], pos + 1));
            lemma_follow_nested(tree, input, pos + 1, next, seq![start]);
            lemma_step_nested(
                tree,
                input,
                pos,
                list,
                i + 1,
                follow(code, input, pos + 1, next, seq![start]),
            );
        } else {
            lemma_step_nested(tree, input, pos, list, i + 1, next);
        }
    }
}

/// The slots with which a simulation of the program of a tree ends are
/// settled.
pub proof fn lemma_simulate_nested(
    tree: AstSpec,
    input: Seq<char>,
    pos: nat,
    arrived: ThreadsSpec,
    best: Option<Slots>,
)
    requires
        groups_positive(tree),
        pos <= input.len(),
        all_nested(tree, arrived.list, pos),
        best is Some ==> settled(best->0),
    ensures
        simulate(program_code(tree), input, pos, arrived, best) is Some ==> settled(
            simulate(program_code(tree), input, pos, arrived, best)->0,
        ),
    decreases input.len() - pos,
{
    let code = program_code(tree);
    let start = ThreadSpec { pc: 0, slots: fresh_slots(code) };
    assert(nested(tree, start, pos)) by {
        assert forall|g: nat| 2 * g + 1 < start.slots.len() implies #[trigger] group_kept(
            tree,
            g,
            start,
        ) by {
            lemma_outside(tree, 1, g, 0);
        }
    }
    assert(all_nested(tree, seq![start], pos));
    let current = if best is None {
        lemma_follow_nested(tree, input, pos, arrived, seq![start]);
        follow(code, input, pos, arrived, seq![start])
    } else {
        arrived
    };
    if current.list.len() == 0 && best is Some {
    } else {
        let blank = no_threads(code.len());
        assert(all_nested(tree, blank.list, pos + 1));
        lemma_step_nested(tree, input, pos, current.list, 0, blank);
        let out = step(code, input, pos, current.list, 0, blank);
        let better = if out.matched is Some {
            out.matched
        } else {
            best
        };
        if pos < input.len() {
            lemma_simulate_nested(tree, input, pos + 1, out.next, better);
        }
    }
}

/// With the program of an expression that the grammar accepts, a group is
/// absent from a match only if one of its slots was not saved: the start of
/// a group whose end is saved is saved too, and no later than the end.
pub proof fn law_saved_groups_have_spans(source: Seq<char>, input: Seq<char>, g: nat)
    requires
        parse_spec(source) is Ok,
    ensures
        ({
            let code = program_code(parse_spec(source)->Ok_0);
            let matched = simulate(code, input, 0, no_threads(code.len()), None);
            matched is Some && 2 * g + 1 < matched->0.len() && matched->0[(2 * g + 1) as int] is Some
                ==> span_of(matched->0, g as int) is Some
        }),
{
    let tree = parse_spec(source)->Ok_0;
    let code = program_code(tree);
    law_parsed_groups_positive(source);
    let blank = no_threads(code.len());
    assert(all_nested(tree, blank.list, 0));
    lemma_simulate_nested(tree, input, 0, blank, None);
    let matched = simulate(code, input, 0, blank, None);
    if matched is Some && 2 * g + 1 < matched->0.len() && matched->0[(2 * g + 1) as int] is Some {
        assert(settled(matched->0));
    }
}

} // verus!
