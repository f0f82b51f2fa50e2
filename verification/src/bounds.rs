//! What holds of the positions that the machine reports, whatever the
//! program.

use vstd::prelude::*;
use crate::compile::InstSpec;
use crate::vm::{
    Slots,
    ThreadSpec,
    ThreadsSpec,
    follow,
    fresh_slots,
    lemma_mark,
    no_threads,
    run_spec,
    save,
    simulate,
    spans_of,
    step,
    unmarked,
};

verus! {

/// No slot holds a position behind `pos`.
pub open spec fn slots_within(slots: Slots, pos: nat) -> bool {
    forall|k: int| 0 <= k < slots.len() ==> (#[trigger] slots[k]) is Some ==> slots[k]->0 <= pos
}

/// No thread of the list holds a position behind `pos`.
pub open spec fn threads_within(list: Seq<ThreadSpec>, pos: nat) -> bool {
    forall|i: int| 0 <= i < list.len() ==> slots_within((#[trigger] list[i]).slots, pos)
}

/// Threads that are added at a position hold no position behind it, if
/// they held none before.
pub proof fn lemma_follow_within(
    code: Seq<InstSpec>,
    input: Seq<char>,
    pos: nat,
    th: ThreadsSpec,
    stack: Seq<ThreadSpec>,
)
    requires
        threads_within(th.list, pos),
        threads_within(stack, pos),
    ensures
        threads_within(follow(code, input, pos, th, stack).list, pos),
    decreases unmarked(th.seen), stack.len(),
{
    if stack.len() > 0 {
        let t = stack.last();
        let rest = stack.drop_last();
        assert(slots_within(t.slots, pos));
        assert(threads_within(rest, pos));
        if t.pc >= th.seen.len() || t.pc >= code.len() || th.seen[t.pc as int] {
            lemma_follow_within(code, input, pos, th, rest);
        } else {
            lemma_mark(th.seen, t.pc as int);
            let seen = th.seen.update(t.pc as int, true);
            let marked = ThreadsSpec { seen, list: th.list };
            match code[t.pc as int] {
                InstSpec::Jump(to) => {
                    lemma_follow_within(
                        code,
                        input,
                        pos,
                        marked,
                        rest.push(ThreadSpec { pc: to, slots: t.slots }),
                    );
                },
                InstSpec::Split(a, b) => {
                    lemma_follow_within(
                        code,
                        input,
                        pos,
                        marked,
                        rest.push(ThreadSpec { pc: b, slots: t.slots }).push(
                            ThreadSpec { pc: a, slots: t.slots },
                        ),
                    );
                },
                InstSpec::Save(k) => {
                    assert(slots_within(save(t.slots, k, pos), pos));
                    lemma_follow_within(
                        code,
                        input,
                        pos,
                        marked,
                        rest.push(ThreadSpec { pc: t.pc + 1, slots: save(t.slots, k, pos) }),
                    );
                },
                InstSpec::EmptyBegin(_) | InstSpec::EmptyEnd(_) | InstSpec::EmptyWordBoundary(
                    _,
                ) => {
                    lemma_follow_within(
                        code,
                        input,
                        pos,
                        marked,
                        rest.push(ThreadSpec { pc: t.pc + 1, slots: t.slots }),
                    );
                    lemma_follow_within(code, input, pos, marked, rest);
                },
                _ => {
                    lemma_follow_within(
                        code,
                        input,
                        pos,
                        ThreadsSpec { seen, list: th.list.push(t) },
                        rest,
                    );
                },
            }
        }
    }
}

/// Slots that hold no position behind `pos` hold none behind a later one.
pub proof fn lemma_within_later(slots: Slots, pos: nat, later: nat)
    requires
        slots_within(slots, pos),
        pos <= later,
    ensures
        slots_within(slots, later),
{
}

/// A step at `pos` leaves a list for the next position that holds no
/// position behind it, and a match that holds none behind `pos`.
pub proof fn lemma_step_within(
    code: Seq<InstSpec>,
    input: Seq<char>,
    pos: nat,
    list: Seq<ThreadSpec>,
    i: nat,
    next: ThreadsSpec,
)
    requires
        threads_within(list, pos),
        threads_within(next.list, pos + 1),
    ensures
        threads_within(step(code, input, pos, list, i, next).next.list, pos + 1),
        step(code, input, pos, list, i, next).matched is Some ==> slots_within(
            step(code, input, pos, list, i, next).matched->0,
            pos,
        ),
    decreases list.len() - i,
{
    if i < list.len() {
        let t = list[i as int];
        assert(slots_within(t.slots, pos));
        if t.pc >= code.len() {
            lemma_step_within(code, input, pos, list, i + 1, next);
        } else if code[t.pc as int] is Match {
        } else if pos < input.len() && consumes_at(code, input, pos, t) {
            let start = seq![ThreadSpec { pc: t.pc + 1, slots: t.slots }];
            lemma_within_later(t.slots, pos, pos + 1);
            assert(threads_within(start, pos + 1));
            lemma_follow_within(code, input, pos + 1, next, start);
            lemma_step_within(
                code,
                input,
                pos,
                list,
                i + 1,
                follow(code, input, pos + 1, next, start),
            );
        } else {
            lemma_step_within(code, input, pos, list, i + 1, next);
        }
    }
}

/// Whether the thread's instruction consumes the character at `pos`.
pub open spec fn consumes_at(code: Seq<InstSpec>, input: Seq<char>, pos: nat, t: ThreadSpec) -> bool {
    crate::vm::consumes(code[t.pc as int], input[pos as int])
}

/// The slots that a simulation ends with hold no position behind the end of
/// the input.
pub proof fn lemma_simulate_within(
    code: Seq<InstSpec>,
    input: Seq<char>,
    pos: nat,
    arrived: ThreadsSpec,
    best: Option<Slots>,
)
    requires
        pos <= input.len(),
        threads_within(arrived.list, pos),
        best is Some ==> slots_within(best->0, pos),
    ensures
        simulate(code, input, pos, arrived, best) is Some ==> slots_within(
            simulate(code, input, pos, arrived, best)->0,
            input.len(),
        ),
    decreases input.len() - pos,
{
    if best is Some {
        lemma_within_later(best->0, pos, input.len());
    }
    let start = seq![ThreadSpec { pc: 0, slots: fresh_slots(code) }];
    assert(threads_within(start, pos));
    let current = if best is None {
        lemma_follow_within(code, input, pos, arrived, start);
        follow(code, input, pos, arrived, start)
    } else {
        arrived
    };
    if current.list.len() == 0 && best is Some {
    } else {
        let blank = no_threads(code.len());
        assert(threads_within(blank.list, pos + 1));
        lemma_step_within(code, input, pos, current.list, 0, blank);
        let out = step(code, input, pos, current.list, 0, blank);
        let better = if out.matched is Some {
            out.matched
        } else {
            best
        };
        if pos >= input.len() {
        } else {
            if better is Some {
                lemma_within_later(better->0, pos, pos + 1);
            }
            lemma_simulate_within(code, input, pos + 1, out.next, better);
        }
    }
}

/// Every span that the machine reports is ordered and ends no later than
/// the input.
pub proof fn lemma_run_within(code: Seq<InstSpec>, input: Seq<char>, captures: bool)
    ensures
        forall|g: int|
            0 <= g < run_spec(code, input, captures).len() ==> (#[trigger] run_spec(
                code,
                input,
                captures,
            )[g]) is Some ==> {
                let span = run_spec(code, input, captures)[g]->0;
                span.0 <= span.1 <= input.len()
            },
{
    let blank = no_threads(code.len());
    assert(threads_within(blank.list, 0));
    lemma_simulate_within(code, input, 0, blank, None);
    let matched = simulate(code, input, 0, blank, None);
    let all = spans_of(code, matched);
    assert forall|g: int| 0 <= g < all.len() && (#[trigger] all[g]) is Some implies ({
        let span = all[g]->0;
        span.0 <= span.1 <= input.len()
    }) by {
        let slots = matched->0;
        assert(slots[2 * g] is Some);
        assert(slots[2 * g + 1] is Some);
    }
}

} // verus!
