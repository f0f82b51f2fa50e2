//! Instructions, programs, and the compilation of a syntax tree into a program.

use vstd::prelude::*;
use crate::parse::{Ast, AstSpec, Greed, Repeater, ast_view, name_view};

verus! {

/// The ranges of a character class, either owned or borrowed for the whole
/// life of the process.
#[derive(Debug)]
pub enum MaybeStaticClass {
    DynamicClass(Vec<(char, char)>),
    StaticClass(&'static [(char, char)]),
}

impl MaybeStaticClass {
    /// The ranges as a sequence, whichever way they are stored.
    pub open spec fn ranges(&self) -> Seq<(char, char)> {
        match self {
            MaybeStaticClass::DynamicClass(xs) => xs@,
            MaybeStaticClass::StaticClass(xs) => xs@,
        }
    }

    /// The ranges as a slice, whichever way they are stored.
    pub fn as_slice(&self) -> (r: &[(char, char)])
        ensures
            r@ == self.ranges(),
    {
        match self {
            MaybeStaticClass::DynamicClass(xs) => xs.as_slice(),
            MaybeStaticClass::StaticClass(xs) => xs,
        }
    }
}

/// One instruction of a program.
#[derive(Debug)]
pub enum Inst {
    /// The thread that reaches this instruction has matched.
    Match,
    /// Consumes one character equal to the given one; with the flag set the
    /// comparison ignores case.
    Char_(char, bool),
    /// Consumes one character inside the ranges, or outside them when the
    /// first flag is set; the second flag asks to ignore case.
    CharClass(MaybeStaticClass, bool, bool),
    /// Consumes any character; a line feed only when the flag is set.
    Any_(bool),
    /// Holds at the start of the text, and with the flag set after a line feed.
    EmptyBegin(bool),
    /// Holds at the end of the text, and with the flag set before a line feed.
    EmptyEnd(bool),
    /// Holds at a word boundary, or with the flag unset, everywhere else.
    EmptyWordBoundary(bool),
    /// Stores the current position in the given slot.
    Save(usize),
    /// Continues at the given instruction.
    Jump(usize),
    /// Continues at the first instruction, and if that fails at the second.
    Split(usize, usize),
}

/// The mathematical value of an instruction.
pub enum InstSpec {
    Match,
    Char(char, bool),
    CharClass(Seq<(char, char)>, bool, bool),
    Any(bool),
    EmptyBegin(bool),
    EmptyEnd(bool),
    EmptyWordBoundary(bool),
    Save(nat),
    Jump(nat),
    Split(nat, nat),
}

impl View for Inst {
    type V = InstSpec;

    open spec fn view(&self) -> InstSpec {
        match self {
            Inst::Match => InstSpec::Match,
            Inst::Char_(c, i) => InstSpec::Char(*c, *i),
            Inst::CharClass(r, n, i) => InstSpec::CharClass(r.ranges(), *n, *i),
            Inst::Any_(nl) => InstSpec::Any(*nl),
            Inst::EmptyBegin(m) => InstSpec::EmptyBegin(*m),
            Inst::EmptyEnd(m) => InstSpec::EmptyEnd(*m),
            Inst::EmptyWordBoundary(y) => InstSpec::EmptyWordBoundary(*y),
            Inst::Save(k) => InstSpec::Save(*k as nat),
            Inst::Jump(t) => InstSpec::Jump(*t as nat),
            Inst::Split(a, b) => InstSpec::Split(*a as nat, *b as nat),
        }
    }
}

/// The number of instructions that a tree is compiled into.
pub open spec fn code_len(ast: AstSpec) -> nat
    decreases ast,
{
    match ast {
        AstSpec::Nothing => 0,
        AstSpec::Capture(_, _, x) => code_len(*x) + 2,
        AstSpec::Cat(xs) => cat_len(xs, 0),
        AstSpec::Alt(x, y) => code_len(*x) + code_len(*y) + 2,
        AstSpec::Rep(x, Repeater::ZeroOne, _) => code_len(*x) + 1,
        AstSpec::Rep(x, Repeater::ZeroMore, _) => code_len(*x) + 2,
        AstSpec::Rep(x, Repeater::OneMore, _) => code_len(*x) + 1,
        _ => 1,
    }
}

/// The number of instructions for the children of a sequence from the
/// `i`-th on.
pub open spec fn cat_len(xs: Seq<AstSpec>, i: nat) -> nat
    decreases xs, xs.len() - i,
{
    if i >= xs.len() {
        0
    } else {
        code_len(xs[i as int]) + cat_len(xs, i + 1)
    }
}

/// A split that prefers `a` when greedy and `b` otherwise.
pub open spec fn split_for(g: Greed, a: nat, b: nat) -> InstSpec {
    if g.spec_is_greedy() {
        InstSpec::Split(a, b)
    } else {
        InstSpec::Split(b, a)
    }
}

/// The instructions that a tree is compiled into when its first instruction
/// is placed at `base`.
pub open spec fn code(ast: AstSpec, base: nat) -> Seq<InstSpec>
    decreases ast,
{
    match ast {
        AstSpec::Nothing => seq![],
        AstSpec::Literal(c, casei) => seq![InstSpec::Char(c, casei)],
        AstSpec::Dot(nl) => seq![InstSpec::Any(nl)],
        AstSpec::Class(ranges, negated, casei) => seq![InstSpec::CharClass(ranges, negated, casei)],
        AstSpec::Begin(multi) => seq![InstSpec::EmptyBegin(multi)],
        AstSpec::End(multi) => seq![InstSpec::EmptyEnd(multi)],
        AstSpec::WordBoundary(yes) => seq![InstSpec::EmptyWordBoundary(yes)],
        AstSpec::Capture(cap, _, x) => seq![InstSpec::Save(2 * cap)] + code(*x, base + 1) + seq![
            InstSpec::Save(2 * cap + 1),
        ],
        AstSpec::Cat(xs) => cat_code(xs, 0, base),
        AstSpec::Alt(x, y) => {
            let second = base + 2 + code_len(*x);
            seq![InstSpec::Split(base + 1, second)] + code(*x, base + 1) + seq![
                InstSpec::Jump(second + code_len(*y)),
            ] + code(*y, second)
        },
        AstSpec::Rep(x, Repeater::ZeroOne, g) => seq![
            split_for(g, base + 1, base + 1 + code_len(*x)),
        ] + code(*x, base + 1),
        AstSpec::Rep(x, Repeater::ZeroMore, g) => seq![
            split_for(g, base + 1, base + 2 + code_len(*x)),
        ] + code(*x, base + 1) + seq![InstSpec::Jump(base)],
        AstSpec::Rep(x, Repeater::OneMore, g) => code(*x, base) + seq![
            split_for(g, base, base + 1 + code_len(*x)),
        ],
    }
}

/// The instructions for the children of a sequence from the `i`-th on.
pub open spec fn cat_code(xs: Seq<AstSpec>, i: nat, base: nat) -> Seq<InstSpec>
    decreases xs, xs.len() - i,
{
    if i >= xs.len() {
        seq![]
    } else {
        code(xs[i as int], base) + cat_code(xs, i + 1, base + code_len(xs[i as int]))
    }
}

/// The code of a tree has the length that `code_len` gives.
pub proof fn lemma_code_len(ast: AstSpec, base: nat)
    ensures
        code(ast, base).len() == code_len(ast),
    decreases ast,
{
    match ast {
        AstSpec::Capture(_, _, x) => {
            lemma_code_len(*x, base + 1);
        },
        AstSpec::Cat(xs) => {
            lemma_cat_code_len(xs, 0, base);
        },
        AstSpec::Alt(x, y) => {
            lemma_code_len(*x, base + 1);
            lemma_code_len(*y, base + 2 + code_len(*x));
        },
        AstSpec::Rep(x, Repeater::ZeroOne, _) => {
            lemma_code_len(*x, base + 1);
        },
        AstSpec::Rep(x, Repeater::ZeroMore, _) => {
            lemma_code_len(*x, base + 1);
        },
        AstSpec::Rep(x, Repeater::OneMore, _) => {
            lemma_code_len(*x, base);
        },
        _ => {},
    }
}

/// The same for the children of a sequence.
pub proof fn lemma_cat_code_len(xs: Seq<AstSpec>, i: nat, base: nat)
    ensures
        cat_code(xs, i, base).len() == cat_len(xs, i),
    decreases xs, xs.len() - i,
{
    if i < xs.len() {
        lemma_code_len(xs[i as int], base);
        lemma_cat_code_len(xs, i + 1, base + code_len(xs[i as int]));
    }
}

/// The largest group index that a tree handed to the compiler may hold: the
/// two slots of a group must be representable.
pub const MAX_GROUP: usize = 0x3fff_ffff;

/// Every group index in the tree is at most `MAX_GROUP`.
pub open spec fn groups_bounded(ast: AstSpec) -> bool
    decreases ast,
{
    match ast {
        AstSpec::Capture(cap, _, x) => cap <= MAX_GROUP && groups_bounded(*x),
        AstSpec::Cat(xs) => all_bounded(xs, 0),
        AstSpec::Alt(x, y) => groups_bounded(*x) && groups_bounded(*y),
        AstSpec::Rep(x, _, _) => groups_bounded(*x),
        _ => true,
    }
}

/// The same for the children of a sequence from the `i`-th on.
pub open spec fn all_bounded(xs: Seq<AstSpec>, i: nat) -> bool
    decreases xs, xs.len() - i,
{
    i < xs.len() ==> groups_bounded(xs[i as int]) && all_bounded(xs, i + 1)
}

/// The mathematical values of the trees of a list.
pub open spec fn views_of(xs: &Vec<Ast>) -> Seq<AstSpec> {
    Seq::new(xs.len() as nat, |i: int| ast_view(&xs[i]))
}

/// The mathematical value of a table of names.
pub open spec fn names_view(names: Seq<Option<String>>) -> Seq<Option<Seq<char>>> {
    Seq::new(names.len(), |i: int| name_view(names[i]))
}

/// The mathematical value of a list of instructions.
pub open spec fn insts_view(insts: Seq<Inst>) -> Seq<InstSpec> {
    Seq::new(insts.len(), |i: int| insts[i]@)
}

/// The table after the name of group `cap` is recorded: a table that is too
/// short first grows by ten entries more than it lacks.
pub open spec fn put_name(
    table: Seq<Option<Seq<char>>>,
    cap: nat,
    name: Option<Seq<char>>,
) -> Seq<Option<Seq<char>>> {
    let grown = if cap >= table.len() {
        table + Seq::new((10 + cap - table.len()) as nat, |i: int| None::<Seq<char>>)
    } else {
        table
    };
    grown.update(cap as int, name)
}

/// The table of names after the groups of a tree are recorded in it, in the
/// order in which the groups open.
pub open spec fn names_of(ast: AstSpec, table: Seq<Option<Seq<char>>>) -> Seq<Option<Seq<char>>>
    decreases ast,
{
    match ast {
        AstSpec::Capture(cap, name, x) => names_of(*x, put_name(table, cap, name)),
        AstSpec::Cat(xs) => cat_names(xs, 0, table),
        AstSpec::Alt(x, y) => names_of(*y, names_of(*x, table)),
        AstSpec::Rep(x, _, _) => names_of(*x, table),
        _ => table,
    }
}

/// The same for the children of a sequence from the `i`-th on.
pub open spec fn cat_names(xs: Seq<AstSpec>, i: nat, table: Seq<Option<Seq<char>>>) -> Seq<
    Option<Seq<char>>,
>
    decreases xs, xs.len() - i,
{
    if i >= xs.len() {
        table
    } else {
        cat_names(xs, i + 1, names_of(xs[i as int], table))
    }
}

/// The state of a compilation: the instructions emitted so far and the table
/// of group names.
pub struct Compiler {
    pub insts: Vec<Inst>,
    pub names: Vec<Option<String>>,
}

/// A copy of a list of ranges.
pub fn copy_ranges(xs: &Vec<(char, char)>) -> (r: Vec<(char, char)>)
    ensures
        r@ == xs@,
{
    let mut r: Vec<(char, char)> = Vec::with_capacity(xs.len());
    let mut i: usize = 0;
    while i < xs.len()
        invariant
            i <= xs.len(),
            r@ == xs@.take(i as int),
        decreases xs.len() - i,
    {
        r.push(xs[i]);
        assert(xs@.take(i + 1) =~= xs@.take(i as int).push(xs@[i as int]));
        i += 1;
    }
    assert(xs@.take(xs.len() as int) =~= xs@);
    r
}

impl Compiler {
    /// The instructions emitted so far, as mathematical values.
    pub open spec fn code(&self) -> Seq<InstSpec> {
        insts_view(self.insts@)
    }

    /// The table of names, as mathematical values.
    pub open spec fn table(&self) -> Seq<Option<Seq<char>>> {
        names_view(self.names@)
    }

    /// Appends one instruction.
    pub fn push(&mut self, x: Inst)
        ensures
            final(self).code() == old(self).code().push(x@),
            final(self).insts.len() == old(self).insts.len() + 1,
            final(self).names == old(self).names,
    {
        self.insts.push(x);
        assert(self.code() =~= old(self).code().push(x@));
    }

    /// Appends a split whose targets are still to be set, and returns its
    /// index.
    pub fn empty_split(&mut self) -> (i: usize)
        ensures
            i == old(self).insts.len(),
            final(self).code() == old(self).code().push(InstSpec::Split(0, 0)),
            final(self).insts.len() == old(self).insts.len() + 1,
            final(self).names == old(self).names,
    {
        self.push(Inst::Split(0, 0));
        self.insts.len() - 1
    }

    /// Sets the targets of the split at index `i`.
    pub fn set_split(&mut self, i: usize, pc1: usize, pc2: usize)
        requires
            i < old(self).insts.len(),
            old(self).code()[i as int] is Split,
        ensures
            final(self).code() == old(self).code().update(
                i as int,
                InstSpec::Split(pc1 as nat, pc2 as nat),
            ),
            final(self).insts.len() == old(self).insts.len(),
            final(self).names == old(self).names,
    {
        self.insts[i] = Inst::Split(pc1, pc2);
        assert(self.code() =~= old(self).code().update(
            i as int,
            InstSpec::Split(pc1 as nat, pc2 as nat),
        ));
    }

    /// Appends a jump whose target is still to be set, and returns its index.
    pub fn empty_jump(&mut self) -> (i: usize)
        ensures
            i == old(self).insts.len(),
            final(self).code() == old(self).code().push(InstSpec::Jump(0)),
            final(self).insts.len() == old(self).insts.len() + 1,
            final(self).names == old(self).names,
    {
        self.push(Inst::Jump(0));
        self.insts.len() - 1
    }

    /// Sets the target of the jump at index `i`.
    pub fn set_jump(&mut self, i: usize, pc: usize)
        requires
            i < old(self).insts.len(),
            old(self).code()[i as int] is Jump,
        ensures
            final(self).code() == old(self).code().update(i as int, InstSpec::Jump(pc as nat)),
            final(self).insts.len() == old(self).insts.len(),
            final(self).names == old(self).names,
    {
        self.insts[i] = Inst::Jump(pc);
        assert(self.code() =~= old(self).code().update(i as int, InstSpec::Jump(pc as nat)));
    }
}

impl Compiler {
    /// Records the name of group `cap` in the table of names.
    pub fn record_name(&mut self, cap: usize, name: &Option<String>)
        requires
            cap <= MAX_GROUP,
        ensures
            final(self).table() == put_name(old(self).table(), cap as nat, name_view(*name)),
            final(self).insts == old(self).insts,
    {
        let len = self.names.len();
        if cap >= len {
            let extra: usize = 10 + cap - len;
            let mut k: usize = 0;
            while k < extra
                invariant
                    k <= extra,
                    self.insts == old(self).insts,
                    self.table() == old(self).table() + Seq::new(
                        k as nat,
                        |i: int| None::<Seq<char>>,
                    ),
                decreases extra - k,
            {
                let ghost prev = self.table();
                self.names.push(None);
                assert(self.table() =~= prev.push(None::<Seq<char>>));
                assert(self.table() =~= old(self).table() + Seq::new(
                    (k + 1) as nat,
                    |i: int| None::<Seq<char>>,
                ));
                k += 1;
            }
        }
        let copy = match name {
            Some(n) => Some(n.clone()),
            None => None,
        };
        assert(cap < self.names.len()) by {
            assert(self.table().len() == self.names.len());
        }
        self.names[cap] = copy;
        assert(self.table() =~= put_name(old(self).table(), cap as nat, name_view(*name)));
    }

    /// Appends the code of `ast` to the instructions and records the
    /// names of its groups.
    pub fn compile(&mut self, ast: &Ast)
        requires
            groups_bounded(ast_view(ast)),
        ensures
            final(self).code() == old(self).code() + code(
                ast_view(ast),
                old(self).insts.len() as nat,
            ),
            final(self).insts.len() == old(self).insts.len() + code_len(ast_view(ast)),
            final(self).table() == names_of(ast_view(ast), old(self).table()),
        decreases ast,
    {
        let ghost base = self.insts.len() as nat;
        let ghost before = self.code();
        let ghost tree = ast_view(ast);
        proof {
            lemma_code_len(tree, base);
        }
        match ast {
            Ast::Nothing => {
                assert(self.code() =~= before + code(tree, base));
            },
            Ast::Literal(c, casei) => {
                self.push(Inst::Char_(*c, *casei));
                assert(self.code() =~= before + code(tree, base));
            },
            Ast::Dot(nl) => {
                self.push(Inst::Any_(*nl));
                assert(self.code() =~= before + code(tree, base));
            },
            Ast::Class(ranges, negated, casei) => {
                let copy = copy_ranges(ranges);
                self.push(Inst::CharClass(MaybeStaticClass::DynamicClass(copy), *negated, *casei));
                assert(self.code() =~= before + code(tree, base));
            },
            Ast::Begin(multi) => {
                self.push(Inst::EmptyBegin(*multi));
                assert(self.code() =~= before + code(tree, base));
            },
            Ast::End(multi) => {
                self.push(Inst::EmptyEnd(*multi));
                assert(self.code() =~= before + code(tree, base));
            },
            Ast::WordBoundary(yes) => {
                self.push(Inst::EmptyWordBoundary(*yes));
                assert(self.code() =~= before + code(tree, base));
            },
            Ast::Capture(cap, name, x) => {
                self.record_name(*cap, name);
                self.push(Inst::Save(2 * *cap));
                self.compile(x);
                self.push(Inst::Save(2 * *cap + 1));
                proof {
                    lemma_code_len(ast_view(x), base + 1);
                }
                assert(self.code() =~= before + code(tree, base));
            },
            Ast::Cat(xs) => {
                assert(tree->Cat_0 =~= views_of(xs));
                self.compile_all(xs);
            },
            Ast::Alt(x, y) => {
                let split = self.empty_split();
                let j1 = self.insts.len();
                self.compile(x);
                let jmp = self.empty_jump();
                let j2 = self.insts.len();
                self.compile(y);
                let j3 = self.insts.len();
                proof {
                    lemma_code_len(ast_view(x), base + 1);
                    lemma_code_len(ast_view(y), base + 2 + code_len(ast_view(x)));
                }
                self.set_split(split, j1, j2);
                self.set_jump(jmp, j3);
                assert(self.code() =~= before + code(tree, base));
            },
            Ast::Rep(x, Repeater::ZeroOne, g) => {
                let split = self.empty_split();
                let j1 = self.insts.len();
                self.compile(x);
                let j2 = self.insts.len();
                proof {
                    lemma_code_len(ast_view(x), base + 1);
                }
                if g.is_greedy() {
                    self.set_split(split, j1, j2);
                } else {
                    self.set_split(split, j2, j1);
                }
                assert(self.code() =~= before + code(tree, base));
            },
            Ast::Rep(x, Repeater::ZeroMore, g) => {
                let j1 = self.insts.len();
                let split = self.empty_split();
                let j2 = self.insts.len();
                self.compile(x);
                let jmp = self.empty_jump();
                let j3 = self.insts.len();
                proof {
                    lemma_code_len(ast_view(x), base + 1);
                }
                self.set_jump(jmp, j1);
                if g.is_greedy() {
                    self.set_split(split, j2, j3);
                } else {
                    self.set_split(split, j3, j2);
                }
                assert(self.code() =~= before + code(tree, base));
            },
            Ast::Rep(x, Repeater::OneMore, g) => {
                let j1 = self.insts.len();
                self.compile(x);
                let split = self.empty_split();
                let j2 = self.insts.len();
                proof {
                    lemma_code_len(ast_view(x), base);
                }
                if g.is_greedy() {
                    self.set_split(split, j1, j2);
                } else {
                    self.set_split(split, j2, j1);
                }
                assert(self.code() =~= before + code(tree, base));
            },
        }
    }

    /// Appends the code of the children of a sequence, in order.
    pub fn compile_all(&mut self, xs: &Vec<Ast>)
        requires
            all_bounded(views_of(xs), 0),
        ensures
            final(self).code() == old(self).code() + cat_code(
                views_of(xs),
                0,
                old(self).insts.len() as nat,
            ),
            final(self).insts.len() == old(self).insts.len() + cat_len(views_of(xs), 0),
            final(self).table() == cat_names(views_of(xs), 0, old(self).table()),
        decreases xs,
    {
        let ghost base = self.insts.len() as nat;
        let ghost before = self.code();
        let ghost trees = views_of(xs);
        let mut i: usize = 0;
        assert(before + cat_code(trees, 0, base) =~= self.code() + cat_code(trees, 0, base));
        while i < xs.len()
            invariant
                i <= xs.len(),
                trees == views_of(xs),
                all_bounded(trees, i as nat),
                before + cat_code(trees, 0, base) == self.code() + cat_code(
                    trees,
                    i as nat,
                    self.insts.len() as nat,
                ),
                base + cat_len(trees, 0) == self.insts.len() + cat_len(trees, i as nat),
                cat_names(trees, 0, old(self).table()) == cat_names(trees, i as nat, self.table()),
            decreases xs.len() - i,
        {
            let ghost mid = self.code();
            let ghost at = self.insts.len() as nat;
            assert(trees[i as int] == ast_view(&xs[i as int]));
            self.compile(&xs[i]);
            proof {
                let rest = cat_code(trees, (i + 1) as nat, at + code_len(trees[i as int]));
                assert(mid + (code(trees[i as int], at) + rest) =~= (mid + code(trees[i as int], at))
                    + rest);
            }
            i += 1;
        }
        assert(self.code() + cat_code(trees, i as nat, self.insts.len() as nat) =~= self.code());
    }
}

/// One more than the largest slot that a `Save` among the first `n`
/// instructions names, or zero if there is none.
pub open spec fn slots_used(code: Seq<InstSpec>, n: nat) -> nat
    decreases n,
{
    if n == 0 || n > code.len() {
        0
    } else {
        let rest = slots_used(code, (n - 1) as nat);
        match code[n - 1] {
            InstSpec::Save(k) => if k + 1 > rest {
                k + 1
            } else {
                rest
            },
            _ => rest,
        }
    }
}

/// The number of groups of a program, group 0 included: every group has two
/// slots.
pub open spec fn groups_of(code: Seq<InstSpec>) -> nat {
    slots_used(code, code.len()) / 2
}

/// The characters of the plain, case-sensitive `Char` instructions that
/// stand in a row from index `i` on.
pub open spec fn literal_run(code: Seq<InstSpec>, i: nat) -> Seq<char>
    decreases code.len() - i,
{
    if i < code.len() {
        match code[i as int] {
            InstSpec::Char(c, false) => seq![c] + literal_run(code, i + 1),
            _ => seq![],
        }
    } else {
        seq![]
    }
}

/// The whole program for a tree: the tree's code as group 0, then `Match`.
pub open spec fn program_code(ast: AstSpec) -> Seq<InstSpec> {
    seq![InstSpec::Save(0)] + code(ast, 1) + seq![InstSpec::Save(1), InstSpec::Match]
}

/// Counts the groups of a list of instructions.
pub fn count_groups(insts: &[Inst]) -> (n: usize)
    ensures
        n == groups_of(insts_view(insts@)),
{
    let ghost code = insts_view(insts@);
    // Half of `c + 1`, rounded down, is `c / 2 + c % 2`, which cannot
    // overflow.
    let mut n: usize = 0;
    let mut i: usize = 0;
    while i < insts.len()
        invariant
            i <= insts.len(),
            code == insts_view(insts@),
            n == slots_used(code, i as nat) / 2,
        decreases insts.len() - i,
    {
        match &insts[i] {
            Inst::Save(c) => {
                let half: usize = *c / 2 + *c % 2;
                if half > n {
                    n = half;
                }
            },
            _ => {},
        }
        i += 1;
    }
    n
}

/// What the virtual machine and the search functions need from a compiled
/// expression.
pub trait Program {
    /// The source text of the expression.
    spec fn source(&self) -> Seq<char>;

    /// The instructions, as mathematical values.
    spec fn code(&self) -> Seq<InstSpec>;

    /// The table of group names, as mathematical values.
    spec fn table(&self) -> Seq<Option<Seq<char>>>;

    /// The characters with which every match begins.
    spec fn literal_prefix(&self) -> Seq<char>;

    fn regex(&self) -> (r: &str)
        ensures
            r@ == self.source(),
    ;

    fn insts(&self) -> (r: &[Inst])
        ensures
            insts_view(r@) == self.code(),
    ;

    fn names(&self) -> (r: &[Option<String>])
        ensures
            names_view(r@) == self.table(),
    ;

    fn prefix(&self) -> (r: &[char])
        ensures
            r@ == self.literal_prefix(),
    ;

    /// The number of groups, group 0 included.
    fn num_captures(&self) -> (n: usize)
        ensures
            n == groups_of(self.code()),
    {
        count_groups(self.insts())
    }
}

/// A program whose parts live for the whole life of the process.
pub struct StaticProgram {
    pub regex: &'static str,
    pub insts: &'static [Inst],
    pub names: &'static [Option<String>],
    pub prefix: &'static [char],
}

impl Program for StaticProgram {
    open spec fn source(&self) -> Seq<char> {
        self.regex@
    }

    open spec fn code(&self) -> Seq<InstSpec> {
        insts_view(self.insts@)
    }

    open spec fn table(&self) -> Seq<Option<Seq<char>>> {
        names_view(self.names@)
    }

    open spec fn literal_prefix(&self) -> Seq<char> {
        self.prefix@
    }

    fn regex(&self) -> (r: &str) {
        self.regex
    }

    fn insts(&self) -> (r: &[Inst]) {
        self.insts
    }

    fn names(&self) -> (r: &[Option<String>]) {
        self.names
    }

    fn prefix(&self) -> (r: &[char]) {
        self.prefix
    }
}

/// A program that owns its parts.
pub struct DynamicProgram {
    pub regex: String,
    pub insts: Vec<Inst>,
    pub names: Vec<Option<String>>,
    pub prefix: Vec<char>,
}

impl Program for DynamicProgram {
    open spec fn source(&self) -> Seq<char> {
        self.regex@
    }

    open spec fn code(&self) -> Seq<InstSpec> {
        insts_view(self.insts@)
    }

    open spec fn table(&self) -> Seq<Option<Seq<char>>> {
        names_view(self.names@)
    }

    open spec fn literal_prefix(&self) -> Seq<char> {
        self.prefix@
    }

    fn regex(&self) -> (r: &str) {
        self.regex.as_str()
    }

    fn insts(&self) -> (r: &[Inst]) {
        self.insts.as_slice()
    }

    fn names(&self) -> (r: &[Option<String>]) {
        self.names.as_slice()
    }

    fn prefix(&self) -> (r: &[char]) {
        self.prefix.as_slice()
    }
}

impl DynamicProgram {
    /// Compiles a tree: group 0 wraps the tree's code, `Match` ends the
    /// program, and the leading literal characters become the prefix.
    pub fn new(regex: &str, ast: Box<Ast>) -> (p: DynamicProgram)
        requires
            groups_bounded(ast_view(&*ast)),
        ensures
            p.source() == regex@,
            p.code() == program_code(ast_view(&*ast)),
            p.table() == names_of(ast_view(&*ast), Seq::empty()),
            p.literal_prefix() == literal_run(p.code(), 1),
    {
        let mut c = Compiler { insts: Vec::with_capacity(100), names: Vec::with_capacity(10) };
        assert(c.table() =~= Seq::empty());
        c.push(Inst::Save(0));
        c.compile(&*ast);
        c.push(Inst::Save(1));
        c.push(Inst::Match);
        assert(c.code() =~= program_code(ast_view(&*ast)));

        let ghost code = c.code();
        let mut pre: Vec<char> = Vec::with_capacity(5);
        let mut i: usize = 1;
        while i < c.insts.len()
            invariant
                1 <= i <= c.insts.len(),
                code == c.code(),
                literal_run(code, 1) == pre@ + literal_run(code, i as nat),
            ensures
                literal_run(code, 1) == pre@,
            decreases c.insts.len() - i,
        {
            match &c.insts[i] {
                Inst::Char_(ch, false) => {
                    pre.push(*ch);
                    assert(literal_run(code, 1) =~= pre@ + literal_run(code, (i + 1) as nat));
                },
                _ => {
                    assert(literal_run(code, 1) =~= pre@);
                    break ;
                },
            }
            i += 1;
        }
        DynamicProgram { regex: regex.to_owned(), insts: c.insts, names: c.names, prefix: pre }
    }
}

} // verus!
