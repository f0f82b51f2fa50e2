//! The syntax tree of an expression.

use vstd::prelude::*;
use vstd::string::StringExecFns;
use crate::compile::groups_bounded;
use crate::grammar::{Fault, Flags, parse_spec};
use crate::parser::{ParseFault, Parser};
use crate::text::to_chars;
use crate::{Error, ErrorKind};

verus! {

/// Whether a repetition prefers more or fewer iterations.
#[derive(Clone, Copy, Debug, PartialEq, Eq, Structural)]
pub enum Greed {
    Greedy,
    Ungreedy,
}

impl Greed {
    /// Whether this is the preference for more iterations.
    pub open spec fn spec_is_greedy(self) -> bool {
        self == Greed::Greedy
    }

    /// True for the variant that prefers more iterations.
    #[verifier::when_used_as_spec(spec_is_greedy)]
    pub fn is_greedy(self) -> (r: bool)
        ensures
            r == self.spec_is_greedy(),
    {
        match self {
            Greed::Greedy => true,
            Greed::Ungreedy => false,
        }
    }
}

/// The unbounded repetition operators. Counted repetitions are rewritten
/// into these before a tree is built.
#[derive(Clone, Copy, Debug, PartialEq, Eq, Structural)]
pub enum Repeater {
    ZeroOne,
    ZeroMore,
    OneMore,
}

/// A node of the syntax tree.
#[derive(Debug)]
pub enum Ast {
    /// Matches the empty string.
    Nothing,
    /// One character; the flag asks for a case-insensitive comparison.
    Literal(char, bool),
    /// Any character; the flag says whether a line feed is included.
    Dot(bool),
    /// A set of inclusive ranges, whether it is negated, and whether it is
    /// compared case-insensitively.
    Class(Vec<(char, char)>, bool, bool),
    /// Start of text; with the flag set, also the start of a line.
    Begin(bool),
    /// End of text; with the flag set, also the end of a line.
    End(bool),
    /// A word boundary, or with the flag unset, anything but one.
    WordBoundary(bool),
    /// A group with its index and optional name.
    Capture(usize, Option<String>, Box<Ast>),
    /// A sequence of sub-expressions.
    Cat(Vec<Ast>),
    /// A choice in which the left side is preferred.
    Alt(Box<Ast>, Box<Ast>),
    /// A repeated sub-expression.
    Rep(Box<Ast>, Repeater, Greed),
}

/// The mathematical value of a syntax tree.
pub enum AstSpec {
    Nothing,
    Literal(char, bool),
    Dot(bool),
    Class(Seq<(char, char)>, bool, bool),
    Begin(bool),
    End(bool),
    WordBoundary(bool),
    Capture(nat, Option<Seq<char>>, Box<AstSpec>),
    Cat(Seq<AstSpec>),
    Alt(Box<AstSpec>, Box<AstSpec>),
    Rep(Box<AstSpec>, Repeater, Greed),
}

/// The mathematical value of an optional name.
pub open spec fn name_view(name: Option<String>) -> Option<Seq<char>> {
    match name {
        Some(n) => Some(n@),
        None => None,
    }
}

/// The mathematical value of a tree.
pub open spec fn ast_view(ast: &Ast) -> AstSpec
    decreases ast,
{
    match ast {
        Ast::Nothing => AstSpec::Nothing,
        Ast::Literal(c, casei) => AstSpec::Literal(*c, *casei),
        Ast::Dot(nl) => AstSpec::Dot(*nl),
        Ast::Class(ranges, negated, casei) => AstSpec::Class(ranges@, *negated, *casei),
        Ast::Begin(multi) => AstSpec::Begin(*multi),
        Ast::End(multi) => AstSpec::End(*multi),
        Ast::WordBoundary(yes) => AstSpec::WordBoundary(*yes),
        Ast::Capture(cap, name, x) => AstSpec::Capture(
            *cap as nat,
            name_view(*name),
            Box::new(ast_view(x)),
        ),
        Ast::Cat(xs) => AstSpec::Cat(
            Seq::new(
                xs.len() as nat,
                |i: int|
                    if 0 <= i < xs.len() {
                        ast_view(&xs[i])
                    } else {
                        AstSpec::Nothing
                    },
            ),
        ),
        Ast::Alt(x, y) => AstSpec::Alt(Box::new(ast_view(x)), Box::new(ast_view(y))),
        Ast::Rep(x, rep, greed) => AstSpec::Rep(Box::new(ast_view(x)), *rep, *greed),
    }
}

/// The description of a fault.
pub open spec fn fault_text(fault: Fault) -> Seq<char> {
    match fault {
        Fault::MissingArgument => "missing argument to repetition operator"@,
        Fault::UnclosedGroup => "missing closing parenthesis"@,
        Fault::UnopenedGroup => "unexpected closing parenthesis"@,
        Fault::UnclosedClass => "missing closing bracket"@,
        Fault::InvalidRange => "invalid character class range"@,
        Fault::UnknownClass => "unknown character class"@,
        Fault::NegatedClass => "negated class is not supported inside brackets"@,
        Fault::UnknownEscape => "unknown escape sequence"@,
        Fault::TrailingBackslash => "trailing backslash"@,
        Fault::BadHex => "invalid hexadecimal escape"@,
        Fault::BadGroupName => "invalid group name"@,
        Fault::BadFlag => "invalid flags"@,
        Fault::BadRepeat => "invalid repetition count"@,
        Fault::TooManyGroups => "too many groups"@,
    }
}

/// Describes a fault.
pub fn describe(fault: Fault) -> (r: String)
    ensures
        r@ == fault_text(fault),
{
    match fault {
        Fault::MissingArgument => String::from_str("missing argument to repetition operator"),
        Fault::UnclosedGroup => String::from_str("missing closing parenthesis"),
        Fault::UnopenedGroup => String::from_str("unexpected closing parenthesis"),
        Fault::UnclosedClass => String::from_str("missing closing bracket"),
        Fault::InvalidRange => String::from_str("invalid character class range"),
        Fault::UnknownClass => String::from_str("unknown character class"),
        Fault::NegatedClass => String::from_str("negated class is not supported inside brackets"),
        Fault::UnknownEscape => String::from_str("unknown escape sequence"),
        Fault::TrailingBackslash => String::from_str("trailing backslash"),
        Fault::BadHex => String::from_str("invalid hexadecimal escape"),
        Fault::BadGroupName => String::from_str("invalid group name"),
        Fault::BadFlag => String::from_str("invalid flags"),
        Fault::BadRepeat => String::from_str("invalid repetition count"),
        Fault::TooManyGroups => String::from_str("too many groups"),
    }
}

/// Whether the result of parsing is what the grammar gives for the text:
/// the tree, or an error of kind `BadSyntax` with the position and the
/// description of the fault.
pub open spec fn parse_agrees(r: Result<Ast, Error>, s: Seq<char>) -> bool {
    match parse_spec(s) {
        Ok(tree) => r is Ok && ast_view(&r->Ok_0) == tree && groups_bounded(tree),
        Err(f) => {
            &&& r is Err
            &&& r->Err_0.pos == f.pos
            &&& r->Err_0.kind == ErrorKind::BadSyntax
            &&& r->Err_0.msg@ == fault_text(f.fault)
        },
    }
}

/// Parses the source text of an expression.
pub fn parse(s: &str) -> (r: Result<Ast, Error>)
    ensures
        parse_agrees(r, s@),
{
    let mut p = Parser {
        chars: to_chars(s),
        pos: 0,
        flags: Flags { casei: false, multi: false, dotnl: false, swap_greed: false },
        ncap: 0,
    };
    let fault = match p.read_alternation() {
        Ok(ast) => {
            if p.pos >= p.chars.len() {
                return Ok(ast);
            }
            ParseFault { pos: p.pos, fault: Fault::UnopenedGroup }
        },
        Err(f) => f,
    };
    Err(Error { pos: fault.pos, kind: ErrorKind::BadSyntax, msg: describe(fault.fault) })
}

} // verus!
