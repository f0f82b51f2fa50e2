//! A regular-expression engine: a parser, a compiler to a linear instruction
//! program, and a virtual machine that simulates the program's automaton.

use vstd::prelude::*;
use crate::grammar::spec_is_punct;
use crate::parser::{char_at, is_punct};
use crate::text::{string_from_chars, to_chars};

pub mod chars;
pub mod text;
pub mod classes;
pub mod unicode;
pub mod parse;
pub mod grammar;
pub mod parser;
pub mod compile;
pub mod vm;
pub mod bounds;
pub mod search;
pub mod regexp;
pub mod replace;
pub mod expand;
pub mod laws;
pub mod frame;
pub mod numbering;
pub mod nesting;
pub mod normal;

pub use crate::regexp::{Captures, FindCaptures, FindMatches, Regexp, SubCaptures};
pub use crate::regexp::{RegexpSplits, RegexpSplitsN};

verus! {

/// The kind of fault that stopped the construction of an expression.
#[derive(Clone, Copy, Debug, PartialEq, Eq, Structural)]
pub enum ErrorKind {
    /// An internal invariant was violated.
    Bug,
    /// The source text is not a well-formed expression.
    BadSyntax,
}

/// What went wrong when an expression was parsed or compiled. Once an
/// expression is compiled, searching, splitting and replacing cannot fail.
#[derive(Debug)]
pub struct Error {
    /// The position of the character at which the fault was found.
    pub pos: usize,
    pub kind: ErrorKind,
    /// A description of the fault.
    pub msg: String,
}

/// A text in which every character that has a meaning of its own in an
/// expression is preceded by a backslash.
pub open spec fn quote_spec(s: Seq<char>) -> Seq<char>
    decreases s.len(),
{
    if s.len() == 0 {
        s
    } else if spec_is_punct(s.last()) {
        quote_spec(s.drop_last()).push('\\').push(s.last())
    } else {
        quote_spec(s.drop_last()).push(s.last())
    }
}

/// Escapes the characters of a text that have a meaning of their own in an
/// expression, so that the text can stand in an expression for itself.
pub fn quote(s: &str) -> (r: String)
    ensures
        r@ == quote_spec(s@),
{
    let chars = to_chars(s);
    let mut quoted: Vec<char> = Vec::with_capacity(chars.len());
    let mut i: usize = 0;
    assert(chars@.take(0) =~= Seq::<char>::empty());
    while i < chars.len()
        invariant
            i <= chars.len(),
            quoted@ == quote_spec(chars@.take(i as int)),
        decreases chars.len() - i,
    {
        let c = char_at(&chars, i);
        assert(chars@.take(i + 1).drop_last() =~= chars@.take(i as int));
        if is_punct(c) {
            quoted.push('\\');
        }
        quoted.push(c);
        i += 1;
    }
    assert(chars@.take(chars.len() as int) =~= chars@);
    string_from_chars(&quoted)
}

} // verus!
