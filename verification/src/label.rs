//! Markers of structured control flow.

use vstd::prelude::*;

verus! {

/// A control marker on the stack: how many values leave the construct, and
/// for a loop the instruction to go back to.
#[derive(Debug, Clone, Copy, PartialEq, Eq, Structural)]
pub enum Label {
    /// `if`, with its arity.
    If(usize),
    /// `block`, with its arity.
    Block(usize),
    /// The end of a function.
    Ret,
    /// `loop`, with its arity and the index of the instruction that a
    /// branch to it resumes at.
    Loop(usize, usize),
}

} // verus!
