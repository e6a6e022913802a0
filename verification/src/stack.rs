//! The stack of the abstract machine.

use crate::error::Error;
use vstd::prelude::*;

verus! {

/// A strict last-in, first-out stack.
#[derive(Debug)]
pub struct Stack<T> {
    stack: Vec<T>,
}

impl<T> View for Stack<T> {
    type V = Seq<T>;

    /// The entries, the oldest first.
    closed spec fn view(&self) -> Seq<T> {
        self.stack@
    }
}

impl<T> Default for Stack<T> {
    fn default() -> (s: Self)
        ensures
            s@ == Seq::<T>::empty(),
    {
        Stack { stack: Vec::new() }
    }
}

impl<T> Stack<T> {
    /// Puts `val` on top.
    pub fn push(&mut self, val: T)
        ensures
            final(self)@ == old(self)@.push(val),
    {
        self.stack.push(val);
    }

    /// Takes the top entry off. An empty stack gives `StackUnderflow` and
    /// stays empty.
    pub fn pop(&mut self) -> (r: Result<T, Error>)
        ensures
            match r {
                Ok(v) => old(self)@.len() > 0 && v == old(self)@.last() && final(self)@ == old(
                    self,
                )@.drop_last(),
                Err(e) => old(self)@.len() == 0 && e == Error::StackUnderflow && final(self)@
                    == old(self)@,
            },
    {
        match self.stack.pop() {
            Some(v) => Ok(v),
            None => Err(Error::StackUnderflow),
        }
    }

    pub fn is_empty(&self) -> (b: bool)
        ensures
            b == (self@.len() == 0),
    {
        self.stack.len() == 0
    }
}

/// The stack after the entries of `vals` were pushed onto `s`, first to last.
pub open spec fn push_all<T>(s: Seq<T>, vals: Seq<T>) -> Seq<T>
    decreases vals.len(),
{
    if vals.len() == 0 {
        s
    } else {
        push_all(s.push(vals.first()), vals.drop_first())
    }
}

/// The entries that `n` pops take off `s`, in the order they come off.
pub open spec fn popped<T>(s: Seq<T>, n: nat) -> Seq<T>
    decreases n,
{
    if n == 0 || s.len() == 0 {
        Seq::empty()
    } else {
        seq![s.last()] + popped(s.drop_last(), (n - 1) as nat)
    }
}

/// The stack that `n` pops leave of `s`.
pub open spec fn after_pops<T>(s: Seq<T>, n: nat) -> Seq<T>
    decreases n,
{
    if n == 0 || s.len() == 0 {
        s
    } else {
        after_pops(s.drop_last(), (n - 1) as nat)
    }
}

/// Pushing the entries of `vals` appends them.
pub proof fn lemma_push_all<T>(s: Seq<T>, vals: Seq<T>)
    ensures
        push_all(s, vals) == s + vals,
    decreases vals.len(),
{
    if vals.len() == 0 {
        assert(s + vals =~= s);
    } else {
        lemma_push_all(s.push(vals.first()), vals.drop_first());
        assert(s.push(vals.first()) + vals.drop_first() =~= s + vals);
    }
}

/// Last in, first out: after `n` pushes, `n` pops give the pushed entries
/// back in reverse order and leave the stack as it was before the pushes.
pub proof fn lemma_lifo<T>(s: Seq<T>, vals: Seq<T>)
    ensures
        popped(push_all(s, vals), vals.len()) == vals.reverse(),
        after_pops(push_all(s, vals), vals.len()) == s,
    decreases vals.len(),
{
    lemma_push_all(s, vals);
    if vals.len() == 0 {
        assert(vals.reverse() =~= Seq::<T>::empty());
    } else {
        let front = vals.drop_last();
        lemma_lifo(s, front);
        lemma_push_all(s, front);
        assert((s + vals).drop_last() =~= s + front);
        assert((s + vals).last() == vals.last());
        assert(vals.reverse() =~= seq![vals.last()] + front.reverse());
    }
}

} // verus!
