//! Globals: single storage cells.

use crate::addressable::{Slot, Slottable};
use crate::module::GlobalType;
use crate::val::Value;
use vstd::prelude::*;

verus! {

/// A global: the value it holds now, and the type it was declared with.
#[derive(Debug, Clone, Copy, PartialEq, Eq, Structural)]
pub struct Global {
    pub val: Value,
    pub ty: GlobalType,
}

impl Global {
    pub fn new(val: Value, ty: GlobalType) -> (g: Self)
        ensures
            g == (Global { val, ty }),
    {
        Self { val, ty }
    }

    /// The value held.
    pub fn val(&self) -> (v: Value)
        ensures
            v == self.val,
    {
        self.val
    }

    /// The declared type.
    pub fn ty(&self) -> (t: GlobalType)
        ensures
            t == self.ty,
    {
        self.ty
    }
}

impl Slottable for Global {
    const SLOT: Slot = Slot::Global;
}

/// The index space of `Global`, spelled out.
pub proof fn lemma_slot()
    ensures
        Global::SLOT == Slot::Global,
{
}

} // verus!
