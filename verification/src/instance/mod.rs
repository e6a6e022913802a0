//! Module instances and the runtime objects that belong to them.

pub mod elem;
pub mod func;
pub mod global;
pub mod table;

pub use elem::Elem;
pub use func::Func;
pub use global::Global;
pub use table::Table;

use crate::addressable::InstanceIndex;
use crate::module::{copy_func_types, func_types_view, FuncType, FuncTypeView};
use vstd::prelude::*;

verus! {

/// The position of a module instance in the store.
pub type Index = InstanceIndex;

/// A handle on one instantiated module: its index in the store and the
/// signatures its module declares. The objects of the instance live in the
/// store, under addresses that carry this index.
#[derive(Debug)]
pub struct Instance {
    index: Index,
    types: Vec<FuncType>,
}

/// An instance as plain data.
pub struct InstanceView {
    pub index: Index,
    pub types: Seq<FuncTypeView>,
}

impl View for Instance {
    type V = InstanceView;

    closed spec fn view(&self) -> InstanceView {
        InstanceView { index: self.index, types: func_types_view(self.types@) }
    }
}

impl Clone for Instance {
    fn clone(&self) -> (r: Self)
        ensures
            r@ == self@,
    {
        Instance { index: self.index, types: copy_func_types(&self.types) }
    }
}

impl Instance {
    pub(crate) fn new(types: Vec<FuncType>, store_index: Index) -> (i: Self)
        ensures
            i@ == (InstanceView { index: store_index, types: func_types_view(types@) }),
    {
        Instance { index: store_index, types }
    }

    /// The position of this instance in its store.
    pub fn index(&self) -> (i: Index)
        ensures
            i == self@.index,
    {
        self.index
    }

    /// The signatures that the module of this instance declares.
    pub fn types(&self) -> (t: &Vec<FuncType>)
        ensures
            func_types_view(t@) == self@.types,
    {
        &self.types
    }
}

} // verus!
