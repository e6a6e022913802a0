//! Element segments, with their items resolved to references.

use crate::addressable::{Slot, Slottable};
use crate::error::Error;
use crate::module::ElementKind;
use crate::reader::operator_at;
use crate::val::{RefType, RefValue, Value};
use crate::vm::{constant_of, resolve_constant_expr};
use vstd::prelude::*;

verus! {

/// How an element segment is used.
#[derive(Debug, Clone, Copy, PartialEq, Eq, Structural)]
pub enum ElemKind {
    /// Not installed anywhere until the program asks.
    Passive,
    /// Copied into table `index` at `offset` when the module is
    /// instantiated.
    Active { index: u32, offset: Value },
    /// Declared for later reference; never installed.
    Declared,
}

/// An element segment of an instance.
#[derive(Debug)]
pub struct Elem {
    ty: RefType,
    pub data: Vec<RefValue>,
    kind: ElemKind,
}

/// An element segment as plain data.
pub struct ElemView {
    pub ty: RefType,
    pub data: Seq<RefValue>,
    pub kind: ElemKind,
}

/// The kind of a segment in an instance, seen from its declaration: the
/// offset expression of an active segment is resolved as a constant.
pub open spec fn elem_kind_of(kind: ElementKind) -> Result<ElemKind, Error> {
    match kind {
        ElementKind::Passive => Ok(ElemKind::Passive),
        ElementKind::Declared => Ok(ElemKind::Declared),
        ElementKind::Active { table_index, init_expr } => match constant_of(
            operator_at(init_expr.data@, 0),
        ) {
            Ok(offset) => Ok(ElemKind::Active { index: table_index, offset }),
            Err(e) => Err(e),
        },
    }
}

impl Elem {
    /// The type of the references.
    pub closed spec fn spec_ty(&self) -> RefType {
        self.ty
    }

    /// How the segment is used.
    pub closed spec fn spec_kind(&self) -> ElemKind {
        self.kind
    }

    /// The references of the segment, in order.
    pub closed spec fn spec_data(&self) -> Seq<RefValue> {
        self.data@
    }

    /// The segment as plain data.
    pub open spec fn snapshot(&self) -> ElemView {
        ElemView { ty: self.spec_ty(), data: self.spec_data(), kind: self.spec_kind() }
    }

    /// The table and the offset that the segment is copied to, which an
    /// active segment has and no other.
    pub open spec fn spec_metadata(&self) -> Option<(u32, Value)> {
        match self.spec_kind() {
            ElemKind::Active { index, offset } => Some((index, offset)),
            _ => None,
        }
    }

    /// A segment of the references `data`, used as `kind` declares. The
    /// offset of an active segment must be a constant expression.
    pub fn new(ty: RefType, data: Vec<RefValue>, kind: &ElementKind) -> (r: Result<Self, Error>)
        ensures
            match elem_kind_of(*kind) {
                Ok(k) => r matches Ok(e) && e.spec_ty() == ty && e.spec_data() == data@ && e.spec_kind()
                    == k,
                Err(err) => r matches Err(e) && e == err,
            },
    {
        let kind = match kind {
            ElementKind::Passive => ElemKind::Passive,
            ElementKind::Declared => ElemKind::Declared,
            ElementKind::Active { table_index, init_expr } => {
                match resolve_constant_expr(init_expr) {
                    Ok(val) => ElemKind::Active { index: *table_index, offset: val },
                    Err(e) => {
                        return Err(e);
                    },
                }
            },
        };
        Ok(Self { ty, data, kind })
    }

    /// Is this element segment active?
    pub fn is_active(&self) -> (b: bool)
        ensures
            b == (self.spec_kind() is Active),
            b == self.spec_metadata().is_some(),
    {
        match self.kind {
            ElemKind::Active { .. } => true,
            _ => false,
        }
    }

    /// The table and the offset that an active segment is copied to.
    pub fn metadata(&self) -> (r: Option<(u32, &Value)>)
        ensures
            match r {
                Some((index, offset)) => self.spec_metadata() == Some((index, *offset)),
                None => self.spec_metadata().is_none(),
            },
    {
        match &self.kind {
            ElemKind::Active { index, offset } => Some((*index, offset)),
            _ => None,
        }
    }

    /// The references of the segment, in order.
    pub fn data(&self) -> (d: &Vec<RefValue>)
        ensures
            d@ == self.spec_data(),
    {
        &self.data
    }

    /// The type of the references.
    pub fn ty(&self) -> (t: RefType)
        ensures
            t == self.spec_ty(),
    {
        self.ty
    }

    /// How the segment is used.
    pub fn kind(&self) -> (k: ElemKind)
        ensures
            k == self.spec_kind(),
    {
        self.kind
    }
}

impl Slottable for Elem {
    const SLOT: Slot = Slot::Elem;
}

/// The index space of `Elem`, spelled out.
pub proof fn lemma_slot()
    ensures
        Elem::SLOT == Slot::Elem,
{
}

} // verus!
