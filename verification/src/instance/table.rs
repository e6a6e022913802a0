//! Tables: bounded buffers of references.

use crate::addressable::{Slot, Slottable};
use crate::error::Error;
use crate::val::{RefType, RefValue, Value};
use vstd::prelude::*;

verus! {

/// A table of references of one type. It is made with `initial` typed null
/// references and never gets shorter than that.
#[derive(Debug)]
pub struct Table {
    buffer: Vec<RefValue>,
    ty: RefType,
    initial: u32,
    maximum: Option<u32>,
}

/// A table as plain data.
pub struct TableView {
    pub buffer: Seq<RefValue>,
    pub ty: RefType,
    pub initial: u32,
    pub maximum: Option<u32>,
}

impl View for Table {
    type V = Seq<RefValue>;

    /// The references held, by index.
    closed spec fn view(&self) -> Seq<RefValue> {
        self.buffer@
    }
}

/// The offset that a value stands for: an `i32` or `i64` that is not
/// negative and that this machine can index with.
pub open spec fn offset_of(val: Value) -> Result<usize, Error> {
    match val {
        Value::I32(v) => if 0 <= v {
            Ok(v as usize)
        } else {
            Err(Error::InvalidOffset(val))
        },
        Value::I64(v) => if 0 <= v <= usize::MAX {
            Ok(v as usize)
        } else {
            Err(Error::InvalidOffset(val))
        },
        _ => Err(Error::UnexpectedOffset(val)),
    }
}

/// Whether `len` references written at `offset` fit a table of `size`.
pub open spec fn fits(offset: usize, len: nat, size: nat) -> bool {
    offset + len <= size
}

/// The outcome of writing `data` into `buffer` at the offset that `val`
/// stands for: the buffer with those positions overwritten, or the error.
pub open spec fn init_result(buffer: Seq<RefValue>, val: Value, data: Seq<RefValue>) -> Result<
    Seq<RefValue>,
    Error,
> {
    match offset_of(val) {
        Err(e) => Err(e),
        Ok(offset) => if fits(offset, data.len(), buffer.len()) {
            Ok(
                buffer.subrange(0, offset as int) + data + buffer.subrange(
                    offset + data.len(),
                    buffer.len() as int,
                ),
            )
        } else {
            Err(
                Error::TableOutOfBounds {
                    offset,
                    len: data.len() as usize,
                    size: buffer.len() as usize,
                },
            )
        },
    }
}

fn to_offset(val: &Value) -> (r: Result<usize, Error>)
    ensures
        r == offset_of(*val),
{
    match val {
        Value::I32(v) => {
            if *v >= 0 {
                Ok(*v as usize)
            } else {
                Err(Error::InvalidOffset(*val))
            }
        },
        Value::I64(v) => {
            if *v >= 0 && (*v as u64) <= (usize::MAX as u64) {
                Ok(*v as usize)
            } else {
                Err(Error::InvalidOffset(*val))
            }
        },
        _ => Err(Error::UnexpectedOffset(*val)),
    }
}

impl Table {
    #[verifier::type_invariant]
    spec fn at_least_initial(&self) -> bool {
        self.buffer@.len() >= self.initial
    }

    /// The type of the references.
    pub closed spec fn spec_ty(&self) -> RefType {
        self.ty
    }

    /// The size the table was made with.
    pub closed spec fn spec_initial(&self) -> u32 {
        self.initial
    }

    /// The size the table may grow to, if one is set.
    pub closed spec fn spec_maximum(&self) -> Option<u32> {
        self.maximum
    }

    /// The table as plain data.
    pub open spec fn snapshot(&self) -> TableView {
        TableView {
            buffer: self@,
            ty: self.spec_ty(),
            initial: self.spec_initial(),
            maximum: self.spec_maximum(),
        }
    }

    /// A table of `initial` null references of type `ty`.
    pub fn new(ty: RefType, initial: u32, maximum: Option<u32>) -> (r: Result<Self, Error>)
        ensures
            r matches Ok(t) && t@ == Seq::new(initial as nat, |i: int| RefValue::Null(ty))
                && t.spec_ty() == ty && t.spec_initial() == initial && t.spec_maximum() == maximum,
    {
        let mut buffer: Vec<RefValue> = Vec::new();
        let mut i: u32 = 0;
        while i < initial
            invariant
                i <= initial,
                buffer@ == Seq::new(i as nat, |j: int| RefValue::Null(ty)),
            decreases initial - i,
        {
            buffer.push(RefValue::Null(ty));
            i += 1;
            assert(buffer@ =~= Seq::new(i as nat, |j: int| RefValue::Null(ty)));
        }
        Ok(Table { buffer, ty, initial, maximum })
    }

    /// Whether `len` references can be written at `offset`: they can if and
    /// only if `offset + len` does not go past the end of the table.
    pub fn validate_offset(&self, offset: usize, len: usize) -> (r: Result<(), Error>)
        ensures
            r == (if fits(offset, len as nat, self@.len()) {
                Ok::<(), Error>(())
            } else {
                Err(Error::TableOutOfBounds { offset, len, size: self@.len() as usize })
            }),
    {
        let size = self.buffer.len();
        match offset.checked_add(len) {
            Some(end) => {
                if end <= size {
                    return Ok(());
                }
                Err(Error::TableOutOfBounds { offset, len, size })
            },
            None => Err(Error::TableOutOfBounds { offset, len, size }),
        }
    }

    /// Writes `data` into the table at the offset that `val` stands for,
    /// over what was there. Nothing is written unless all of `data` fits.
    pub fn init(&mut self, val: &Value, data: Vec<RefValue>) -> (r: Result<(), Error>)
        ensures
            match init_result(old(self)@, *val, data@) {
                Ok(buffer) => r is Ok && final(self)@ == buffer,
                Err(e) => r == Err::<(), Error>(e) && final(self)@ == old(self)@,
            },
            final(self)@.len() == old(self)@.len(),
            final(self).spec_ty() == old(self).spec_ty(),
            final(self).spec_initial() == old(self).spec_initial(),
            final(self).spec_maximum() == old(self).spec_maximum(),
    {
        proof {
            use_type_invariant(&*self);
        }
        let offset = match to_offset(val) {
            Ok(offset) => offset,
            Err(e) => {
                return Err(e);
            },
        };
        match self.validate_offset(offset, data.len()) {
            Ok(()) => {},
            Err(e) => {
                return Err(e);
            },
        }
        let ghost before = self.buffer@;
        let mut index: usize = 0;
        while index < data.len()
            invariant
                index <= data.len(),
                offset + data.len() <= self.buffer.len(),
                self.buffer@.len() == before.len(),
                before.len() >= self.initial,
                self.buffer@ == before.subrange(0, offset as int) + data@.take(index as int)
                    + before.subrange(offset + index, before.len() as int),
                self.ty == old(self).ty,
                self.initial == old(self).initial,
                self.maximum == old(self).maximum,
            decreases data.len() - index,
        {
            self.buffer[offset + index] = data[index];
            index += 1;
            assert(self.buffer@ =~= before.subrange(0, offset as int) + data@.take(index as int)
                + before.subrange(offset + index, before.len() as int));
        }
        assert(data@.take(data.len() as int) =~= data@);
        Ok(())
    }

    /// The number of references held: never fewer than the table was made
    /// with.
    pub fn len(&self) -> (n: usize)
        ensures
            n == self@.len(),
            n >= self.spec_initial(),
    {
        proof {
            use_type_invariant(self);
        }
        self.buffer.len()
    }

    /// The reference at `index`, if the table is that long.
    pub fn get(&self, index: usize) -> (r: Option<RefValue>)
        ensures
            r == (if index < self@.len() {
                Some(self@[index as int])
            } else {
                None
            }),
    {
        if index < self.buffer.len() {
            Some(self.buffer[index])
        } else {
            None
        }
    }

    /// The type of the references.
    pub fn ty(&self) -> (t: RefType)
        ensures
            t == self.spec_ty(),
    {
        self.ty
    }

    /// The size the table was made with.
    pub fn initial(&self) -> (n: u32)
        ensures
            n == self.spec_initial(),
    {
        self.initial
    }

    /// The size the table may grow to, if one is set.
    pub fn maximum(&self) -> (m: Option<u32>)
        ensures
            m == self.spec_maximum(),
    {
        self.maximum
    }
}

impl Slottable for Table {
    const SLOT: Slot = Slot::Table;
}

/// The index space of `Table`, spelled out.
pub proof fn lemma_slot()
    ensures
        Table::SLOT == Slot::Table,
{
}

} // verus!
