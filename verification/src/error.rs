//! The errors of the engine.

use crate::addressable::Addr;
use crate::instr::Instr;
use crate::module::WasmType;
use crate::val::Value;
use vstd::prelude::*;

verus! {

/// A failure of the binary decoder: what it said, and where in the bytes it
/// was handed.
#[derive(Debug, Clone, PartialEq, Eq)]
pub struct DecodeError {
    pub message: String,
    pub offset: usize,
}

/// A part of the binary format that this engine does not implement.
#[derive(Debug, Clone, Copy, PartialEq, Eq, Structural)]
pub enum Unsupported {
    AliasSection,
    InstanceSection,
    NestedModule,
    TagSection,
    ModuleType,
    InstanceType,
    TagImport,
    InstanceImport,
    ModuleImport,
}

/// What can go wrong in the engine.
#[derive(Debug, Clone, PartialEq, Eq)]
pub enum Error {
    /// The module uses a feature that the engine does not implement.
    Unsupported(Unsupported),
    /// The decoder could not read what it was given.
    Decode(DecodeError),
    /// An initialiser is no `i32.const`, `i64.const`, `f32.const` or
    /// `f64.const`.
    NotConstant(Instr),
    /// An initialiser of an element item is no `ref.func`.
    NotFuncRef(Instr),
    /// A type that is no number and no reference stands where a value type
    /// is asked for.
    UnsupportedType(WasmType),
    /// A type that is no reference stands where a reference type is asked
    /// for.
    ExpectedRefType(WasmType),
    /// A table was initialised at an offset that is no `i32` or `i64`.
    UnexpectedOffset(Value),
    /// A table offset that is negative or too large for this machine.
    InvalidOffset(Value),
    /// `len` references written at `offset` do not fit a table of `size`.
    TableOutOfBounds { offset: usize, len: usize, size: usize },
    /// An active element segment names a table that is not in the store.
    InvalidTableAddress(Addr),
    /// A function names a type that the module does not declare.
    InvalidTypeIndex(u32),
    /// A position in an index space that no `u32` can hold.
    IndexOverflow(usize),
    /// An instance of this name is registered already.
    DuplicateInstanceName(String),
    /// A pop from an empty stack.
    StackUnderflow,
}

/// The step of instantiation that failed.
#[derive(Debug, Clone, Copy, PartialEq, Eq, Structural)]
pub enum Step {
    /// Registering the name of the instance.
    Register,
    Globals,
    Funcs,
    Tables,
    Elems,
}

/// Why a module could not be instantiated: the step that failed, the index
/// it failed at (of the global, function, table or element segment in its
/// index space; of the instance itself for `Register`), and what went wrong
/// there.
#[derive(Debug, Clone, PartialEq, Eq)]
pub struct InstantiationError {
    pub step: Step,
    pub index: usize,
    pub cause: Error,
}

} // verus!
