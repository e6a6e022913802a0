//! The value model: numeric and reference values and their types.

use crate::addressable::Addr;
use crate::error::Error;
use crate::module::WasmType;
use vstd::prelude::*;

verus! {

/// The type of a reference value.
#[derive(Copy, Clone, Eq, PartialEq, Debug, Structural)]
pub enum RefType {
    FuncRef,
    ExternRef,
}

/// The type of a runtime value; tables and globals are declared with one.
#[derive(Copy, Clone, PartialEq, Eq, Debug, Structural)]
pub enum ValueType {
    I32,
    I64,
    F32,
    F64,
    RefType(RefType),
}

/// A reference value. A null reference keeps the type it was declared with.
#[derive(Debug, Clone, Copy, Eq, PartialEq, Structural)]
pub enum RefValue {
    FuncRef(Addr),
    ExternRef,
    Null(RefType),
}

/// A runtime value. Floats are held as their bit patterns, so that no
/// payload of a NaN is lost on the way through the engine.
#[derive(Debug, Clone, Copy, Eq, PartialEq, Structural)]
pub enum Value {
    I32(i32),
    I64(i64),
    F32(u32),
    F64(u64),
    Ref(RefValue),
}

impl RefType {
    /// The reference type that `ty` writes, if it writes one.
    pub open spec fn spec_try_from(ty: WasmType) -> Result<RefType, Error> {
        match ty {
            WasmType::ExternRef => Ok(RefType::ExternRef),
            WasmType::FuncRef => Ok(RefType::FuncRef),
            _ => Err(Error::ExpectedRefType(ty)),
        }
    }

    /// `funcref` and `externref` are the reference types; any other type
    /// is `ExpectedRefType`.
    pub fn try_from(ty: WasmType) -> (r: Result<RefType, Error>)
        ensures
            r == Self::spec_try_from(ty),
            r is Ok <==> (ty is FuncRef || ty is ExternRef),
    {
        match ty {
            WasmType::ExternRef => Ok(RefType::ExternRef),
            WasmType::FuncRef => Ok(RefType::FuncRef),
            _ => Err(Error::ExpectedRefType(ty)),
        }
    }
}

impl ValueType {
    /// The value type that `ty` writes, if it writes one.
    pub open spec fn spec_try_from(ty: WasmType) -> Result<ValueType, Error> {
        match ty {
            WasmType::I32 => Ok(ValueType::I32),
            WasmType::I64 => Ok(ValueType::I64),
            WasmType::F32 => Ok(ValueType::F32),
            WasmType::F64 => Ok(ValueType::F64),
            WasmType::ExternRef => Ok(ValueType::RefType(RefType::ExternRef)),
            WasmType::FuncRef => Ok(ValueType::RefType(RefType::FuncRef)),
            _ => Err(Error::UnsupportedType(ty)),
        }
    }

    /// The four number types and the two reference types are value types;
    /// any other type is `UnsupportedType`.
    pub fn try_from(ty: WasmType) -> (r: Result<ValueType, Error>)
        ensures
            r == Self::spec_try_from(ty),
    {
        match ty {
            WasmType::I32 => Ok(ValueType::I32),
            WasmType::I64 => Ok(ValueType::I64),
            WasmType::F32 => Ok(ValueType::F32),
            WasmType::F64 => Ok(ValueType::F64),
            WasmType::ExternRef => Ok(ValueType::RefType(RefType::ExternRef)),
            WasmType::FuncRef => Ok(ValueType::RefType(RefType::FuncRef)),
            _ => Err(Error::UnsupportedType(ty)),
        }
    }
}

impl RefValue {
    /// The type of this reference, as a specification.
    pub open spec fn spec_ty(self) -> RefType {
        match self {
            RefValue::FuncRef(_) => RefType::FuncRef,
            RefValue::ExternRef => RefType::ExternRef,
            RefValue::Null(t) => t,
        }
    }

    /// The type of this reference.
    pub fn ty(&self) -> (t: RefType)
        ensures
            t == self.spec_ty(),
    {
        match self {
            RefValue::FuncRef(_) => RefType::FuncRef,
            RefValue::ExternRef => RefType::ExternRef,
            RefValue::Null(t) => *t,
        }
    }

    /// Whether this reference has the function-reference type; a null
    /// reference declared as one counts.
    pub fn is_func_ref(&self) -> (b: bool)
        ensures
            b == (self.spec_ty() == RefType::FuncRef),
    {
        self.ty() == RefType::FuncRef
    }
}

impl Value {
    /// The type of this value, as a specification.
    pub open spec fn spec_ty(self) -> ValueType {
        match self {
            Value::I32(_) => ValueType::I32,
            Value::I64(_) => ValueType::I64,
            Value::F32(_) => ValueType::F32,
            Value::F64(_) => ValueType::F64,
            Value::Ref(v) => ValueType::RefType(v.spec_ty()),
        }
    }

    /// The type of this value.
    pub fn ty(&self) -> (t: ValueType)
        ensures
            t == self.spec_ty(),
    {
        match self {
            Value::I32(_) => ValueType::I32,
            Value::I64(_) => ValueType::I64,
            Value::F32(_) => ValueType::F32,
            Value::F64(_) => ValueType::F64,
            Value::Ref(v) => ValueType::RefType(v.ty()),
        }
    }
}

} // verus!
