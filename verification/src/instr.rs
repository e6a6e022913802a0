//! Instructions, as far as the engine looks into them.

use crate::error::Error;
use crate::val::Value;
use vstd::prelude::*;

verus! {

/// What an instruction is. The constants and `ref.func` are told apart,
/// since initialisers are made of them; every other instruction is `Other`.
#[derive(Debug, Clone, Copy, PartialEq, Eq, Structural)]
pub enum Operator {
    I32Const { value: i32 },
    I64Const { value: i64 },
    /// `f32.const`, by the bits of its operand.
    F32Const { bits: u32 },
    /// `f64.const`, by the bits of its operand.
    F64Const { bits: u64 },
    RefFunc { function_index: u32 },
    Other,
}

/// One decoded instruction.
#[derive(Debug, Clone, Copy, PartialEq, Eq, Structural)]
pub struct Instr {
    pub kind: Operator,
}

impl Instr {
    pub fn new(kind: Operator) -> (i: Self)
        ensures
            i.kind == kind,
    {
        Instr { kind }
    }

    /// The value that a constant instruction stands for, and `None` for any
    /// other instruction.
    pub open spec fn spec_const_value(self) -> Option<Value> {
        match self.kind {
            Operator::I32Const { value } => Some(Value::I32(value)),
            Operator::I64Const { value } => Some(Value::I64(value)),
            Operator::F32Const { bits } => Some(Value::F32(bits)),
            Operator::F64Const { bits } => Some(Value::F64(bits)),
            _ => None,
        }
    }

    /// The function that `ref.func` names, and `None` for any other
    /// instruction.
    pub open spec fn spec_funcref_idx(self) -> Option<u32> {
        match self.kind {
            Operator::RefFunc { function_index } => Some(function_index),
            _ => None,
        }
    }

    /// The value of `i32.const`, `i64.const`, `f32.const` or `f64.const`,
    /// with the bits of a float kept as they are; `None` for every other
    /// instruction.
    pub fn const_value(&self) -> (v: Option<Value>)
        ensures
            v == self.spec_const_value(),
            v is Some <==> (self.kind is I32Const || self.kind is I64Const || self.kind is F32Const
                || self.kind is F64Const),
    {
        match self.kind {
            Operator::I32Const { value } => Some(Value::I32(value)),
            Operator::I64Const { value } => Some(Value::I64(value)),
            Operator::F32Const { bits } => Some(Value::F32(bits)),
            Operator::F64Const { bits } => Some(Value::F64(bits)),
            _ => None,
        }
    }

    /// The index that `ref.func` carries; `None` for every other instruction.
    pub fn funcref_idx(&self) -> (i: Option<u32>)
        ensures
            i == self.spec_funcref_idx(),
            i is Some <==> self.kind is RefFunc,
    {
        match self.kind {
            Operator::RefFunc { function_index } => Some(function_index),
            _ => None,
        }
    }

    /// The value of a constant instruction; `NotConstant` for any other.
    pub fn eval_const(&self) -> (r: Result<Value, Error>)
        ensures
            r == (match self.spec_const_value() {
                Some(v) => Ok::<Value, Error>(v),
                None => Err(Error::NotConstant(*self)),
            }),
    {
        match self.const_value() {
            Some(v) => Ok(v),
            None => Err(Error::NotConstant(*self)),
        }
    }
}

} // verus!
