//! The abstract machine, and the evaluation of initialiser expressions.

use crate::addressable::{Addr, InstanceIndex, Slot};
use crate::error::{DecodeError, Error};
use crate::frame::Frame;
use crate::instr::{Instr, Operator};
use crate::label::Label;
use crate::module::InitExpr;
use crate::reader::{operator_at, read_operator};
use crate::stack::Stack;
use crate::val::{RefValue, Value};
use vstd::prelude::*;

verus! {

/// An entry of the machine's stack. Values, frames and labels share one
/// stack, so that their order among each other is kept.
#[derive(Debug)]
pub enum StackEntry {
    Val(Value),
    CallFrame(Frame),
    Label(Label),
}

/// The abstract machine: the position in the instructions of the function
/// that runs, and the stack.
#[derive(Debug)]
pub struct VM {
    pub ip: usize,
    pub stack: Stack<StackEntry>,
}

impl VM {
    /// A machine at the first instruction, with an empty stack.
    pub fn new() -> (vm: Self)
        ensures
            vm.ip == 0,
            vm.stack@ == Seq::<StackEntry>::empty(),
    {
        VM { ip: 0, stack: Stack::default() }
    }
}

/// What a constant initialiser gives, seen from the outcome of reading its
/// first instruction.
pub open spec fn constant_of(read: Result<(Operator, usize), DecodeError>) -> Result<Value, Error> {
    match read {
        Err(e) => Err(Error::Decode(e)),
        Ok((kind, _)) => match (Instr { kind }).spec_const_value() {
            Some(v) => Ok(v),
            None => Err(Error::NotConstant(Instr { kind })),
        },
    }
}

/// What an initialiser of an element item gives for instance
/// `instance_index`, seen from the outcome of reading its first
/// instruction.
pub open spec fn funcref_of(
    read: Result<(Operator, usize), DecodeError>,
    instance_index: InstanceIndex,
) -> Result<RefValue, Error> {
    match read {
        Err(e) => Err(Error::Decode(e)),
        Ok((kind, _)) => match (Instr { kind }).spec_funcref_idx() {
            Some(idx) => Ok(RefValue::FuncRef(Addr(instance_index, idx, Slot::Func))),
            None => Err(Error::NotFuncRef(Instr { kind })),
        },
    }
}

/// The value of an instruction that stands as a constant initialiser:
/// `i32.const`, `i64.const`, `f32.const` and `f64.const` give their
/// operand, every other instruction is `NotConstant`.
pub fn constant_value(instr: Instr) -> (r: Result<Value, Error>)
    ensures
        r == constant_of(Ok((instr.kind, 0usize))),
        r is Ok <==> (instr.kind is I32Const || instr.kind is I64Const || instr.kind is F32Const
            || instr.kind is F64Const),
{
    match instr.const_value() {
        Some(v) => Ok(v),
        None => Err(Error::NotConstant(instr)),
    }
}

/// The reference that an instruction gives as the initialiser of an
/// element item: `ref.func` gives the address of that function in instance
/// `instance_index`, every other instruction is `NotFuncRef`.
pub fn funcref_value(instr: Instr, instance_index: InstanceIndex) -> (r: Result<RefValue, Error>)
    ensures
        r == funcref_of(Ok((instr.kind, 0usize)), instance_index),
        r is Ok <==> instr.kind is RefFunc,
{
    match instr.funcref_idx() {
        Some(idx) => Ok(RefValue::FuncRef(Addr::new_unsafe(instance_index, idx, Slot::Func))),
        None => Err(Error::NotFuncRef(instr)),
    }
}

/// Resolves a constant initialiser expression to a value. Exactly one
/// instruction is read: the first of the expression.
pub fn resolve_constant_expr(expr: &InitExpr) -> (r: Result<Value, Error>)
    ensures
        r == constant_of(operator_at(expr.data@, 0)),
{
    match read_operator(expr.data.as_slice(), 0) {
        Err(e) => Err(Error::Decode(e)),
        Ok((kind, _)) => constant_value(Instr::new(kind)),
    }
}

/// Resolves the initialiser expression of an element item to a function
/// reference into instance `instance_index`. Exactly one instruction is
/// read: the first of the expression.
pub fn resolve_funcref_expr(expr: &InitExpr, instance_index: InstanceIndex) -> (r: Result<
    RefValue,
    Error,
>)
    ensures
        r == funcref_of(operator_at(expr.data@, 0), instance_index),
{
    match read_operator(expr.data.as_slice(), 0) {
        Err(e) => Err(Error::Decode(e)),
        Ok((kind, _)) => funcref_value(Instr::new(kind), instance_index),
    }
}

} // verus!
