//! Reading the binary encoding, by way of `wasmparser`.
//!
//! Every function here reads one item from a window of bytes, at a position
//! counted from the start of the window, and says where the next item
//! starts. What is read is a function of the bytes and the position alone:
//! each result has a name, and the engine's contracts speak of those names.

use crate::error::DecodeError;
use crate::instr::Operator;
use crate::module::WasmType;
use vstd::prelude::*;
use wasmparser::BinaryReader;
use wasmparser::Type;

verus! {

/// The instruction that `wasmparser` reads from `data` at `pos`, with the
/// position that follows it.
pub uninterp spec fn operator_at(data: Seq<u8>, pos: int) -> Result<(Operator, usize), DecodeError>;

/// Where, in the body of a function, the instructions start: the position
/// that follows the declarations of its locals.
pub uninterp spec fn operators_start_of(body: Seq<u8>) -> Result<usize, DecodeError>;

/// The number of runs of locals that the body of a function declares, and
/// the position of the first run.
pub uninterp spec fn locals_header_of(body: Seq<u8>) -> Result<(u32, usize), DecodeError>;

/// The run of locals (how many, and of which type) that `wasmparser` reads
/// from `body` at `pos`, with the position that follows it.
pub uninterp spec fn local_at(body: Seq<u8>, pos: int) -> Result<
    ((u32, WasmType), usize),
    DecodeError,
>;

/// `BinaryReader::read_operator` on the bytes of `data` from `pos` on.
///
/// Claimed of it: the result depends on the bytes and the position alone;
/// a successful read consumes at least the opcode byte and never goes past
/// the end of the window. Of the instruction itself only the kind is
/// handed on, with the operand of a constant or of `ref.func`.
#[verifier::external_body]
pub(crate) fn read_operator(data: &[u8], pos: usize) -> (r: Result<(Operator, usize), DecodeError>)
    requires
        pos <= data@.len(),
    ensures
        r == operator_at(data@, pos as int),
        r matches Ok((_, next)) ==> pos < next <= data@.len(),
{
    let mut reader = BinaryReader::new_with_offset(&data[pos..], pos);
    match reader.read_operator() {
        Ok(op) => Ok((match op {
            wasmparser::Operator::I32Const { value } => Operator::I32Const { value },
            wasmparser::Operator::I64Const { value } => Operator::I64Const { value },
            wasmparser::Operator::F32Const { value } => Operator::F32Const { bits: value.bits() },
            wasmparser::Operator::F64Const { value } => Operator::F64Const { bits: value.bits() },
            wasmparser::Operator::RefFunc { function_index } => Operator::RefFunc { function_index },
            _ => Operator::Other,
        }, reader.original_position())),
        Err(e) => Err(DecodeError { message: e.message().to_string(), offset: e.offset() }),
    }
}

/// `FunctionBody::get_operators_reader`, asked for its position.
///
/// Claimed of it: the result depends on the bytes alone, and the position
/// lies inside the body.
#[verifier::external_body]
pub(crate) fn operators_start(body: &[u8]) -> (r: Result<usize, DecodeError>)
    ensures
        r == operators_start_of(body@),
        r matches Ok(pos) ==> pos <= body@.len(),
{
    match wasmparser::FunctionBody::new(0, body).get_operators_reader() {
        Ok(reader) => Ok(reader.original_position()),
        Err(e) => Err(DecodeError { message: e.message().to_string(), offset: e.offset() }),
    }
}

/// `FunctionBody::get_locals_reader`, asked for its count and its position.
///
/// Claimed of it: the result depends on the bytes alone, and the position
/// lies inside the body.
#[verifier::external_body]
pub(crate) fn locals_header(body: &[u8]) -> (r: Result<(u32, usize), DecodeError>)
    ensures
        r == locals_header_of(body@),
        r matches Ok((_, pos)) ==> pos <= body@.len(),
{
    match wasmparser::FunctionBody::new(0, body).get_locals_reader() {
        Ok(reader) => Ok((reader.get_count(), reader.original_position())),
        Err(e) => Err(DecodeError { message: e.message().to_string(), offset: e.offset() }),
    }
}

/// One run of locals, read as `LocalsReader::read` reads it: a count by
/// `BinaryReader::read_var_u32`, then a type by `BinaryReader::read_type`.
///
/// Claimed of it: the result depends on the bytes and the position alone;
/// a successful read consumes at least one byte and never goes past the
/// end of the body.
#[verifier::external_body]
pub(crate) fn read_local(body: &[u8], pos: usize) -> (r: Result<
    ((u32, WasmType), usize),
    DecodeError,
>)
    requires
        pos <= body@.len(),
    ensures
        r == local_at(body@, pos as int),
        r matches Ok((_, next)) ==> pos < next <= body@.len(),
{
    let mut reader = BinaryReader::new_with_offset(&body[pos..], pos);
    match reader.read_var_u32().and_then(|n| reader.read_type().map(|t| (n, t))) {
        Ok((n, t)) => Ok(((n, match t {
            Type::I32 => WasmType::I32, Type::I64 => WasmType::I64,
            Type::F32 => WasmType::F32, Type::F64 => WasmType::F64,
            Type::V128 => WasmType::V128, Type::FuncRef => WasmType::FuncRef,
            Type::ExternRef => WasmType::ExternRef, Type::ExnRef => WasmType::ExnRef,
            Type::Func => WasmType::Func, Type::EmptyBlockType => WasmType::EmptyBlockType,
        }), reader.original_position())),
        Err(e) => Err(DecodeError { message: e.message().to_string(), offset: e.offset() }),
    }
}

} // verus!
