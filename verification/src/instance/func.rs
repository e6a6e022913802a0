//! Functions: a signature, the locals and the decoded instructions.

use crate::addressable::{Slot, Slottable};
use crate::error::{DecodeError, Error};
use crate::instr::Instr;
use crate::module::{FuncType, FuncTypeView, FunctionBody, WasmType};
use crate::reader::{
    local_at, locals_header, locals_header_of, operator_at, operators_start, operators_start_of,
    read_local, read_operator,
};
use vstd::prelude::*;

verus! {

/// A function of an instance.
#[derive(Debug)]
pub struct Func {
    ty: FuncType,
    locals: Vec<WasmType>,
    body: Vec<Instr>,
}

/// A function as plain data.
pub struct FuncView {
    pub ty: FuncTypeView,
    /// One entry for each local, in the order of declaration.
    pub locals: Seq<WasmType>,
    pub body: Seq<Instr>,
}

impl View for Func {
    type V = FuncView;

    closed spec fn view(&self) -> FuncView {
        FuncView { ty: self.ty@, locals: self.locals@, body: self.body@ }
    }
}

/// The locals that a list of runs declares: each run `(count, type)` stands
/// for `count` locals of that type, and the runs follow one another.
pub open spec fn flatten_locals(runs: Seq<(u32, WasmType)>) -> Seq<WasmType>
    decreases runs.len(),
{
    if runs.len() == 0 {
        Seq::empty()
    } else {
        flatten_locals(runs.drop_last()) + Seq::new(
            runs.last().0 as nat,
            |i: int| runs.last().1,
        )
    }
}

/// The `left` runs of locals that the decoder reads from `body`, the first
/// at `pos`, each where the one before ended.
pub open spec fn decode_locals(body: Seq<u8>, pos: int, left: nat) -> Result<
    Seq<(u32, WasmType)>,
    DecodeError,
>
    decreases left,
{
    if left == 0 {
        Ok(Seq::empty())
    } else {
        match local_at(body, pos) {
            Err(e) => Err(e),
            Ok((run, next)) => match decode_locals(body, next as int, (left - 1) as nat) {
                Err(e) => Err(e),
                Ok(rest) => Ok(seq![run] + rest),
            },
        }
    }
}

/// The instructions that the decoder reads from `body`, the first at
/// `pos`, each where the one before ended, up to the end of the body.
pub open spec fn decode_operators(body: Seq<u8>, pos: int) -> Result<Seq<Instr>, DecodeError>
    decreases body.len() - pos,
{
    if pos >= body.len() {
        Ok(Seq::empty())
    } else {
        match operator_at(body, pos) {
            Err(e) => Err(e),
            Ok((kind, next)) => if pos < next <= body.len() {
                match decode_operators(body, next as int) {
                    Err(e) => Err(e),
                    Ok(rest) => Ok(seq![Instr { kind }] + rest),
                }
            } else {
                Ok(seq![Instr { kind }])
            },
        }
    }
}

/// The locals and the instructions that the body of a function decodes to.
/// The two readers are set up first, then the locals are read, then the
/// instructions; the first failure is the outcome.
pub open spec fn decode_body(body: Seq<u8>) -> Result<(Seq<WasmType>, Seq<Instr>), DecodeError> {
    match locals_header_of(body) {
        Err(e) => Err(e),
        Ok((count, locals_pos)) => match operators_start_of(body) {
            Err(e) => Err(e),
            Ok(operators_pos) => match decode_locals(body, locals_pos as int, count as nat) {
                Err(e) => Err(e),
                Ok(runs) => match decode_operators(body, operators_pos as int) {
                    Err(e) => Err(e),
                    Ok(instrs) => Ok((flatten_locals(runs), instrs)),
                },
            },
        },
    }
}

/// Expands runs of locals into one entry for each local.
pub fn expand_locals(runs: &Vec<(u32, WasmType)>) -> (locals: Vec<WasmType>)
    ensures
        locals@ == flatten_locals(runs@),
{
    let mut locals: Vec<WasmType> = Vec::new();
    let mut i: usize = 0;
    while i < runs.len()
        invariant
            i <= runs.len(),
            locals@ == flatten_locals(runs@.take(i as int)),
        decreases runs.len() - i,
    {
        let (count, ty) = runs[i];
        let ghost before = locals@;
        let mut j: u32 = 0;
        while j < count
            invariant
                j <= count,
                locals@ == before + Seq::new(j as nat, |k: int| ty),
            decreases count - j,
        {
            locals.push(ty);
            j += 1;
            assert(locals@ =~= before + Seq::new(j as nat, |k: int| ty));
        }
        i += 1;
        proof {
            let upto = runs@.take(i as int);
            assert(upto.drop_last() =~= runs@.take(i - 1));
            assert(upto.last() == (count, ty));
        }
    }
    assert(runs@.take(runs.len() as int) =~= runs@);
    locals
}

fn read_locals(body: &[u8], start: usize, count: u32) -> (r: Result<
    Vec<(u32, WasmType)>,
    DecodeError,
>)
    requires
        start <= body@.len(),
    ensures
        match decode_locals(body@, start as int, count as nat) {
            Ok(runs) => r matches Ok(v) && v@ == runs,
            Err(e) => r matches Err(err) && err == e,
        },
{
    let mut runs: Vec<(u32, WasmType)> = Vec::new();
    let mut pos = start;
    let mut left = count;
    while left > 0
        invariant
            pos <= body@.len(),
            decode_locals(body@, start as int, count as nat) == (match decode_locals(
                body@,
                pos as int,
                left as nat,
            ) {
                Ok(rest) => Ok::<Seq<(u32, WasmType)>, DecodeError>(runs@ + rest),
                Err(e) => Err(e),
            }),
        decreases left,
    {
        match read_local(body, pos) {
            Err(e) => {
                return Err(e);
            },
            Ok((run, next)) => {
                proof {
                    let rest = decode_locals(body@, next as int, (left - 1) as nat);
                    if let Ok(tail) = rest {
                        assert(runs@ + (seq![run] + tail) =~= runs@.push(run) + tail);
                    }
                }
                runs.push(run);
                pos = next;
                left -= 1;
            },
        }
    }
    assert(runs@ + Seq::<(u32, WasmType)>::empty() =~= runs@);
    Ok(runs)
}

fn read_operators(body: &[u8], start: usize) -> (r: Result<Vec<Instr>, DecodeError>)
    requires
        start <= body@.len(),
    ensures
        match decode_operators(body@, start as int) {
            Ok(instrs) => r matches Ok(v) && v@ == instrs,
            Err(e) => r matches Err(err) && err == e,
        },
{
    let mut instrs: Vec<Instr> = Vec::new();
    let mut pos = start;
    while pos < body.len()
        invariant
            pos <= body@.len(),
            decode_operators(body@, start as int) == (match decode_operators(body@, pos as int) {
                Ok(rest) => Ok::<Seq<Instr>, DecodeError>(instrs@ + rest),
                Err(e) => Err(e),
            }),
        decreases body@.len() - pos,
    {
        match read_operator(body, pos) {
            Err(e) => {
                return Err(e);
            },
            Ok((kind, next)) => {
                let instr = Instr::new(kind);
                proof {
                    let rest = decode_operators(body@, next as int);
                    if let Ok(tail) = rest {
                        assert(instrs@ + (seq![instr] + tail) =~= instrs@.push(instr) + tail);
                    }
                }
                instrs.push(instr);
                pos = next;
            },
        }
    }
    assert(instrs@ + Seq::<Instr>::empty() =~= instrs@);
    Ok(instrs)
}

impl Func {
    /// A function of signature `ty`, with the locals and the instructions
    /// that `body` decodes to. A body that does not decode gives the
    /// decoder's error.
    pub fn new(ty: FuncType, body: &FunctionBody) -> (r: Result<Self, Error>)
        ensures
            match decode_body(body.data@) {
                Ok((locals, instrs)) => r matches Ok(f) && f@ == (FuncView {
                    ty: ty@,
                    locals,
                    body: instrs,
                }),
                Err(e) => r matches Err(err) && err == Error::Decode(e),
            },
    {
        let bytes = body.data.as_slice();
        let (count, locals_pos) = match locals_header(bytes) {
            Ok(header) => header,
            Err(e) => {
                return Err(Error::Decode(e));
            },
        };
        let operators_pos = match operators_start(bytes) {
            Ok(pos) => pos,
            Err(e) => {
                return Err(Error::Decode(e));
            },
        };
        let runs = match read_locals(bytes, locals_pos, count) {
            Ok(runs) => runs,
            Err(e) => {
                return Err(Error::Decode(e));
            },
        };
        let instrs = match read_operators(bytes, operators_pos) {
            Ok(instrs) => instrs,
            Err(e) => {
                return Err(Error::Decode(e));
            },
        };
        Ok(Func { ty, locals: expand_locals(&runs), body: instrs })
    }

    /// The signature.
    pub fn ty(&self) -> (t: &FuncType)
        ensures
            t@ == self@.ty,
    {
        &self.ty
    }

    /// The locals, one entry for each.
    pub fn locals(&self) -> (l: &Vec<WasmType>)
        ensures
            l@ == self@.locals,
    {
        &self.locals
    }

    /// The instructions.
    pub fn body(&self) -> (b: &Vec<Instr>)
        ensures
            b@ == self@.body,
    {
        &self.body
    }
}

impl Slottable for Func {
    const SLOT: Slot = Slot::Func;
}

/// The index space of `Func`, spelled out.
pub proof fn lemma_slot()
    ensures
        Func::SLOT == Slot::Func,
{
}

} // verus!
