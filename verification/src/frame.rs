//! Activation records.

use crate::addressable::Addr;
use crate::error::Error;
use crate::module::WasmType;
use crate::val::{RefValue, Value, ValueType};
use vstd::prelude::*;

verus! {

/// The activation record of one call: the locals of the callee, and the
/// address of the function whose instructions it runs.
#[derive(Debug)]
pub struct Frame {
    pub func: Addr,
    pub locals: Vec<Value>,
}

/// The value that a local of type `ty` starts with: zero for a number, a
/// null reference of its type for a reference.
pub open spec fn default_of(ty: WasmType) -> Result<Value, Error> {
    match ValueType::spec_try_from(ty) {
        Err(e) => Err(e),
        Ok(ValueType::I32) => Ok(Value::I32(0)),
        Ok(ValueType::I64) => Ok(Value::I64(0)),
        Ok(ValueType::F32) => Ok(Value::F32(0)),
        Ok(ValueType::F64) => Ok(Value::F64(0)),
        Ok(ValueType::RefType(t)) => Ok(Value::Ref(RefValue::Null(t))),
    }
}

/// The values that locals of the types `declared` start with. The first
/// type that is no value type gives the error.
pub open spec fn defaults_of(declared: Seq<WasmType>) -> Result<Seq<Value>, Error>
    decreases declared.len(),
{
    if declared.len() == 0 {
        Ok(Seq::empty())
    } else {
        match defaults_of(declared.drop_last()) {
            Err(first) => Err(first),
            Ok(front) => match default_of(declared.last()) {
                Err(e) => Err(e),
                Ok(v) => Ok(front.push(v)),
            },
        }
    }
}

/// A type that is no value type among the first `n` decides for the whole
/// list.
pub proof fn lemma_defaults_error_stays(declared: Seq<WasmType>, n: int)
    requires
        0 <= n <= declared.len(),
        defaults_of(declared.take(n)) is Err,
    ensures
        defaults_of(declared) == defaults_of(declared.take(n)),
    decreases declared.len() - n,
{
    if n == declared.len() {
        assert(declared.take(n) =~= declared);
    } else {
        assert(declared.take(n + 1).drop_last() =~= declared.take(n));
        lemma_defaults_error_stays(declared, n + 1);
    }
}

/// The value that a local of type `ty` starts with.
pub fn default_value(ty: WasmType) -> (r: Result<Value, Error>)
    ensures
        r == default_of(ty),
{
    match ValueType::try_from(ty) {
        Err(e) => Err(e),
        Ok(ValueType::I32) => Ok(Value::I32(0)),
        Ok(ValueType::I64) => Ok(Value::I64(0)),
        Ok(ValueType::F32) => Ok(Value::F32(0)),
        Ok(ValueType::F64) => Ok(Value::F64(0)),
        Ok(ValueType::RefType(t)) => Ok(Value::Ref(RefValue::Null(t))),
    }
}

impl Frame {
    /// The frame of a call of the function at `func`: its locals are the
    /// values of the call, `args`, and after them one default value for
    /// each local that the function declares.
    pub fn new(func: Addr, args: Vec<Value>, declared: &Vec<WasmType>) -> (r: Result<Self, Error>)
        ensures
            match defaults_of(declared@) {
                Ok(defaults) => r matches Ok(frame) && frame.func == func && frame.locals@ == args@
                    + defaults,
                Err(e) => r matches Err(err) && err == e,
            },
    {
        let mut locals = args;
        let mut i: usize = 0;
        assert(declared@.take(0) =~= Seq::<WasmType>::empty());
        assert(locals@ =~= args@ + Seq::<Value>::empty());
        while i < declared.len()
            invariant
                i <= declared.len(),
                match defaults_of(declared@.take(i as int)) {
                    Ok(defaults) => locals@ == args@ + defaults,
                    Err(_) => false,
                },
            decreases declared.len() - i,
        {
            proof {
                assert(declared@.take(i + 1).drop_last() =~= declared@.take(i as int));
                assert(declared@.take(i + 1).last() == declared@[i as int]);
            }
            match default_value(declared[i]) {
                Ok(v) => {
                    proof {
                        let defaults = defaults_of(declared@.take(i as int))->Ok_0;
                        assert((args@ + defaults).push(v) =~= args@ + defaults.push(v));
                    }
                    locals.push(v);
                },
                Err(e) => {
                    proof {
                        lemma_defaults_error_stays(declared@, i + 1);
                    }
                    return Err(e);
                },
            }
            i += 1;
        }
        assert(declared@.take(declared.len() as int) =~= declared@);
        Ok(Frame { func, locals })
    }
}

} // verus!
