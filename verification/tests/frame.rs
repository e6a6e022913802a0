use wasm_vm::addressable::{Addr, Slot};
use wasm_vm::error::Error;
use wasm_vm::frame::{default_value, Frame};
use wasm_vm::label::Label;
use wasm_vm::module::WasmType;
use wasm_vm::val::{RefType, RefValue, Value};
use wasm_vm::vm::{StackEntry, VM};

#[test]
fn locals_start_with_the_arguments_then_defaults() {
    let func = Addr::new_unsafe(0, 2, Slot::Func);
    let frame = Frame::new(
        func,
        vec![Value::I32(4), Value::F64(9)],
        &vec![WasmType::I64, WasmType::FuncRef, WasmType::F32],
    )
    .unwrap();
    assert_eq!(frame.func, func);
    assert_eq!(
        frame.locals,
        vec![
            Value::I32(4),
            Value::F64(9),
            Value::I64(0),
            Value::Ref(RefValue::Null(RefType::FuncRef)),
            Value::F32(0),
        ]
    );
}

#[test]
fn a_local_of_no_value_type_is_refused() {
    let func = Addr::new_unsafe(0, 0, Slot::Func);
    assert_eq!(
        Frame::new(func, vec![], &vec![WasmType::I32, WasmType::V128, WasmType::Func]).unwrap_err(),
        Error::UnsupportedType(WasmType::V128)
    );
    assert_eq!(default_value(WasmType::ExternRef), Ok(Value::Ref(RefValue::Null(RefType::ExternRef))));
    assert_eq!(default_value(WasmType::I32), Ok(Value::I32(0)));
    assert_eq!(default_value(WasmType::F64), Ok(Value::F64(0)));
    assert_eq!(
        default_value(WasmType::EmptyBlockType),
        Err(Error::UnsupportedType(WasmType::EmptyBlockType))
    );
}

#[test]
fn values_frames_and_labels_share_the_stack() {
    let mut vm = VM::new();
    assert_eq!(vm.ip, 0);
    assert!(vm.stack.is_empty());
    let frame = Frame::new(Addr::new_unsafe(0, 0, Slot::Func), vec![], &vec![]).unwrap();
    vm.stack.push(StackEntry::CallFrame(frame));
    vm.stack.push(StackEntry::Label(Label::Loop(1, 7)));
    vm.stack.push(StackEntry::Val(Value::I32(3)));
    assert!(matches!(vm.stack.pop(), Ok(StackEntry::Val(Value::I32(3)))));
    assert!(matches!(vm.stack.pop(), Ok(StackEntry::Label(Label::Loop(1, 7)))));
    assert!(matches!(vm.stack.pop(), Ok(StackEntry::CallFrame(_))));
    assert!(matches!(vm.stack.pop(), Err(Error::StackUnderflow)));
}
