use wasm_vm::error::Error;
use wasm_vm::instance::func::{expand_locals, Func};
use wasm_vm::instr::{Instr, Operator};
use wasm_vm::module::{FuncType, FunctionBody, WasmType};

fn signature() -> FuncType {
    FuncType { params: vec![WasmType::I32], returns: vec![WasmType::I64] }
}

#[test]
fn runs_of_locals_are_expanded_in_order() {
    let runs = vec![(2, WasmType::I32), (0, WasmType::F32), (1, WasmType::I64)];
    assert_eq!(expand_locals(&runs), vec![WasmType::I32, WasmType::I32, WasmType::I64]);
    assert_eq!(expand_locals(&vec![]), vec![]);
}

#[test]
fn a_body_decodes_to_locals_and_instructions() {
    // 2 runs: 2 x i32, 1 x i64; then i32.const 5, drop, ref.func 1, drop, end
    let body = FunctionBody {
        data: vec![0x02, 0x02, 0x7f, 0x01, 0x7e, 0x41, 0x05, 0x1a, 0xd2, 0x01, 0x1a, 0x0b],
    };
    let func = Func::new(signature(), &body).unwrap();
    assert_eq!(func.ty(), &signature());
    assert_eq!(func.locals(), &vec![WasmType::I32, WasmType::I32, WasmType::I64]);
    assert_eq!(
        func.body(),
        &vec![
            Instr::new(Operator::I32Const { value: 5 }),
            Instr::new(Operator::Other),
            Instr::new(Operator::RefFunc { function_index: 1 }),
            Instr::new(Operator::Other),
            Instr::new(Operator::Other),
        ]
    );
}

#[test]
fn a_body_without_locals() {
    let body = FunctionBody { data: vec![0x00, 0x0b] };
    let func = Func::new(signature(), &body).unwrap();
    assert!(func.locals().is_empty());
    assert_eq!(func.body(), &vec![Instr::new(Operator::Other)]);
}

#[test]
fn a_truncated_body_is_a_decode_error() {
    // one run announced, none present
    assert!(matches!(
        Func::new(signature(), &FunctionBody { data: vec![0x01] }),
        Err(Error::Decode(_))
    ));
    // i32.const without its operand
    assert!(matches!(
        Func::new(signature(), &FunctionBody { data: vec![0x00, 0x41] }),
        Err(Error::Decode(_))
    ));
    // no bytes at all
    assert!(matches!(
        Func::new(signature(), &FunctionBody { data: vec![] }),
        Err(Error::Decode(_))
    ));
    // a local of a type that does not exist
    assert!(matches!(
        Func::new(signature(), &FunctionBody { data: vec![0x01, 0x01, 0x00, 0x0b] }),
        Err(Error::Decode(_))
    ));
}
