use wasm_vm::addressable::{Addr, Slot};
use wasm_vm::error::Error;
use wasm_vm::instance::elem::{Elem, ElemKind};
use wasm_vm::instance::global::Global;
use wasm_vm::instr::{Instr, Operator};
use wasm_vm::module::{ElementKind, GlobalType, InitExpr, WasmType};
use wasm_vm::val::{RefType, RefValue, Value};

#[test]
fn metadata_is_there_for_active_segments_only() {
    let data = vec![RefValue::FuncRef(Addr::new_unsafe(0, 1, Slot::Func))];
    let active = Elem::new(
        RefType::FuncRef,
        data.clone(),
        &ElementKind::Active { table_index: 2, init_expr: InitExpr { data: vec![0x42, 0x05, 0x0b] } },
    )
    .unwrap();
    assert!(active.is_active());
    assert_eq!(active.metadata(), Some((2, &Value::I64(5))));
    assert_eq!(active.data(), &data);

    for kind in [ElementKind::Passive, ElementKind::Declared] {
        let elem = Elem::new(RefType::ExternRef, vec![], &kind).unwrap();
        assert!(!elem.is_active());
        assert_eq!(elem.metadata(), None);
        assert_eq!(elem.ty(), RefType::ExternRef);
    }
    assert_eq!(
        Elem::new(RefType::FuncRef, vec![], &ElementKind::Passive).unwrap().kind(),
        ElemKind::Passive
    );
}

#[test]
fn the_offset_of_an_active_segment_must_be_a_constant() {
    let r = Elem::new(
        RefType::FuncRef,
        vec![],
        &ElementKind::Active { table_index: 0, init_expr: InitExpr { data: vec![0x01, 0x0b] } },
    );
    assert_eq!(r.unwrap_err(), Error::NotConstant(Instr::new(Operator::Other)));
}

#[test]
fn a_global_holds_its_value_and_type() {
    let ty = GlobalType { content_type: WasmType::F32, mutable: true };
    let global = Global::new(Value::F32(0x3f80_0000), ty);
    assert_eq!(global.val(), Value::F32(0x3f80_0000));
    assert_eq!(global.ty(), ty);
}
