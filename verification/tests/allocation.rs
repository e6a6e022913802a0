use wasm_vm::addressable::{Addr, Slot};
use wasm_vm::allocation::{
    allocate, allocate_elems, allocate_funcs, allocate_globals, allocate_tables, install,
    resolve_items,
};
use wasm_vm::error::{Error, InstantiationError, Step};
use wasm_vm::instance::elem::Elem;
use wasm_vm::instance::table::Table;
use wasm_vm::instr::{Instr, Operator};
use wasm_vm::module::{
    Element, ElementItem, ElementKind, FuncType, FunctionBody, GlobalDecl, GlobalType, InitExpr,
    Module, TableType, WasmType,
};
use wasm_vm::val::{RefType, RefValue, Value};

fn i32_const(v: u8) -> InitExpr {
    InitExpr { data: vec![0x41, v, 0x0b] }
}

fn func_ref(instance: usize, i: u32) -> RefValue {
    RefValue::FuncRef(Addr::new_unsafe(instance, i, Slot::Func))
}

fn global(init_expr: InitExpr) -> GlobalDecl {
    GlobalDecl { ty: GlobalType { content_type: WasmType::I32, mutable: false }, init_expr }
}

#[test]
fn globals_are_made_in_order() {
    let globals = allocate_globals(&vec![global(i32_const(1)), global(i32_const(2))]).unwrap();
    assert_eq!(globals.len(), 2);
    assert_eq!(globals[0].val(), Value::I32(1));
    assert_eq!(globals[1].val(), Value::I32(2));
    assert_eq!(allocate_globals(&vec![]).unwrap().len(), 0);
}

#[test]
fn the_first_global_that_fails_is_reported() {
    let nop = InitExpr { data: vec![0x01, 0x0b] };
    let r = allocate_globals(&vec![global(i32_const(1)), global(nop.clone()), global(nop)]);
    assert_eq!(
        r.unwrap_err(),
        InstantiationError {
            step: Step::Globals,
            index: 1,
            cause: Error::NotConstant(Instr::new(Operator::Other)),
        }
    );
}

#[test]
fn functions_pair_declarations_with_bodies() {
    let mut module = Module::default();
    module.types = vec![
        FuncType { params: vec![], returns: vec![] },
        FuncType { params: vec![WasmType::F32], returns: vec![WasmType::F32] },
    ];
    module.functions = vec![1, 0, 1];
    module.codes = vec![
        FunctionBody { data: vec![0x01, 0x01, 0x7d, 0x0b] },
        FunctionBody { data: vec![0x00, 0x0b] },
    ];
    let funcs = allocate_funcs(&module).unwrap();
    assert_eq!(funcs.len(), 2);
    assert_eq!(funcs[0].ty(), &module.types[1]);
    assert_eq!(funcs[0].locals(), &vec![WasmType::F32]);
    assert_eq!(funcs[1].ty(), &module.types[0]);
}

#[test]
fn the_type_is_looked_up_before_the_body_is_decoded() {
    let mut module = Module::default();
    module.functions = vec![0];
    module.codes = vec![FunctionBody { data: vec![] }];
    assert_eq!(
        allocate_funcs(&module).unwrap_err(),
        InstantiationError { step: Step::Funcs, index: 0, cause: Error::InvalidTypeIndex(0) }
    );
}

#[test]
fn tables_are_made_with_their_nulls() {
    let tables = allocate_tables(&vec![
        TableType { element_type: WasmType::ExternRef, initial: 2, maximum: Some(2) },
        TableType { element_type: WasmType::FuncRef, initial: 0, maximum: None },
    ])
    .unwrap();
    assert_eq!(tables.len(), 2);
    assert_eq!(tables[0].len(), 2);
    assert_eq!(tables[0].get(1), Some(RefValue::Null(RefType::ExternRef)));
    assert_eq!(tables[1].len(), 0);
    assert_eq!(tables[1].ty(), RefType::FuncRef);
}

#[test]
fn items_resolve_against_the_instance() {
    let items = vec![
        ElementItem::Func(4),
        ElementItem::Expr(InitExpr { data: vec![0xd2, 0x02, 0x0b] }),
    ];
    assert_eq!(resolve_items(&items, 3), Ok(vec![func_ref(3, 4), func_ref(3, 2)]));
    assert_eq!(resolve_items(&vec![], 3), Ok(vec![]));
    let bad = vec![
        ElementItem::Func(4),
        ElementItem::Expr(InitExpr { data: vec![0xd0, 0x70, 0x0b] }),
        ElementItem::Expr(i32_const(0)),
    ];
    assert_eq!(
        resolve_items(&bad, 3),
        Err(Error::NotFuncRef(Instr::new(Operator::Other)))
    );
}

#[test]
fn installing_copies_an_active_segment_only() {
    let mut tables = vec![
        Table::new(RefType::FuncRef, 2, None).unwrap(),
        Table::new(RefType::FuncRef, 2, None).unwrap(),
    ];
    let data = vec![func_ref(0, 9)];
    let active = Elem::new(
        RefType::FuncRef,
        data.clone(),
        &ElementKind::Active { table_index: 1, init_expr: i32_const(1) },
    )
    .unwrap();
    assert_eq!(install(&mut tables, 0, &active), Ok(()));
    assert_eq!(tables[1].get(1), Some(func_ref(0, 9)));
    assert_eq!(tables[1].get(0), Some(RefValue::Null(RefType::FuncRef)));
    assert_eq!(tables[0].get(1), Some(RefValue::Null(RefType::FuncRef)));

    let passive = Elem::new(RefType::FuncRef, data.clone(), &ElementKind::Passive).unwrap();
    assert_eq!(install(&mut tables, 0, &passive), Ok(()));
    assert_eq!(tables[0].get(0), Some(RefValue::Null(RefType::FuncRef)));

    let nowhere = Elem::new(
        RefType::FuncRef,
        data,
        &ElementKind::Active { table_index: 2, init_expr: i32_const(0) },
    )
    .unwrap();
    assert_eq!(
        install(&mut tables, 6, &nowhere),
        Err(Error::InvalidTableAddress(Addr::new_unsafe(6, 2, Slot::Table)))
    );
}

#[test]
fn segments_are_made_and_installed_in_order() {
    let elements = vec![
        Element {
            kind: ElementKind::Active { table_index: 0, init_expr: i32_const(0) },
            items: vec![ElementItem::Func(0), ElementItem::Func(1)],
            ty: WasmType::FuncRef,
        },
        Element {
            kind: ElementKind::Active { table_index: 0, init_expr: i32_const(1) },
            items: vec![ElementItem::Func(2)],
            ty: WasmType::FuncRef,
        },
    ];
    let mut tables = vec![Table::new(RefType::FuncRef, 3, None).unwrap()];
    let elems = allocate_elems(&elements, 1, &mut tables).unwrap();
    assert_eq!(elems.len(), 2);
    assert_eq!(elems[1].data, vec![func_ref(1, 2)]);
    assert_eq!(tables[0].get(0), Some(func_ref(1, 0)));
    assert_eq!(tables[0].get(1), Some(func_ref(1, 2)));
    assert_eq!(tables[0].get(2), Some(RefValue::Null(RefType::FuncRef)));
}

#[test]
fn the_steps_are_taken_in_order() {
    // Both the global and the table are wrong: the global is reported.
    let mut module = Module::default();
    module.globals = vec![global(InitExpr { data: vec![0x01, 0x0b] })];
    module.tables = vec![TableType { element_type: WasmType::I32, initial: 0, maximum: None }];
    assert_eq!(allocate(&module, 0).unwrap_err().step, Step::Globals);
    module.globals.clear();
    assert_eq!(allocate(&module, 0).unwrap_err().step, Step::Tables);
    module.tables.clear();
    let (globals, funcs, tables, elems) = allocate(&module, 0).unwrap();
    assert!(globals.is_empty() && funcs.is_empty() && tables.is_empty() && elems.is_empty());
}
