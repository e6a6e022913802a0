use wasm_vm::addressable::{Addr, Slot};
use wasm_vm::error::{DecodeError, Error, Unsupported};
use wasm_vm::instr::{Instr, Operator};
use wasm_vm::module::{
    Element, ElementItem, ElementKind, FuncType, FunctionBody, GlobalDecl, GlobalType, InitExpr,
    Module, Payload, TableType, TypeDef, WasmType,
};
use wasm_vm::store::Store;
use wasm_vm::val::{RefType, RefValue, Value};

fn failed(e: wasmparser::BinaryReaderError) -> DecodeError {
    DecodeError { message: e.message().to_string(), offset: e.offset() }
}

fn wasm_type(ty: wasmparser::Type) -> WasmType {
    match ty {
        wasmparser::Type::I32 => WasmType::I32,
        wasmparser::Type::I64 => WasmType::I64,
        wasmparser::Type::F32 => WasmType::F32,
        wasmparser::Type::F64 => WasmType::F64,
        wasmparser::Type::V128 => WasmType::V128,
        wasmparser::Type::FuncRef => WasmType::FuncRef,
        wasmparser::Type::ExternRef => WasmType::ExternRef,
        wasmparser::Type::ExnRef => WasmType::ExnRef,
        wasmparser::Type::Func => WasmType::Func,
        wasmparser::Type::EmptyBlockType => WasmType::EmptyBlockType,
    }
}

fn window(mut reader: wasmparser::BinaryReader<'_>) -> Vec<u8> {
    let len = reader.bytes_remaining();
    reader.read_bytes(len).unwrap().to_vec()
}

fn init_expr(expr: &wasmparser::InitExpr<'_>) -> InitExpr {
    InitExpr { data: window(expr.get_binary_reader()) }
}

fn type_def(def: wasmparser::TypeDef<'_>) -> TypeDef {
    match def {
        wasmparser::TypeDef::Func(ty) => TypeDef::Func(FuncType {
            params: ty.params.iter().map(|t| wasm_type(*t)).collect(),
            returns: ty.returns.iter().map(|t| wasm_type(*t)).collect(),
        }),
        wasmparser::TypeDef::Instance(_) => TypeDef::Instance,
        wasmparser::TypeDef::Module(_) => TypeDef::Module,
    }
}

fn element(e: wasmparser::Element<'_>) -> Element {
    let kind = match &e.kind {
        wasmparser::ElementKind::Passive => ElementKind::Passive,
        wasmparser::ElementKind::Declared => ElementKind::Declared,
        wasmparser::ElementKind::Active { table_index, init_expr: offset } => {
            ElementKind::Active { table_index: *table_index, init_expr: init_expr(offset) }
        }
    };
    let items = e
        .items
        .get_items_reader()
        .unwrap()
        .into_iter()
        .map(|item| match item.unwrap() {
            wasmparser::ElementItem::Func(index) => ElementItem::Func(index),
            wasmparser::ElementItem::Expr(expr) => ElementItem::Expr(init_expr(&expr)),
        })
        .collect();
    Element { kind, items, ty: wasm_type(e.ty) }
}

fn payload(p: wasmparser::Payload<'_>) -> Payload {
    match p {
        wasmparser::Payload::Version { num, .. } => Payload::Version { num },
        wasmparser::Payload::TypeSection(r) => Payload::TypeSection(
            r.into_iter().map(|e| e.map(type_def).map_err(failed)).collect(),
        ),
        wasmparser::Payload::FunctionSection(r) => {
            Payload::FunctionSection(r.into_iter().map(|e| e.map_err(failed)).collect())
        }
        wasmparser::Payload::TableSection(r) => Payload::TableSection(
            r.into_iter()
                .map(|e| {
                    e.map(|t| TableType {
                        element_type: wasm_type(t.element_type),
                        initial: t.initial,
                        maximum: t.maximum,
                    })
                    .map_err(failed)
                })
                .collect(),
        ),
        wasmparser::Payload::GlobalSection(r) => Payload::GlobalSection(
            r.into_iter()
                .map(|e| {
                    e.map(|g| GlobalDecl {
                        ty: GlobalType {
                            content_type: wasm_type(g.ty.content_type),
                            mutable: g.ty.mutable,
                        },
                        init_expr: init_expr(&g.init_expr),
                    })
                    .map_err(failed)
                })
                .collect(),
        ),
        wasmparser::Payload::ElementSection(r) => Payload::ElementSection(
            r.into_iter().map(|e| e.map(element).map_err(failed)).collect(),
        ),
        wasmparser::Payload::CodeSectionStart { count, .. } => Payload::CodeSectionStart { count },
        wasmparser::Payload::CodeSectionEntry(body) => {
            Payload::CodeSectionEntry(FunctionBody { data: window(body.get_binary_reader()) })
        }
        wasmparser::Payload::TagSection(_) => Payload::TagSection,
        wasmparser::Payload::End => Payload::End,
        _ => Payload::UnknownSection { id: 0 },
    }
}

fn payloads(binary: &[u8]) -> Vec<Result<Payload, DecodeError>> {
    wasmparser::Parser::new(0)
        .parse_all(binary)
        .map(|p| p.map(payload).map_err(failed))
        .collect()
}

/// One type `() -> ()`, two functions of it, a table of three function
/// references, one global `i32.const 42`, and an active segment that puts
/// the two functions into the table at offset 1.
fn binary() -> Vec<u8> {
    let mut b = vec![0x00, 0x61, 0x73, 0x6d, 0x01, 0x00, 0x00, 0x00];
    b.extend([0x01, 0x04, 0x01, 0x60, 0x00, 0x00]);
    b.extend([0x03, 0x03, 0x02, 0x00, 0x00]);
    b.extend([0x04, 0x04, 0x01, 0x70, 0x00, 0x03]);
    b.extend([0x06, 0x06, 0x01, 0x7f, 0x00, 0x41, 0x2a, 0x0b]);
    b.extend([0x09, 0x08, 0x01, 0x00, 0x41, 0x01, 0x0b, 0x02, 0x00, 0x01]);
    b.extend([0x0a, 0x09, 0x02, 0x02, 0x00, 0x0b, 0x04, 0x01, 0x02, 0x7e, 0x0b]);
    b
}

#[test]
fn a_decoded_binary_fills_the_module() {
    let module = Module::parse(payloads(&binary())).unwrap();
    assert_eq!(module.types, vec![FuncType { params: vec![], returns: vec![] }]);
    assert_eq!(module.functions, vec![0, 0]);
    assert_eq!(
        module.tables,
        vec![TableType { element_type: WasmType::FuncRef, initial: 3, maximum: None }]
    );
    assert_eq!(module.globals.len(), 1);
    assert_eq!(module.globals[0].init_expr.data, vec![0x41, 0x2a, 0x0b]);
    assert_eq!(
        module.codes,
        vec![
            FunctionBody { data: vec![0x00, 0x0b] },
            FunctionBody { data: vec![0x01, 0x02, 0x7e, 0x0b] },
        ]
    );
    assert_eq!(
        module.elements,
        vec![Element {
            kind: ElementKind::Active {
                table_index: 0,
                init_expr: InitExpr { data: vec![0x41, 0x01, 0x0b] },
            },
            items: vec![ElementItem::Func(0), ElementItem::Func(1)],
            ty: WasmType::FuncRef,
        }]
    );
}

#[test]
fn a_decoded_binary_is_instantiated() {
    let module = Module::parse(payloads(&binary())).unwrap();
    let mut store = Store::new();
    let instance = store.instantiate(&module, Some("m".to_string())).unwrap();
    assert_eq!(instance.index(), 0);

    let global = store.get_global(&Addr::new_unsafe(0, 0, Slot::Global)).unwrap();
    assert_eq!(global.val(), Value::I32(42));

    let table = store.get_table(&Addr::new_unsafe(0, 0, Slot::Table)).unwrap();
    assert_eq!(table.get(0), Some(RefValue::Null(RefType::FuncRef)));
    assert_eq!(table.get(1), Some(RefValue::FuncRef(Addr::new_unsafe(0, 0, Slot::Func))));
    assert_eq!(table.get(2), Some(RefValue::FuncRef(Addr::new_unsafe(0, 1, Slot::Func))));

    let second = store.get_func(&Addr::new_unsafe(0, 1, Slot::Func)).unwrap();
    assert_eq!(second.locals(), &vec![WasmType::I64, WasmType::I64]);
    assert_eq!(second.body(), &vec![Instr::new(Operator::Other)]);
    assert!(store.get_elem(&Addr::new_unsafe(0, 0, Slot::Elem)).unwrap().is_active());
}

#[test]
fn a_binary_with_a_tag_section_is_refused() {
    let mut b = vec![0x00, 0x61, 0x73, 0x6d, 0x01, 0x00, 0x00, 0x00];
    b.extend([0x01, 0x04, 0x01, 0x60, 0x00, 0x00]);
    b.extend([0x0d, 0x03, 0x01, 0x00, 0x00]);
    assert_eq!(
        Module::parse(payloads(&b)),
        Err(Error::Unsupported(Unsupported::TagSection))
    );
}

#[test]
fn a_truncated_binary_is_a_decode_error() {
    let mut b = binary();
    b.truncate(b.len() - 3);
    assert!(matches!(Module::parse(payloads(&b)), Err(Error::Decode(_))));
    assert!(matches!(Module::parse(payloads(&[0x00, 0x61])), Err(Error::Decode(_))));
}
