use wasm_vm::error::{DecodeError, Error, Unsupported};
use wasm_vm::module::{
    collect_entries, CustomSection, Export, ExternalKind, FuncType, FunctionBody, GlobalType,
    Import, ImportType, MemoryType, Module, Payload, TableType, TypeDef, WasmType,
};

fn broken(offset: usize) -> DecodeError {
    DecodeError { message: "Unexpected EOF".to_string(), offset }
}

fn sig(params: Vec<WasmType>) -> FuncType {
    FuncType { params, returns: vec![] }
}

fn import(ty: ImportType) -> Import {
    Import { module: "env".to_string(), field: Some("x".to_string()), ty }
}

#[test]
fn entries_are_collected_up_to_the_first_failure() {
    assert_eq!(collect_entries(vec![Ok(1u32), Ok(2), Ok(3)]), Ok(vec![1, 2, 3]));
    assert_eq!(collect_entries::<u32>(vec![]), Ok(vec![]));
    assert_eq!(
        collect_entries(vec![Ok(1u32), Err(broken(4)), Err(broken(9))]),
        Err(Error::Decode(broken(4)))
    );
}

#[test]
fn only_function_types_are_taken() {
    let a = sig(vec![WasmType::I32]);
    let b = sig(vec![]);
    assert_eq!(
        Module::parse_type_section(vec![Ok(TypeDef::Func(a.clone())), Ok(TypeDef::Func(b.clone()))]),
        Ok(vec![a.clone(), b])
    );
    assert_eq!(
        Module::parse_type_section(vec![Ok(TypeDef::Func(a.clone())), Ok(TypeDef::Module)]),
        Err(Error::Unsupported(Unsupported::ModuleType))
    );
    assert_eq!(
        Module::parse_type_section(vec![Ok(TypeDef::Instance), Ok(TypeDef::Module)]),
        Err(Error::Unsupported(Unsupported::InstanceType))
    );
    // The first entry that fails decides, whatever comes after.
    assert_eq!(
        Module::parse_type_section(vec![Ok(TypeDef::Module), Err(broken(1))]),
        Err(Error::Unsupported(Unsupported::ModuleType))
    );
    assert_eq!(
        Module::parse_type_section(vec![Err(broken(1)), Ok(TypeDef::Module)]),
        Err(Error::Decode(broken(1)))
    );
}

#[test]
fn imports_of_linking_and_tags_are_refused() {
    let table = TableType { element_type: WasmType::FuncRef, initial: 0, maximum: None };
    let memory = MemoryType { memory64: false, shared: false, initial: 1, maximum: None };
    let global = GlobalType { content_type: WasmType::I32, mutable: true };
    let fine = vec![
        import(ImportType::Function(0)),
        import(ImportType::Table(table)),
        import(ImportType::Memory(memory)),
        import(ImportType::Global(global)),
    ];
    assert_eq!(
        Module::parse_import_section(fine.iter().cloned().map(Ok).collect()),
        Ok(fine.clone())
    );
    for (ty, why) in [
        (ImportType::Tag(0), Unsupported::TagImport),
        (ImportType::Instance(0), Unsupported::InstanceImport),
        (ImportType::Module(0), Unsupported::ModuleImport),
    ] {
        assert_eq!(
            Module::parse_import_section(vec![Ok(fine[0].clone()), Ok(import(ty))]),
            Err(Error::Unsupported(why))
        );
    }
    assert_eq!(
        Module::parse_import_section(vec![Err(broken(2))]),
        Err(Error::Decode(broken(2)))
    );
}

#[test]
fn sections_of_linking_and_tags_are_refused() {
    for (payload, why) in [
        (Payload::AliasSection, Unsupported::AliasSection),
        (Payload::InstanceSection, Unsupported::InstanceSection),
        (Payload::ModuleSectionStart, Unsupported::NestedModule),
        (Payload::ModuleSectionEntry, Unsupported::NestedModule),
        (Payload::TagSection, Unsupported::TagSection),
    ] {
        assert_eq!(
            Module::map_payload(Module::default(), Ok(payload)),
            Err(Error::Unsupported(why))
        );
    }
}

#[test]
fn a_payload_that_was_not_read_fails() {
    assert_eq!(
        Module::map_payload(Module::default(), Err(broken(8))),
        Err(Error::Decode(broken(8)))
    );
}

#[test]
fn payloads_fill_the_module() {
    let table = TableType { element_type: WasmType::FuncRef, initial: 2, maximum: Some(3) };
    let memory = MemoryType { memory64: false, shared: false, initial: 1, maximum: None };
    let export = Export { field: "run".to_string(), kind: ExternalKind::Function, index: 0 };
    let custom = CustomSection {
        name: "name".to_string(),
        data_offset: 30,
        data: vec![1, 2],
        range_start: 25,
        range_end: 32,
    };
    let body = |b: u8| FunctionBody { data: vec![0x00, b, 0x0b] };
    let module = Module::parse(vec![
        Ok(Payload::Version { num: 1 }),
        Ok(Payload::TypeSection(vec![Ok(TypeDef::Func(sig(vec![WasmType::I64])))])),
        Ok(Payload::FunctionSection(vec![Ok(0), Ok(0)])),
        Ok(Payload::TableSection(vec![Ok(table)])),
        Ok(Payload::MemorySection(vec![Ok(memory)])),
        Ok(Payload::ExportSection(vec![Ok(export.clone())])),
        Ok(Payload::StartSection { func: 1 }),
        Ok(Payload::DataCountSection { count: 0 }),
        Ok(Payload::CodeSectionStart { count: 2 }),
        Ok(Payload::CodeSectionEntry(body(0x01))),
        Ok(Payload::CodeSectionEntry(body(0x00))),
        Ok(Payload::CustomSection(custom.clone())),
        Ok(Payload::UnknownSection { id: 77 }),
        Ok(Payload::End),
    ])
    .unwrap();

    let mut expected = Module::default();
    expected.start_fn_idx = Some(1);
    expected.types = vec![sig(vec![WasmType::I64])];
    expected.functions = vec![0, 0];
    expected.tables = vec![table];
    expected.memories = vec![memory];
    expected.exports = vec![export];
    expected.codes = vec![body(0x01), body(0x00)];
    expected.customs = vec![custom];
    assert_eq!(module, expected);
    assert_eq!(module.func_types(), vec![sig(vec![WasmType::I64])]);
}

#[test]
fn a_section_replaces_what_was_there() {
    let module = Module::map_payload(Module::default(), Ok(Payload::FunctionSection(vec![Ok(3)])))
        .unwrap();
    let module =
        Module::map_payload(module, Ok(Payload::FunctionSection(vec![Ok(1), Ok(2)]))).unwrap();
    assert_eq!(module.functions, vec![1, 2]);
}

#[test]
fn parsing_stops_at_the_first_failure() {
    assert_eq!(
        Module::parse(vec![
            Ok(Payload::FunctionSection(vec![Ok(0)])),
            Ok(Payload::TagSection),
            Err(broken(3)),
        ]),
        Err(Error::Unsupported(Unsupported::TagSection))
    );
    assert_eq!(
        Module::parse(vec![Ok(Payload::TableSection(vec![Err(broken(5))])), Ok(Payload::TagSection)]),
        Err(Error::Decode(broken(5)))
    );
    assert_eq!(Module::parse(vec![]), Ok(Module::default()));
}
