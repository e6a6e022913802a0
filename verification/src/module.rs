//! The decoded, static view of one binary module.

use crate::error::{DecodeError, Error, Unsupported};
use vstd::prelude::*;

verus! {

/// A type as the binary format writes it.
#[derive(Debug, Copy, Clone, PartialEq, Eq, Hash, Structural)]
pub enum WasmType {
    I32,
    I64,
    F32,
    F64,
    V128,
    FuncRef,
    ExternRef,
    ExnRef,
    Func,
    EmptyBlockType,
}

/// The signature of a function.
#[derive(Debug, PartialEq, Eq)]
pub struct FuncType {
    pub params: Vec<WasmType>,
    pub returns: Vec<WasmType>,
}

/// A signature as a pair of sequences.
pub struct FuncTypeView {
    pub params: Seq<WasmType>,
    pub returns: Seq<WasmType>,
}

impl View for FuncType {
    type V = FuncTypeView;

    open spec fn view(&self) -> FuncTypeView {
        FuncTypeView { params: self.params@, returns: self.returns@ }
    }
}

fn copy_types(types: &Vec<WasmType>) -> (r: Vec<WasmType>)
    ensures
        r@ == types@,
{
    let mut r: Vec<WasmType> = Vec::new();
    let mut i: usize = 0;
    while i < types.len()
        invariant
            i <= types.len(),
            r@ == types@.take(i as int),
        decreases types.len() - i,
    {
        r.push(types[i]);
        i += 1;
        assert(r@ =~= types@.take(i as int));
    }
    assert(types@.take(types.len() as int) =~= types@);
    r
}

impl Clone for FuncType {
    fn clone(&self) -> (r: Self)
        ensures
            r@ == self@,
    {
        FuncType { params: copy_types(&self.params), returns: copy_types(&self.returns) }
    }
}

/// The views of a list of signatures.
pub open spec fn func_types_view(types: Seq<FuncType>) -> Seq<FuncTypeView> {
    Seq::new(types.len(), |i: int| types[i]@)
}

/// A copy of a list of signatures.
pub fn copy_func_types(types: &Vec<FuncType>) -> (r: Vec<FuncType>)
    ensures
        func_types_view(r@) == func_types_view(types@),
{
    let mut r: Vec<FuncType> = Vec::new();
    let mut i: usize = 0;
    while i < types.len()
        invariant
            i <= types.len(),
            r@.len() == i,
            forall|j: int| 0 <= j < i ==> (#[trigger] r@[j])@ == types@[j]@,
        decreases types.len() - i,
    {
        r.push(types[i].clone());
        i += 1;
    }
    assert(func_types_view(r@) =~= func_types_view(types@));
    r
}

/// The declaration of a table.
#[derive(Debug, Copy, Clone, PartialEq, Eq, Hash, Structural)]
pub struct TableType {
    pub element_type: WasmType,
    /// The size at first, in elements.
    pub initial: u32,
    /// The size it may grow to, if one is set.
    pub maximum: Option<u32>,
}

/// The declaration of a linear memory.
#[derive(Debug, Copy, Clone, PartialEq, Eq, Hash, Structural)]
pub struct MemoryType {
    pub memory64: bool,
    pub shared: bool,
    /// The size at first, in pages.
    pub initial: u64,
    /// The size it may grow to, in pages, if one is set.
    pub maximum: Option<u64>,
}

/// The declared type of a global.
#[derive(Debug, Copy, Clone, PartialEq, Eq, Hash, Structural)]
pub struct GlobalType {
    pub content_type: WasmType,
    pub mutable: bool,
}

/// An initialiser expression, as the bytes that encode it.
#[derive(Debug, Clone, PartialEq, Eq)]
pub struct InitExpr {
    pub data: Vec<u8>,
}

/// The declaration of a global: its type and the expression that gives its
/// first value.
#[derive(Debug, Clone, PartialEq, Eq)]
pub struct GlobalDecl {
    pub ty: GlobalType,
    pub init_expr: InitExpr,
}

/// What an import brings in.
#[derive(Debug, Copy, Clone, PartialEq, Eq, Structural)]
pub enum ImportType {
    Function(u32),
    Table(TableType),
    Memory(MemoryType),
    Tag(u32),
    Global(GlobalType),
    Module(u32),
    Instance(u32),
}

#[derive(Debug, Clone, PartialEq, Eq)]
pub struct Import {
    pub module: String,
    pub field: Option<String>,
    pub ty: ImportType,
}

/// The kind of thing that an export hands out.
#[derive(Debug, Copy, Clone, PartialEq, Eq, Structural)]
pub enum ExternalKind {
    Function,
    Table,
    Memory,
    Tag,
    Global,
    Type,
    Module,
    Instance,
}

#[derive(Debug, Clone, PartialEq, Eq)]
pub struct Export {
    pub field: String,
    pub kind: ExternalKind,
    pub index: u32,
}

/// How an element segment is used.
#[derive(Debug, Clone, PartialEq, Eq)]
pub enum ElementKind {
    Passive,
    /// Copied into table `table_index` when the module is instantiated, at
    /// the offset that `init_expr` gives.
    Active { table_index: u32, init_expr: InitExpr },
    Declared,
}

/// One item of an element segment.
#[derive(Debug, Clone, PartialEq, Eq)]
pub enum ElementItem {
    /// A function of the module, by its index.
    Func(u32),
    /// An expression that gives a reference.
    Expr(InitExpr),
}

/// An element segment: a list of references of one type.
#[derive(Debug, Clone, PartialEq, Eq)]
pub struct Element {
    pub kind: ElementKind,
    pub items: Vec<ElementItem>,
    pub ty: WasmType,
}

/// How a data segment is used.
#[derive(Debug, Clone, PartialEq, Eq)]
pub enum DataKind {
    Passive,
    Active { memory_index: u32, init_expr: InitExpr },
}

#[derive(Debug, Clone, PartialEq, Eq)]
pub struct Data {
    pub kind: DataKind,
    pub data: Vec<u8>,
}

/// The body of one function, as the bytes that encode its locals and its
/// instructions.
#[derive(Debug, Clone, PartialEq, Eq)]
pub struct FunctionBody {
    pub data: Vec<u8>,
}

/// A custom section: a name and bytes that mean nothing to the engine.
#[derive(Debug, Clone, PartialEq, Eq)]
pub struct CustomSection {
    pub name: String,
    /// Where `data` starts in the binary.
    pub data_offset: usize,
    pub data: Vec<u8>,
    /// Where the section starts in the binary.
    pub range_start: usize,
    /// Where the section ends in the binary.
    pub range_end: usize,
}

/// An entry of the type section.
#[derive(Debug, Clone, PartialEq, Eq)]
pub enum TypeDef {
    Func(FuncType),
    Instance,
    Module,
}

/// One piece of a binary module, as the decoder hands it over. The entries
/// of a section come one by one, each read or failed.
#[derive(Debug, Clone, PartialEq, Eq)]
pub enum Payload {
    Version { num: u32 },
    TypeSection(Vec<Result<TypeDef, DecodeError>>),
    ImportSection(Vec<Result<Import, DecodeError>>),
    AliasSection,
    InstanceSection,
    FunctionSection(Vec<Result<u32, DecodeError>>),
    TableSection(Vec<Result<TableType, DecodeError>>),
    MemorySection(Vec<Result<MemoryType, DecodeError>>),
    TagSection,
    GlobalSection(Vec<Result<GlobalDecl, DecodeError>>),
    ExportSection(Vec<Result<Export, DecodeError>>),
    StartSection { func: u32 },
    ElementSection(Vec<Result<Element, DecodeError>>),
    DataCountSection { count: u32 },
    DataSection(Vec<Result<Data, DecodeError>>),
    CustomSection(CustomSection),
    CodeSectionStart { count: u32 },
    CodeSectionEntry(FunctionBody),
    ModuleSectionStart,
    ModuleSectionEntry,
    UnknownSection { id: u8 },
    End,
}

/// One decoded module: what its sections declare, in the order of
/// declaration. Function `i` has the type `types[functions[i]]` and the
/// body `codes[i]`.
#[derive(Debug, Clone, PartialEq, Eq)]
pub struct Module {
    pub start_fn_idx: Option<u32>,
    pub types: Vec<FuncType>,
    pub imports: Vec<Import>,
    pub functions: Vec<u32>,
    pub tables: Vec<TableType>,
    pub memories: Vec<MemoryType>,
    pub globals: Vec<GlobalDecl>,
    pub exports: Vec<Export>,
    pub elements: Vec<Element>,
    pub datas: Vec<Data>,
    pub codes: Vec<FunctionBody>,
    pub customs: Vec<CustomSection>,
}

/// A module as sequences.
pub struct ModuleView {
    pub start_fn_idx: Option<u32>,
    pub types: Seq<FuncType>,
    pub imports: Seq<Import>,
    pub functions: Seq<u32>,
    pub tables: Seq<TableType>,
    pub memories: Seq<MemoryType>,
    pub globals: Seq<GlobalDecl>,
    pub exports: Seq<Export>,
    pub elements: Seq<Element>,
    pub datas: Seq<Data>,
    pub codes: Seq<FunctionBody>,
    pub customs: Seq<CustomSection>,
}

impl View for Module {
    type V = ModuleView;

    open spec fn view(&self) -> ModuleView {
        ModuleView {
            start_fn_idx: self.start_fn_idx,
            types: self.types@,
            imports: self.imports@,
            functions: self.functions@,
            tables: self.tables@,
            memories: self.memories@,
            globals: self.globals@,
            exports: self.exports@,
            elements: self.elements@,
            datas: self.datas@,
            codes: self.codes@,
            customs: self.customs@,
        }
    }
}

/// The module that declares nothing.
pub open spec fn empty_module() -> ModuleView {
    ModuleView {
        start_fn_idx: None,
        types: Seq::empty(),
        imports: Seq::empty(),
        functions: Seq::empty(),
        tables: Seq::empty(),
        memories: Seq::empty(),
        globals: Seq::empty(),
        exports: Seq::empty(),
        elements: Seq::empty(),
        datas: Seq::empty(),
        codes: Seq::empty(),
        customs: Seq::empty(),
    }
}

/// What becomes of the entries of a section, taken in order: an entry that
/// the decoder could not read gives its error, one that `accept` refuses
/// gives that error, and the first such entry decides; with none, every
/// entry is in the result as `accept` hands it on.
pub open spec fn gathered<T, U>(
    entries: Seq<Result<T, DecodeError>>,
    accept: spec_fn(T) -> Result<U, Error>,
) -> Result<Seq<U>, Error>
    decreases entries.len(),
{
    if entries.len() == 0 {
        Ok(Seq::empty())
    } else {
        match gathered(entries.drop_last(), accept) {
            Err(first) => Err(first),
            Ok(front) => match entries.last() {
                Err(e) => Err(Error::Decode(e)),
                Ok(entry) => match accept(entry) {
                    Err(e) => Err(e),
                    Ok(u) => Ok(front.push(u)),
                },
            },
        }
    }
}

/// An error among the first `n` entries is the error of the whole list.
pub proof fn lemma_gathered_error_stays<T, U>(
    entries: Seq<Result<T, DecodeError>>,
    accept: spec_fn(T) -> Result<U, Error>,
    n: int,
)
    requires
        0 <= n <= entries.len(),
        gathered(entries.take(n), accept) is Err,
    ensures
        gathered(entries, accept) == gathered(entries.take(n), accept),
    decreases entries.len() - n,
{
    if n == entries.len() {
        assert(entries.take(n) =~= entries);
    } else {
        assert(entries.take(n + 1).drop_last() =~= entries.take(n));
        lemma_gathered_error_stays(entries, accept, n + 1);
    }
}

/// Every entry is taken as it is.
pub open spec fn accept_any<T>() -> spec_fn(T) -> Result<T, Error> {
    |entry: T| Ok(entry)
}

/// Only function types are taken from the type section.
pub open spec fn accept_type_def() -> spec_fn(TypeDef) -> Result<FuncType, Error> {
    |def: TypeDef|
        match def {
            TypeDef::Func(ty) => Ok(ty),
            TypeDef::Module => Err(Error::Unsupported(Unsupported::ModuleType)),
            TypeDef::Instance => Err(Error::Unsupported(Unsupported::InstanceType)),
        }
}

/// Imports of tags, instances and modules are refused.
pub open spec fn accept_import() -> spec_fn(Import) -> Result<Import, Error> {
    |import: Import|
        match import.ty {
            ImportType::Tag(_) => Err(Error::Unsupported(Unsupported::TagImport)),
            ImportType::Instance(_) => Err(Error::Unsupported(Unsupported::InstanceImport)),
            ImportType::Module(_) => Err(Error::Unsupported(Unsupported::ModuleImport)),
            _ => Ok(import),
        }
}

/// The entries of a section, if every one of them was decoded: the first
/// that was not gives the error.
pub open spec fn collected<T>(entries: Seq<Result<T, DecodeError>>) -> Result<Seq<T>, Error> {
    gathered(entries, accept_any())
}

/// Gathers the entries of a section, in order, up to the first that the
/// decoder could not read.
pub fn collect_entries<T>(entries: Vec<Result<T, DecodeError>>) -> (r: Result<Vec<T>, Error>)
    ensures
        match collected(entries@) {
            Ok(all) => r matches Ok(v) && v@ == all,
            Err(e) => r matches Err(err) && err == e,
        },
{
    let ghost all = entries@;
    let mut out: Vec<T> = Vec::new();
    for entry in it: entries.into_iter()
        invariant
            it.seq() == all,
            gathered(all.take(it.index() as int), accept_any()) == Ok::<Seq<T>, Error>(out@),
    {
        proof {
            let i = it.index() as int;
            assert(all.take(i + 1).drop_last() =~= all.take(i));
            assert(all.take(i + 1).last() == entry);
        }
        match entry {
            Ok(v) => {
                out.push(v);
            },
            Err(e) => {
                proof {
                    lemma_gathered_error_stays(all, accept_any(), it.index() + 1);
                }
                return Err(Error::Decode(e));
            },
        }
    }
    assert(all.take(all.len() as int) =~= all);
    Ok(out)
}

/// What the module becomes when one more payload is taken in.
pub open spec fn mapped(module: ModuleView, payload: Result<Payload, DecodeError>) -> Result<
    ModuleView,
    Error,
> {
    match payload {
        Err(e) => Err(Error::Decode(e)),
        Ok(Payload::TypeSection(entries)) => match gathered(entries@, accept_type_def()) {
            Ok(types) => Ok(ModuleView { types, ..module }),
            Err(e) => Err(e),
        },
        Ok(Payload::ImportSection(entries)) => match gathered(entries@, accept_import()) {
            Ok(imports) => Ok(ModuleView { imports, ..module }),
            Err(e) => Err(e),
        },
        Ok(Payload::AliasSection) => Err(Error::Unsupported(Unsupported::AliasSection)),
        Ok(Payload::InstanceSection) => Err(Error::Unsupported(Unsupported::InstanceSection)),
        Ok(Payload::ModuleSectionStart) => Err(Error::Unsupported(Unsupported::NestedModule)),
        Ok(Payload::ModuleSectionEntry) => Err(Error::Unsupported(Unsupported::NestedModule)),
        Ok(Payload::FunctionSection(entries)) => match collected(entries@) {
            Ok(functions) => Ok(ModuleView { functions, ..module }),
            Err(e) => Err(e),
        },
        Ok(Payload::TableSection(entries)) => match collected(entries@) {
            Ok(tables) => Ok(ModuleView { tables, ..module }),
            Err(e) => Err(e),
        },
        Ok(Payload::MemorySection(entries)) => match collected(entries@) {
            Ok(memories) => Ok(ModuleView { memories, ..module }),
            Err(e) => Err(e),
        },
        Ok(Payload::TagSection) => Err(Error::Unsupported(Unsupported::TagSection)),
        Ok(Payload::GlobalSection(entries)) => match collected(entries@) {
            Ok(globals) => Ok(ModuleView { globals, ..module }),
            Err(e) => Err(e),
        },
        Ok(Payload::ExportSection(entries)) => match collected(entries@) {
            Ok(exports) => Ok(ModuleView { exports, ..module }),
            Err(e) => Err(e),
        },
        Ok(Payload::StartSection { func }) => Ok(ModuleView { start_fn_idx: Some(func), ..module }),
        Ok(Payload::ElementSection(entries)) => match collected(entries@) {
            Ok(elements) => Ok(ModuleView { elements, ..module }),
            Err(e) => Err(e),
        },
        Ok(Payload::DataSection(entries)) => match collected(entries@) {
            Ok(datas) => Ok(ModuleView { datas, ..module }),
            Err(e) => Err(e),
        },
        Ok(Payload::CodeSectionEntry(body)) => Ok(
            ModuleView { codes: module.codes.push(body), ..module },
        ),
        Ok(Payload::CustomSection(section)) => Ok(
            ModuleView { customs: module.customs.push(section), ..module },
        ),
        Ok(_) => Ok(module),
    }
}

/// What a list of payloads, taken in from the empty module one after the
/// other, makes: the module, or the error of the first payload that fails.
pub open spec fn parsed(payloads: Seq<Result<Payload, DecodeError>>) -> Result<ModuleView, Error>
    decreases payloads.len(),
{
    if payloads.len() == 0 {
        Ok(empty_module())
    } else {
        match parsed(payloads.drop_last()) {
            Err(first) => Err(first),
            Ok(module) => mapped(module, payloads.last()),
        }
    }
}

/// An error among the first `n` payloads is the error of the whole list.
pub proof fn lemma_parsed_error_stays(payloads: Seq<Result<Payload, DecodeError>>, n: int)
    requires
        0 <= n <= payloads.len(),
        parsed(payloads.take(n)) is Err,
    ensures
        parsed(payloads) == parsed(payloads.take(n)),
    decreases payloads.len() - n,
{
    if n == payloads.len() {
        assert(payloads.take(n) =~= payloads);
    } else {
        assert(payloads.take(n + 1).drop_last() =~= payloads.take(n));
        lemma_parsed_error_stays(payloads, n + 1);
    }
}

impl Default for Module {
    fn default() -> (m: Self)
        ensures
            m@ == empty_module(),
    {
        Module {
            start_fn_idx: None,
            types: Vec::new(),
            imports: Vec::new(),
            functions: Vec::new(),
            tables: Vec::new(),
            memories: Vec::new(),
            globals: Vec::new(),
            exports: Vec::new(),
            elements: Vec::new(),
            datas: Vec::new(),
            codes: Vec::new(),
            customs: Vec::new(),
        }
    }
}

impl Module {
    /// Builds a module from the payloads of one binary, in the order the
    /// decoder gave them. The first payload that fails ends the work.
    pub fn parse(payloads: Vec<Result<Payload, DecodeError>>) -> (r: Result<Self, Error>)
        ensures
            match parsed(payloads@) {
                Ok(module) => r matches Ok(m) && m@ == module,
                Err(e) => r matches Err(err) && err == e,
            },
    {
        let ghost all = payloads@;
        let mut module = Module::default();
        for payload in it: payloads.into_iter()
            invariant
                it.seq() == all,
                parsed(all.take(it.index() as int)) == Ok::<ModuleView, Error>(module@),
        {
            proof {
                let i = it.index() as int;
                assert(all.take(i + 1).drop_last() =~= all.take(i));
                assert(all.take(i + 1).last() == payload);
            }
            match Module::map_payload(module, payload) {
                Ok(next) => {
                    module = next;
                },
                Err(e) => {
                    proof {
                        lemma_parsed_error_stays(all, it.index() + 1);
                    }
                    return Err(e);
                },
            }
        }
        assert(all.take(all.len() as int) =~= all);
        Ok(module)
    }

    /// A copy of the signatures that the module declares.
    pub fn func_types(&self) -> (types: Vec<FuncType>)
        ensures
            func_types_view(types@) == func_types_view(self.types@),
    {
        copy_func_types(&self.types)
    }

    /// Takes one payload into the module. A section replaces what the
    /// module held of its kind; a code entry and a custom section are
    /// appended; the start section sets the start function. Sections of
    /// module linking and of tags are refused, and so is a payload that
    /// the decoder could not read; every other payload leaves the module
    /// as it is.
    pub fn map_payload(module: Module, payload: Result<Payload, DecodeError>) -> (r: Result<
        Module,
        Error,
    >)
        ensures
            match mapped(module@, payload) {
                Ok(next) => r matches Ok(m) && m@ == next,
                Err(e) => r matches Err(err) && err == e,
            },
    {
        let mut module = module;
        let payload = match payload {
            Ok(payload) => payload,
            Err(e) => {
                return Err(Error::Decode(e));
            },
        };
        match payload {
            Payload::TypeSection(entries) => {
                module.types = Self::parse_type_section(entries)?;
            },
            Payload::ImportSection(entries) => {
                module.imports = Self::parse_import_section(entries)?;
            },
            Payload::AliasSection => {
                return Err(Error::Unsupported(Unsupported::AliasSection));
            },
            Payload::InstanceSection => {
                return Err(Error::Unsupported(Unsupported::InstanceSection));
            },
            Payload::ModuleSectionStart => {
                return Err(Error::Unsupported(Unsupported::NestedModule));
            },
            Payload::ModuleSectionEntry => {
                return Err(Error::Unsupported(Unsupported::NestedModule));
            },
            Payload::FunctionSection(entries) => {
                module.functions = collect_entries(entries)?;
            },
            Payload::TableSection(entries) => {
                module.tables = collect_entries(entries)?;
            },
            Payload::MemorySection(entries) => {
                module.memories = collect_entries(entries)?;
            },
            Payload::TagSection => {
                return Err(Error::Unsupported(Unsupported::TagSection));
            },
            Payload::GlobalSection(entries) => {
                module.globals = collect_entries(entries)?;
            },
            Payload::ExportSection(entries) => {
                module.exports = collect_entries(entries)?;
            },
            Payload::StartSection { func } => {
                module.start_fn_idx = Some(func);
            },
            Payload::ElementSection(entries) => {
                module.elements = collect_entries(entries)?;
            },
            Payload::DataSection(entries) => {
                module.datas = collect_entries(entries)?;
            },
            Payload::CodeSectionEntry(body) => {
                module.codes.push(body);
            },
            Payload::CustomSection(section) => {
                module.customs.push(section);
            },
            _ => {},
        }
        Ok(module)
    }

    /// The function types of a type section. A module type or an instance
    /// type is refused.
    pub fn parse_type_section(entries: Vec<Result<TypeDef, DecodeError>>) -> (r: Result<
        Vec<FuncType>,
        Error,
    >)
        ensures
            match gathered(entries@, accept_type_def()) {
                Ok(types) => r matches Ok(v) && v@ == types,
                Err(e) => r matches Err(err) && err == e,
            },
    {
        let ghost all = entries@;
        let mut types: Vec<FuncType> = Vec::new();
        for entry in it: entries.into_iter()
            invariant
                it.seq() == all,
                gathered(all.take(it.index() as int), accept_type_def()) == Ok::<
                    Seq<FuncType>,
                    Error,
                >(types@),
        {
            proof {
                let i = it.index() as int;
                assert(all.take(i + 1).drop_last() =~= all.take(i));
                assert(all.take(i + 1).last() == entry);
            }
            let refused = match entry {
                Ok(TypeDef::Func(ty)) => {
                    types.push(ty);
                    None
                },
                Ok(TypeDef::Module) => Some(Error::Unsupported(Unsupported::ModuleType)),
                Ok(TypeDef::Instance) => Some(Error::Unsupported(Unsupported::InstanceType)),
                Err(e) => Some(Error::Decode(e)),
            };
            if let Some(e) = refused {
                proof {
                    lemma_gathered_error_stays(all, accept_type_def(), it.index() + 1);
                }
                return Err(e);
            }
        }
        assert(all.take(all.len() as int) =~= all);
        Ok(types)
    }

    /// The imports of an import section. An import of a tag, an instance
    /// or a module is refused.
    pub fn parse_import_section(entries: Vec<Result<Import, DecodeError>>) -> (r: Result<
        Vec<Import>,
        Error,
    >)
        ensures
            match gathered(entries@, accept_import()) {
                Ok(imports) => r matches Ok(v) && v@ == imports,
                Err(e) => r matches Err(err) && err == e,
            },
    {
        let ghost all = entries@;
        let mut imports: Vec<Import> = Vec::new();
        for entry in it: entries.into_iter()
            invariant
                it.seq() == all,
                gathered(all.take(it.index() as int), accept_import()) == Ok::<Seq<Import>, Error>(
                    imports@,
                ),
        {
            proof {
                let i = it.index() as int;
                assert(all.take(i + 1).drop_last() =~= all.take(i));
                assert(all.take(i + 1).last() == entry);
            }
            let refused = match entry {
                Err(e) => Some(Error::Decode(e)),
                Ok(import) => match import.ty {
                    ImportType::Tag(_) => Some(Error::Unsupported(Unsupported::TagImport)),
                    ImportType::Instance(_) => Some(
                        Error::Unsupported(Unsupported::InstanceImport),
                    ),
                    ImportType::Module(_) => Some(Error::Unsupported(Unsupported::ModuleImport)),
                    _ => {
                        imports.push(import);
                        None
                    },
                },
            };
            if let Some(e) = refused {
                proof {
                    lemma_gathered_error_stays(all, accept_import(), it.index() + 1);
                }
                return Err(e);
            }
        }
        assert(all.take(all.len() as int) =~= all);
        Ok(imports)
    }
}

} // verus!
