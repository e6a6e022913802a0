//! Allocation: the objects that a module makes when it is instantiated.
//!
//! The steps are taken in order (globals, functions, tables, element
//! segments), and nothing here touches a store: the objects are handed
//! back, to be filed once all of them are made.

use crate::addressable::{Addr, ElemIndex, InstanceIndex, Slot};
use crate::error::{Error, InstantiationError, Step};
use crate::instance::elem::{elem_kind_of, Elem, ElemKind, ElemView};
use crate::instance::func::{decode_body, Func, FuncView};
use crate::instance::global::Global;
use crate::instance::table::{init_result, offset_of, Table, TableView};
use crate::module::{Element, ElementItem, GlobalDecl, Module, ModuleView, TableType};
use crate::reader::operator_at;
use crate::val::{RefType, RefValue};
use crate::vm::{constant_of, funcref_of, resolve_constant_expr, resolve_funcref_expr};
use vstd::prelude::*;

verus! {

/// What `count` objects of one index space come to, made in order by
/// `make`: the first that cannot be made gives the error, with its index;
/// with none, all of them, by index.
pub open spec fn staged<U>(count: nat, make: spec_fn(int) -> Result<U, Error>, step: Step) -> Result<
    Seq<U>,
    InstantiationError,
>
    decreases count,
{
    if count == 0 {
        Ok(Seq::empty())
    } else {
        match staged((count - 1) as nat, make, step) {
            Err(first) => Err(first),
            Ok(front) => match make(count - 1) {
                Err(cause) => Err(InstantiationError { step, index: (count - 1) as usize, cause }),
                Ok(object) => Ok(front.push(object)),
            },
        }
    }
}

/// A failure among the first `n` objects is the failure of the whole step.
pub proof fn lemma_staged_error_stays<U>(
    n: nat,
    count: nat,
    make: spec_fn(int) -> Result<U, Error>,
    step: Step,
)
    requires
        n <= count,
        staged(n, make, step) is Err,
    ensures
        staged(count, make, step) == staged(n, make, step),
    decreases count - n,
{
    if n < count {
        lemma_staged_error_stays(n, (count - 1) as nat, make, step);
    }
}

/// Where a step succeeds, it makes every object, each as `make` gives it.
pub proof fn lemma_staged_ok<U>(count: nat, make: spec_fn(int) -> Result<U, Error>, step: Step)
    requires
        staged(count, make, step) is Ok,
    ensures
        staged(count, make, step)->Ok_0.len() == count,
        forall|i: int|
            0 <= i < count ==> make(i) == Ok::<U, Error>(
                #[trigger] staged(count, make, step)->Ok_0[i],
            ),
    decreases count,
{
    if count > 0 {
        lemma_staged_ok((count - 1) as nat, make, step);
    }
}

/// The position `i` as an element index, if a `u32` can hold it.
pub open spec fn elem_index_of(i: int) -> Result<ElemIndex, Error> {
    if 0 <= i <= u32::MAX {
        Ok(i as u32)
    } else {
        Err(Error::IndexOverflow(i as usize))
    }
}

fn to_elem_index(i: usize) -> (r: Result<ElemIndex, Error>)
    ensures
        r == elem_index_of(i as int),
{
    if i <= u32::MAX as usize {
        Ok(i as u32)
    } else {
        Err(Error::IndexOverflow(i))
    }
}

/// The global that declaration `i` of `decls` makes: its initialiser
/// resolved as a constant, under its declared type.
pub open spec fn global_at(decls: Seq<GlobalDecl>, i: int) -> Result<Global, Error> {
    match constant_of(operator_at(decls[i].init_expr.data@, 0)) {
        Err(e) => Err(e),
        Ok(val) => match elem_index_of(i) {
            Err(e) => Err(e),
            Ok(_) => Ok(Global { val, ty: decls[i].ty }),
        },
    }
}

/// The maker of the globals of `decls`, by position.
pub open spec fn make_global(decls: Seq<GlobalDecl>) -> spec_fn(int) -> Result<Global, Error> {
    |i: int| global_at(decls, i)
}

/// The globals that a module makes.
pub open spec fn staged_globals(decls: Seq<GlobalDecl>) -> Result<Seq<Global>, InstantiationError> {
    staged(decls.len(), make_global(decls), Step::Globals)
}

/// How many functions a module defines: a function needs a declaration and
/// a body, and the two lists are paired by position.
pub open spec fn func_count(module: ModuleView) -> nat {
    if module.codes.len() <= module.functions.len() {
        module.codes.len()
    } else {
        module.functions.len()
    }
}

/// The function that declaration `i` of `module` makes: its type looked up
/// in the types of the module, then its body decoded.
pub open spec fn func_at(module: ModuleView, i: int) -> Result<FuncView, Error> {
    let type_index = module.functions[i];
    if type_index >= module.types.len() {
        Err(Error::InvalidTypeIndex(type_index))
    } else {
        match decode_body(module.codes[i].data@) {
            Err(e) => Err(Error::Decode(e)),
            Ok((locals, body)) => match elem_index_of(i) {
                Err(e) => Err(e),
                Ok(_) => Ok(FuncView { ty: module.types[type_index as int]@, locals, body }),
            },
        }
    }
}

/// The maker of the functions of `module`, by position.
pub open spec fn make_func(module: ModuleView) -> spec_fn(int) -> Result<FuncView, Error> {
    |i: int| func_at(module, i)
}

/// The functions that a module makes.
pub open spec fn staged_funcs(module: ModuleView) -> Result<Seq<FuncView>, InstantiationError> {
    staged(func_count(module), make_func(module), Step::Funcs)
}

/// A list of functions as plain data.
pub open spec fn funcs_view(funcs: Seq<Func>) -> Seq<FuncView> {
    Seq::new(funcs.len(), |i: int| funcs[i]@)
}

/// The table that declaration `i` of `decls` makes: null references of
/// its element type, which must be a reference type, `initial` of them.
pub open spec fn table_at(decls: Seq<TableType>, i: int) -> Result<TableView, Error> {
    match RefType::spec_try_from(decls[i].element_type) {
        Err(e) => Err(e),
        Ok(ty) => match elem_index_of(i) {
            Err(e) => Err(e),
            Ok(_) => Ok(
                TableView {
                    buffer: Seq::new(decls[i].initial as nat, |j: int| RefValue::Null(ty)),
                    ty,
                    initial: decls[i].initial,
                    maximum: decls[i].maximum,
                },
            ),
        },
    }
}

/// The maker of the tables of `decls`, by position.
pub open spec fn make_table(decls: Seq<TableType>) -> spec_fn(int) -> Result<TableView, Error> {
    |i: int| table_at(decls, i)
}

/// The tables that a module makes, before any element segment is copied
/// into them.
pub open spec fn staged_tables(decls: Seq<TableType>) -> Result<Seq<TableView>, InstantiationError> {
    staged(decls.len(), make_table(decls), Step::Tables)
}

/// A list of tables as plain data.
pub open spec fn tables_view(tables: Seq<Table>) -> Seq<TableView> {
    Seq::new(tables.len(), |i: int| tables[i].snapshot())
}

/// A list of element segments as plain data.
pub open spec fn elems_view(elems: Seq<Elem>) -> Seq<ElemView> {
    Seq::new(elems.len(), |i: int| elems[i].snapshot())
}

/// The references that the items of a segment resolve to in instance
/// `index`: a function index gives the address of that function in the
/// instance, an expression must be `ref.func`. The first item that does
/// not resolve gives the error.
pub open spec fn item_refs(items: Seq<ElementItem>, index: InstanceIndex) -> Result<
    Seq<RefValue>,
    Error,
>
    decreases items.len(),
{
    if items.len() == 0 {
        Ok(Seq::empty())
    } else {
        match item_refs(items.drop_last(), index) {
            Err(first) => Err(first),
            Ok(front) => match items.last() {
                ElementItem::Func(idx) => Ok(
                    front.push(RefValue::FuncRef(Addr(index, idx, Slot::Func))),
                ),
                ElementItem::Expr(init) => match funcref_of(operator_at(init.data@, 0), index) {
                    Err(e) => Err(e),
                    Ok(reference) => Ok(front.push(reference)),
                },
            },
        }
    }
}

/// An item that does not resolve among the first `n` decides for the
/// whole list.
pub proof fn lemma_item_refs_error_stays(items: Seq<ElementItem>, index: InstanceIndex, n: int)
    requires
        0 <= n <= items.len(),
        item_refs(items.take(n), index) is Err,
    ensures
        item_refs(items, index) == item_refs(items.take(n), index),
    decreases items.len() - n,
{
    if n == items.len() {
        assert(items.take(n) =~= items);
    } else {
        assert(items.take(n + 1).drop_last() =~= items.take(n));
        lemma_item_refs_error_stays(items, index, n + 1);
    }
}

/// The tables of instance `index` after the segment `elem` is installed:
/// an active segment is copied into its table at its offset, and fails
/// where that table is not there or the references do not fit; any other
/// segment leaves the tables as they are.
pub open spec fn installed(tables: Seq<TableView>, index: InstanceIndex, elem: ElemView) -> Result<
    Seq<TableView>,
    Error,
> {
    match elem.kind {
        ElemKind::Active { index: table_index, offset } => if table_index < tables.len() {
            match init_result(tables[table_index as int].buffer, offset, elem.data) {
                Err(e) => Err(e),
                Ok(buffer) => Ok(
                    tables.update(
                        table_index as int,
                        TableView { buffer, ..tables[table_index as int] },
                    ),
                ),
            }
        } else {
            Err(Error::InvalidTableAddress(Addr(index, table_index, Slot::Table)))
        },
        _ => Ok(tables),
    }
}

/// What segment `i` of `elements` makes in instance `index`, given the
/// tables as the segments before it left them: the tables after it, and
/// the segment itself.
pub open spec fn elem_at(
    elements: Seq<Element>,
    index: InstanceIndex,
    i: int,
    tables: Seq<TableView>,
) -> Result<(Seq<TableView>, ElemView), Error> {
    match RefType::spec_try_from(elements[i].ty) {
        Err(e) => Err(e),
        Ok(ty) => match item_refs(elements[i].items@, index) {
            Err(e) => Err(e),
            Ok(data) => match elem_kind_of(elements[i].kind) {
                Err(e) => Err(e),
                Ok(kind) => match installed(tables, index, ElemView { ty, data, kind }) {
                    Err(e) => Err(e),
                    Ok(after) => match elem_index_of(i) {
                        Err(e) => Err(e),
                        Ok(_) => Ok((after, ElemView { ty, data, kind })),
                    },
                },
            },
        },
    }
}

/// What the first `n` segments of `elements` make in instance `index`,
/// starting from `tables`: the tables after them, and the segments. The
/// first segment that fails gives the error, with its index.
pub open spec fn staged_elems(
    elements: Seq<Element>,
    index: InstanceIndex,
    tables: Seq<TableView>,
    n: nat,
) -> Result<(Seq<TableView>, Seq<ElemView>), InstantiationError>
    decreases n,
{
    if n == 0 {
        Ok((tables, Seq::empty()))
    } else {
        match staged_elems(elements, index, tables, (n - 1) as nat) {
            Err(first) => Err(first),
            Ok((before, front)) => match elem_at(elements, index, n - 1, before) {
                Err(cause) => Err(
                    InstantiationError { step: Step::Elems, index: (n - 1) as usize, cause },
                ),
                Ok((after, elem)) => Ok((after, front.push(elem))),
            },
        }
    }
}

/// A failure among the first `n` segments is the failure of the whole
/// step.
pub proof fn lemma_staged_elems_error_stays(
    elements: Seq<Element>,
    index: InstanceIndex,
    tables: Seq<TableView>,
    n: nat,
    count: nat,
)
    requires
        n <= count,
        staged_elems(elements, index, tables, n) is Err,
    ensures
        staged_elems(elements, index, tables, count) == staged_elems(elements, index, tables, n),
    decreases count - n,
{
    if n < count {
        lemma_staged_elems_error_stays(elements, index, tables, n, (count - 1) as nat);
    }
}

/// Where the element segments succeed, there is one for each declaration,
/// no more than a `u32` can number, and the tables are as many as before.
pub proof fn lemma_staged_elems_ok(
    elements: Seq<Element>,
    index: InstanceIndex,
    tables: Seq<TableView>,
    n: nat,
)
    requires
        staged_elems(elements, index, tables, n) is Ok,
    ensures
        staged_elems(elements, index, tables, n)->Ok_0.1.len() == n,
        staged_elems(elements, index, tables, n)->Ok_0.0.len() == tables.len(),
        n <= u32::MAX + 1,
    decreases n,
{
    if n > 0 {
        lemma_staged_elems_ok(elements, index, tables, (n - 1) as nat);
    }
}

/// Whether segment `k` of `elements` is an active segment for table
/// `table_index`.
pub open spec fn targets(elements: Seq<Element>, k: int, table_index: u32) -> bool {
    elem_kind_of(elements[k].kind) matches Ok(ElemKind::Active { index, .. }) && index
        == table_index
}

/// Where the first `n` segments succeed, segment `j` is among them as it
/// was made; and if it is an active segment for table `t`, and no later
/// one of the `n` is, then that table holds the references of segment `j`
/// from its offset on.
pub proof fn lemma_active_segment_installed(
    elements: Seq<Element>,
    index: InstanceIndex,
    tables: Seq<TableView>,
    n: nat,
    j: int,
)
    requires
        staged_elems(elements, index, tables, n) is Ok,
        0 <= j < n,
    ensures
        ({
            let (after, elems) = staged_elems(elements, index, tables, n)->Ok_0;
            &&& elems.len() == n
            &&& elem_kind_of(elements[j].kind) == Ok::<ElemKind, Error>(elems[j].kind)
            &&& item_refs(elements[j].items@, index) == Ok::<Seq<RefValue>, Error>(elems[j].data)
            &&& elems[j].kind matches ElemKind::Active { index: t, offset } ==> {
                &&& (forall|k: int| j < k < n ==> !targets(elements, k, t)) ==> {
                    &&& t < after.len()
                    &&& offset_of(offset) matches Ok(at)
                    &&& at + elems[j].data.len() <= after[t as int].buffer.len()
                    &&& after[t as int].buffer.subrange(at as int, at + elems[j].data.len())
                        == elems[j].data
                }
            }
        }),
    decreases n,
{
    lemma_staged_elems_ok(elements, index, tables, n);
    let (before, front) = staged_elems(elements, index, tables, (n - 1) as nat)->Ok_0;
    let (after, elems) = staged_elems(elements, index, tables, n)->Ok_0;
    lemma_staged_elems_ok(elements, index, tables, (n - 1) as nat);
    let made = elem_at(elements, index, n - 1, before)->Ok_0.1;
    assert(elems == front.push(made));
    if j == n - 1 {
        if let ElemKind::Active { index: t, offset } = made.kind {
            let at = offset_of(offset)->Ok_0;
            let buffer = before[t as int].buffer;
            assert(after[t as int].buffer == buffer.subrange(0, at as int) + made.data
                + buffer.subrange(at + made.data.len(), buffer.len() as int));
            assert(after[t as int].buffer.subrange(at as int, at + made.data.len())
                =~= made.data);
        }
    } else {
        lemma_active_segment_installed(elements, index, tables, (n - 1) as nat, j);
        assert(elems[j] == front[j]);
        if let ElemKind::Active { index: t, offset } = elems[j].kind {
            if forall|k: int| j < k < n ==> !targets(elements, k, t) {
                assert(!targets(elements, n - 1, t));
                assert(forall|k: int| j < k < n - 1 ==> !targets(elements, k, t));
                assert(after[t as int] == before[t as int]);
            }
        }
    }
}

/// All that instantiating `module` as instance `index` makes.
pub struct Allocation {
    pub globals: Seq<Global>,
    pub funcs: Seq<FuncView>,
    /// The tables, with the active element segments copied in.
    pub tables: Seq<TableView>,
    pub elems: Seq<ElemView>,
}

/// The objects that instantiating `module` as instance `index` makes, by
/// kind and position. The steps are taken in order: globals, functions,
/// tables, element segments; the first failure is the outcome.
pub open spec fn allocated(module: ModuleView, index: InstanceIndex) -> Result<
    Allocation,
    InstantiationError,
> {
    match staged_globals(module.globals) {
        Err(e) => Err(e),
        Ok(globals) => match staged_funcs(module) {
            Err(e) => Err(e),
            Ok(funcs) => match staged_tables(module.tables) {
                Err(e) => Err(e),
                Ok(empty_tables) => match staged_elems(
                    module.elements,
                    index,
                    empty_tables,
                    module.elements.len(),
                ) {
                    Err(e) => Err(e),
                    Ok((tables, elems)) => Ok(Allocation { globals, funcs, tables, elems }),
                },
            },
        },
    }
}

/// Where the allocation succeeds, it makes one global, one table and one
/// element segment for each declaration, and one function for each
/// declaration that has a body.
pub proof fn lemma_allocation_counts(module: ModuleView, index: InstanceIndex)
    requires
        allocated(module, index) is Ok,
    ensures
        allocated(module, index)->Ok_0.globals.len() == module.globals.len(),
        allocated(module, index)->Ok_0.funcs.len() == func_count(module),
        allocated(module, index)->Ok_0.tables.len() == module.tables.len(),
        allocated(module, index)->Ok_0.elems.len() == module.elements.len(),
{
    lemma_staged_ok(module.globals.len(), make_global(module.globals), Step::Globals);
    lemma_staged_ok(func_count(module), make_func(module), Step::Funcs);
    lemma_staged_ok(module.tables.len(), make_table(module.tables), Step::Tables);
    lemma_staged_elems_ok(
        module.elements,
        index,
        staged_tables(module.tables)->Ok_0,
        module.elements.len(),
    );
}

/// Makes the globals of a module: each initialiser is resolved as a
/// constant, in the order of declaration.
pub fn allocate_globals(decls: &Vec<GlobalDecl>) -> (r: Result<Vec<Global>, InstantiationError>)
    ensures
        match staged_globals(decls@) {
            Ok(globals) => r matches Ok(v) && v@ == globals,
            Err(e) => r matches Err(err) && err == e,
        },
{
    let mut globals: Vec<Global> = Vec::new();
    let mut i: usize = 0;
    while i < decls.len()
        invariant
            i <= decls.len(),
            staged(i as nat, make_global(decls@), Step::Globals) == Ok::<
                Seq<Global>,
                InstantiationError,
            >(globals@),
        decreases decls.len() - i,
    {
        let made = match resolve_constant_expr(&decls[i].init_expr) {
            Err(e) => Err(e),
            Ok(val) => match to_elem_index(i) {
                Err(e) => Err(e),
                Ok(_) => Ok(Global::new(val, decls[i].ty)),
            },
        };
        assert(made == global_at(decls@, i as int));
        match made {
            Ok(global) => {
                globals.push(global);
            },
            Err(cause) => {
                proof {
                    lemma_staged_error_stays(
                        (i + 1) as nat,
                        decls@.len(),
                        make_global(decls@),
                        Step::Globals,
                    );
                }
                return Err(InstantiationError { step: Step::Globals, index: i, cause });
            },
        }
        i += 1;
    }
    Ok(globals)
}

/// Makes the functions of a module: function `i` gets the type that its
/// declaration names and the locals and instructions of body `i`.
pub fn allocate_funcs(module: &Module) -> (r: Result<Vec<Func>, InstantiationError>)
    ensures
        match staged_funcs(module@) {
            Ok(funcs) => r matches Ok(v) && funcs_view(v@) == funcs,
            Err(e) => r matches Err(err) && err == e,
        },
{
    let count = if module.codes.len() <= module.functions.len() {
        module.codes.len()
    } else {
        module.functions.len()
    };
    let mut funcs: Vec<Func> = Vec::new();
    assert(funcs_view(funcs@) =~= Seq::<FuncView>::empty());
    let mut i: usize = 0;
    while i < count
        invariant
            i <= count,
            count == func_count(module@),
            staged(i as nat, make_func(module@), Step::Funcs) == Ok::<
                Seq<FuncView>,
                InstantiationError,
            >(funcs_view(funcs@)),
        decreases count - i,
    {
        let type_index = module.functions[i];
        let made = if type_index as usize >= module.types.len() {
            Err(Error::InvalidTypeIndex(type_index))
        } else {
            match Func::new(module.types[type_index as usize].clone(), &module.codes[i]) {
                Err(e) => Err(e),
                Ok(func) => match to_elem_index(i) {
                    Err(e) => Err(e),
                    Ok(_) => Ok(func),
                },
            }
        };
        assert(match func_at(module@, i as int) {
            Ok(view) => made matches Ok(f) && f@ == view,
            Err(e) => made matches Err(err) && err == e,
        });
        match made {
            Ok(func) => {
                assert(funcs_view(funcs@.push(func)) =~= funcs_view(funcs@).push(func@));
                funcs.push(func);
            },
            Err(cause) => {
                proof {
                    lemma_staged_error_stays(
                        (i + 1) as nat,
                        count as nat,
                        make_func(module@),
                        Step::Funcs,
                    );
                }
                return Err(InstantiationError { step: Step::Funcs, index: i, cause });
            },
        }
        i += 1;
    }
    Ok(funcs)
}

/// Makes the tables of a module, each filled with null references of its
/// element type, which must be a reference type.
pub fn allocate_tables(decls: &Vec<TableType>) -> (r: Result<Vec<Table>, InstantiationError>)
    ensures
        match staged_tables(decls@) {
            Ok(tables) => r matches Ok(v) && tables_view(v@) == tables,
            Err(e) => r matches Err(err) && err == e,
        },
{
    let mut tables: Vec<Table> = Vec::new();
    assert(tables_view(tables@) =~= Seq::<TableView>::empty());
    let mut i: usize = 0;
    while i < decls.len()
        invariant
            i <= decls.len(),
            staged(i as nat, make_table(decls@), Step::Tables) == Ok::<
                Seq<TableView>,
                InstantiationError,
            >(tables_view(tables@)),
        decreases decls.len() - i,
    {
        let decl = decls[i];
        let made = match RefType::try_from(decl.element_type) {
            Err(e) => Err(e),
            Ok(ty) => match to_elem_index(i) {
                Err(e) => Err(e),
                Ok(_) => Table::new(ty, decl.initial, decl.maximum),
            },
        };
        assert(match table_at(decls@, i as int) {
            Ok(view) => made matches Ok(t) && t.snapshot() == view,
            Err(e) => made matches Err(err) && err == e,
        });
        match made {
            Ok(table) => {
                assert(tables_view(tables@.push(table)) =~= tables_view(tables@).push(
                    table.snapshot(),
                ));
                tables.push(table);
            },
            Err(cause) => {
                proof {
                    lemma_staged_error_stays(
                        (i + 1) as nat,
                        decls@.len(),
                        make_table(decls@),
                        Step::Tables,
                    );
                }
                return Err(InstantiationError { step: Step::Tables, index: i, cause });
            },
        }
        i += 1;
    }
    Ok(tables)
}

/// Resolves the items of an element segment to references into instance
/// `index`.
pub fn resolve_items(items: &Vec<ElementItem>, index: InstanceIndex) -> (r: Result<
    Vec<RefValue>,
    Error,
>)
    ensures
        match item_refs(items@, index) {
            Ok(refs) => r matches Ok(v) && v@ == refs,
            Err(e) => r matches Err(err) && err == e,
        },
{
    let mut refs: Vec<RefValue> = Vec::new();
    let mut i: usize = 0;
    while i < items.len()
        invariant
            i <= items.len(),
            item_refs(items@.take(i as int), index) == Ok::<Seq<RefValue>, Error>(refs@),
        decreases items.len() - i,
    {
        proof {
            assert(items@.take(i + 1).drop_last() =~= items@.take(i as int));
            assert(items@.take(i + 1).last() == items@[i as int]);
        }
        let resolved = match &items[i] {
            ElementItem::Func(idx) => Ok(
                RefValue::FuncRef(Addr::new_unsafe(index, *idx, Slot::Func)),
            ),
            ElementItem::Expr(init) => resolve_funcref_expr(init, index),
        };
        match resolved {
            Ok(reference) => {
                refs.push(reference);
            },
            Err(e) => {
                proof {
                    lemma_item_refs_error_stays(items@, index, i + 1);
                }
                return Err(e);
            },
        }
        i += 1;
    }
    assert(items@.take(items.len() as int) =~= items@);
    Ok(refs)
}

fn copy_refs(refs: &Vec<RefValue>) -> (r: Vec<RefValue>)
    ensures
        r@ == refs@,
{
    let mut r: Vec<RefValue> = Vec::new();
    let mut i: usize = 0;
    while i < refs.len()
        invariant
            i <= refs.len(),
            r@ == refs@.take(i as int),
        decreases refs.len() - i,
    {
        r.push(refs[i]);
        i += 1;
        assert(r@ =~= refs@.take(i as int));
    }
    assert(refs@.take(refs.len() as int) =~= refs@);
    r
}

/// Copies an active segment into its table among `tables`, the tables of
/// instance `index`.
pub fn install(tables: &mut Vec<Table>, index: InstanceIndex, elem: &Elem) -> (r: Result<(), Error>)
    ensures
        match installed(tables_view(old(tables)@), index, elem.snapshot()) {
            Ok(after) => r is Ok && tables_view(final(tables)@) == after,
            Err(e) => r == Err::<(), Error>(e),
        },
{
    match elem.metadata() {
        None => Ok(()),
        Some((table_index, offset)) => {
            if (table_index as usize) < tables.len() {
                let ghost before = tables@;
                let r = tables[table_index as usize].init(offset, copy_refs(elem.data()));
                proof {
                    let at = table_index as int;
                    assert(elem.snapshot().kind == (ElemKind::Active {
                        index: table_index,
                        offset: *offset,
                    }));
                    assert(tables_view(before)[at].buffer == before[at]@);
                    if r is Ok {
                        assert(tables@.len() == before.len());
                        assert(forall|j: int|
                            0 <= j < before.len() && j != at ==> tables@[j] == before[j]);
                        assert(tables_view(tables@) =~= tables_view(before).update(
                            at,
                            TableView { buffer: tables@[at]@, ..tables_view(before)[at] },
                        ));
                    }
                }
                r
            } else {
                Err(
                    Error::InvalidTableAddress(
                        Addr::new_unsafe(index, table_index, Slot::Table),
                    ),
                )
            }
        },
    }
}

/// Makes the element segments of instance `index`, and copies the active
/// ones into `tables`, the tables of that instance.
pub fn allocate_elems(elements: &Vec<Element>, index: InstanceIndex, tables: &mut Vec<Table>) -> (r:
    Result<Vec<Elem>, InstantiationError>)
    ensures
        match staged_elems(elements@, index, tables_view(old(tables)@), elements@.len()) {
            Ok((after, elems)) => r matches Ok(v) && elems_view(v@) == elems && tables_view(
                final(tables)@,
            ) == after,
            Err(e) => r matches Err(err) && err == e,
        },
{
    let ghost start = tables_view(tables@);
    let mut elems: Vec<Elem> = Vec::new();
    assert(elems_view(elems@) =~= Seq::<ElemView>::empty());
    let mut i: usize = 0;
    while i < elements.len()
        invariant
            i <= elements.len(),
            start == tables_view(old(tables)@),
            staged_elems(elements@, index, start, i as nat) == Ok::<
                (Seq<TableView>, Seq<ElemView>),
                InstantiationError,
            >((tables_view(tables@), elems_view(elems@))),
        decreases elements.len() - i,
    {
        let ghost before = tables_view(tables@);
        let element = &elements[i];
        let made = match RefType::try_from(element.ty) {
            Err(e) => Err(e),
            Ok(ty) => match resolve_items(&element.items, index) {
                Err(e) => Err(e),
                Ok(data) => match Elem::new(ty, data, &element.kind) {
                    Err(e) => Err(e),
                    Ok(elem) => match install(tables, index, &elem) {
                        Err(e) => Err(e),
                        Ok(()) => match to_elem_index(i) {
                            Err(e) => Err(e),
                            Ok(_) => Ok(elem),
                        },
                    },
                },
            },
        };
        assert(match elem_at(elements@, index, i as int, before) {
            Ok((after, view)) => made matches Ok(e) && e.snapshot() == view && tables_view(tables@)
                == after,
            Err(e) => made matches Err(err) && err == e,
        });
        match made {
            Ok(elem) => {
                assert(elems_view(elems@.push(elem)) =~= elems_view(elems@).push(elem.snapshot()));
                elems.push(elem);
            },
            Err(cause) => {
                proof {
                    assert(staged_elems(elements@, index, start, (i + 1) as nat) == Err::<
                        (Seq<TableView>, Seq<ElemView>),
                        InstantiationError,
                    >(InstantiationError { step: Step::Elems, index: i, cause }));
                    lemma_staged_elems_error_stays(
                        elements@,
                        index,
                        start,
                        (i + 1) as nat,
                        elements@.len(),
                    );
                }
                return Err(InstantiationError { step: Step::Elems, index: i, cause });
            },
        }
        i += 1;
    }
    Ok(elems)
}

/// Makes every object of `module` for instance `index`, in the order
/// globals, functions, tables, element segments.
pub fn allocate(module: &Module, index: InstanceIndex) -> (r: Result<
    (Vec<Global>, Vec<Func>, Vec<Table>, Vec<Elem>),
    InstantiationError,
>)
    ensures
        match allocated(module@, index) {
            Ok(allocation) => r matches Ok((globals, funcs, tables, elems)) && globals@
                == allocation.globals && funcs_view(funcs@) == allocation.funcs && tables_view(
                tables@,
            ) == allocation.tables && elems_view(elems@) == allocation.elems,
            Err(e) => r matches Err(err) && err == e,
        },
{
    let globals = allocate_globals(&module.globals)?;
    let funcs = allocate_funcs(module)?;
    let mut tables = allocate_tables(&module.tables)?;
    let elems = allocate_elems(&module.elements, index, &mut tables)?;
    Ok((globals, funcs, tables, elems))
}

} // verus!
