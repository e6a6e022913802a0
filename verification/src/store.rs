//! The store: the one owner of the runtime objects of every instance.

use crate::addressable::{Addr, Addressable, InstanceIndex, Slot, Slottable};
use crate::allocation::{
    allocate, allocated, func_count, lemma_allocation_counts, lemma_staged_elems_ok,
    lemma_staged_ok, make_func, make_global, make_table, staged_tables,
};
use crate::error::{Error, InstantiationError, Step};
use crate::instance::elem::{Elem, ElemView};
use crate::instance::func::{Func, FuncView};
use crate::instance::global::Global;
use crate::instance::table::{Table, TableView};
use crate::instance::{Instance, InstanceView};
use crate::module::{func_types_view, Module, ModuleView};
use vstd::hash_map::StringHashMap;
use vstd::prelude::*;

verus! {

/// The objects of `after` under the addresses of instance `index` in index
/// space `slot` look like `views`, each at its position, and `after` holds
/// nothing else that `before` did not hold.
pub open spec fn extended_as<T, V>(
    before: Map<Addr, T>,
    after: Map<Addr, T>,
    index: InstanceIndex,
    slot: Slot,
    views: Seq<V>,
    view_of: spec_fn(T) -> V,
) -> bool {
    &&& forall|a: Addr| #[trigger]
        after.contains_key(a) <==> before.contains_key(a) || (a.0 == index && a.2 == slot && a.1
            < views.len())
    &&& forall|a: Addr| #[trigger] before.contains_key(a) ==> after[a] == before[a]
    &&& forall|i: int|
        0 <= i < views.len() ==> view_of(#[trigger] after[Addr(index, i as u32, slot)])
            == views[i]
}

/// A global is plain data already.
pub open spec fn global_view() -> spec_fn(Global) -> Global {
    |g: Global| g
}

/// A function as plain data.
pub open spec fn func_view() -> spec_fn(Func) -> FuncView {
    |f: Func| f@
}

/// A table as plain data.
pub open spec fn table_view() -> spec_fn(Table) -> TableView {
    |t: Table| t.snapshot()
}

/// An element segment as plain data.
pub open spec fn elem_view() -> spec_fn(Elem) -> ElemView {
    |e: Elem| e.snapshot()
}

/// The store: the instances in the order they were made, their names, and
/// the objects of every instance, by kind and address.
pub struct Store {
    instances: Vec<Instance>,
    instances_env: StringHashMap<InstanceIndex>,
    globals: Addressable<Global>,
    funcs: Addressable<Func>,
    tables: Addressable<Table>,
    elems: Addressable<Elem>,
}

/// A store as plain data.
pub struct StoreState {
    pub instances: Seq<InstanceView>,
    /// The names that instances were registered under, each with the index
    /// of its instance.
    pub names: Map<Seq<char>, InstanceIndex>,
    pub globals: Map<Addr, Global>,
    pub funcs: Map<Addr, Func>,
    pub tables: Map<Addr, Table>,
    pub elems: Map<Addr, Elem>,
}

/// A list of instances as plain data.
pub open spec fn instances_view(instances: Seq<Instance>) -> Seq<InstanceView> {
    Seq::new(instances.len(), |i: int| instances[i]@)
}

impl View for Store {
    type V = StoreState;

    closed spec fn view(&self) -> StoreState {
        StoreState {
            instances: instances_view(self.instances@),
            names: self.instances_env@,
            globals: self.globals@,
            funcs: self.funcs@,
            tables: self.tables@,
            elems: self.elems@,
        }
    }
}

/// No object and no name of the store belongs to an instance that the
/// store does not hold, and every instance knows its own position.
pub open spec fn consistent(store: StoreState) -> bool {
    &&& store.instances.len() <= usize::MAX
    &&& forall|i: int| 0 <= i < store.instances.len() ==> (#[trigger] store.instances[i]).index == i
    &&& forall|name: Seq<char>| #[trigger]
        store.names.contains_key(name) ==> store.names[name] < store.instances.len()
    &&& forall|a: Addr| #[trigger] store.globals.contains_key(a) ==> a.0 < store.instances.len()
    &&& forall|a: Addr| #[trigger] store.funcs.contains_key(a) ==> a.0 < store.instances.len()
    &&& forall|a: Addr| #[trigger] store.tables.contains_key(a) ==> a.0 < store.instances.len()
    &&& forall|a: Addr| #[trigger] store.elems.contains_key(a) ==> a.0 < store.instances.len()
}

/// The store with nothing in it.
pub open spec fn empty_store() -> StoreState {
    StoreState {
        instances: Seq::empty(),
        names: Map::empty(),
        globals: Map::empty(),
        funcs: Map::empty(),
        tables: Map::empty(),
        elems: Map::empty(),
    }
}

/// What instantiating `module` under `name` does to a store and gives
/// back. The instance gets the next index. A name that is taken fails the
/// call; so does any step of the allocation. A call that fails leaves the
/// store as it was. A call that succeeds adds the instance, its name if
/// one was given, and every object of the allocation under the address of
/// its kind and position.
pub open spec fn instantiation(
    before: StoreState,
    after: StoreState,
    module: ModuleView,
    name: Option<String>,
    r: Result<Instance, InstantiationError>,
) -> bool {
    let index = before.instances.len() as usize;
    if name matches Some(n) && before.names.contains_key(n@) {
        &&& after == before
        &&& r == Err::<Instance, InstantiationError>(
            InstantiationError {
                step: Step::Register,
                index,
                cause: Error::DuplicateInstanceName(name->Some_0),
            },
        )
    } else {
        match allocated(module, index) {
            Err(e) => after == before && r == Err::<Instance, InstantiationError>(e),
            Ok(allocation) => {
                &&& r matches Ok(instance)
                &&& instance@ == (InstanceView { index, types: func_types_view(module.types) })
                &&& after.instances == before.instances.push(instance@)
                &&& after.names == (match name {
                    Some(n) => before.names.insert(n@, index),
                    None => before.names,
                })
                &&& extended_as(
                    before.globals,
                    after.globals,
                    index,
                    Slot::Global,
                    allocation.globals,
                    global_view(),
                )
                &&& extended_as(
                    before.funcs,
                    after.funcs,
                    index,
                    Slot::Func,
                    allocation.funcs,
                    func_view(),
                )
                &&& extended_as(
                    before.tables,
                    after.tables,
                    index,
                    Slot::Table,
                    allocation.tables,
                    table_view(),
                )
                &&& extended_as(
                    before.elems,
                    after.elems,
                    index,
                    Slot::Elem,
                    allocation.elems,
                    elem_view(),
                )
            },
        }
    }
}

/// The store only grows: whatever an address resolved to before an
/// instantiation, it resolves to afterwards, whether the instantiation
/// succeeded or not; the instances that were there keep their places, and
/// the names that were registered keep their instances.
pub proof fn lemma_append_only(
    before: StoreState,
    after: StoreState,
    module: ModuleView,
    name: Option<String>,
    r: Result<Instance, InstantiationError>,
)
    requires
        instantiation(before, after, module, name, r),
    ensures
        before.instances.len() <= after.instances.len(),
        forall|i: int|
            0 <= i < before.instances.len() ==> #[trigger] after.instances[i]
                == before.instances[i],
        forall|n: Seq<char>| #[trigger]
            before.names.contains_key(n) ==> after.names.contains_key(n) && after.names[n]
                == before.names[n],
        forall|a: Addr| #[trigger]
            before.globals.contains_key(a) ==> after.globals.contains_key(a) && after.globals[a]
                == before.globals[a],
        forall|a: Addr| #[trigger]
            before.funcs.contains_key(a) ==> after.funcs.contains_key(a) && after.funcs[a]
                == before.funcs[a],
        forall|a: Addr| #[trigger]
            before.tables.contains_key(a) ==> after.tables.contains_key(a) && after.tables[a]
                == before.tables[a],
        forall|a: Addr| #[trigger]
            before.elems.contains_key(a) ==> after.elems.contains_key(a) && after.elems[a]
                == before.elems[a],
{
}

/// An instantiation that succeeds gives the instance the index that the
/// store had no instance at, and files object `i` of each kind under the
/// address of that instance, that kind and the element index `i`.
pub proof fn lemma_declaration_order(
    before: StoreState,
    after: StoreState,
    module: ModuleView,
    name: Option<String>,
    r: Result<Instance, InstantiationError>,
)
    requires
        consistent(before),
        instantiation(before, after, module, name, r),
        r is Ok,
    ensures
        r->Ok_0@.index == before.instances.len(),
        after.instances.len() == before.instances.len() + 1,
        forall|i: int|
            0 <= i < module.globals.len() ==> #[trigger] after.globals.contains_key(
                Addr(r->Ok_0@.index, i as u32, Slot::Global),
            ),
        forall|i: int|
            0 <= i < func_count(module) ==> #[trigger] after.funcs.contains_key(
                Addr(r->Ok_0@.index, i as u32, Slot::Func),
            ),
        forall|i: int|
            0 <= i < module.tables.len() ==> #[trigger] after.tables.contains_key(
                Addr(r->Ok_0@.index, i as u32, Slot::Table),
            ),
        forall|i: int|
            0 <= i < module.elements.len() ==> #[trigger] after.elems.contains_key(
                Addr(r->Ok_0@.index, i as u32, Slot::Elem),
            ),
{
    let index = before.instances.len() as usize;
    lemma_allocation_counts(module, index);
}

impl Default for Store {
    fn default() -> (s: Self)
        ensures
            s.wf(),
            s@ == empty_store(),
    {
        Store::new()
    }
}

impl Store {
    /// Whether the store is in order: see `consistent`.
    pub closed spec fn wf(&self) -> bool {
        consistent(self@)
    }

    /// A store with nothing in it.
    pub fn new() -> (s: Self)
        ensures
            s.wf(),
            s@ == empty_store(),
    {
        let s = Store {
            instances: Vec::new(),
            instances_env: StringHashMap::new(),
            globals: Addressable::default(),
            funcs: Addressable::default(),
            tables: Addressable::default(),
            elems: Addressable::default(),
        };
        assert(instances_view(s.instances@) =~= Seq::<InstanceView>::empty());
        s
    }

    /// Makes `module` an instance of this store, under `name` if one is
    /// given. Everything is made before anything is put into the store:
    /// a call that fails changes nothing.
    pub fn instantiate(&mut self, module: &Module, name: Option<String>) -> (r: Result<
        Instance,
        InstantiationError,
    >)
        requires
            old(self).wf(),
        ensures
            final(self).wf(),
            instantiation(old(self)@, final(self)@, module@, name, r),
    {
        let index = self.instances.len();
        let name = match name {
            Some(n) => {
                if self.instances_env.contains_key(n.as_str()) {
                    return Err(
                        InstantiationError {
                            step: Step::Register,
                            index,
                            cause: Error::DuplicateInstanceName(n),
                        },
                    );
                }
                Some(n)
            },
            None => None,
        };
        let staged = allocate(module, index)?;
        let (globals, funcs, tables, elems) = staged;
        proof {
            lemma_staged_ok(module.globals@.len(), make_global(module.globals@), Step::Globals);
            lemma_staged_ok(func_count(module@), make_func(module@), Step::Funcs);
            lemma_staged_ok(module.tables@.len(), make_table(module.tables@), Step::Tables);
            lemma_staged_elems_ok(
                module.elements@,
                index,
                staged_tables(module.tables@)->Ok_0,
                module.elements@.len(),
            );
        }
        proof {
            let before = old(self)@;
            assert(before.instances.len() == index);
            assert(forall|a: Addr| #[trigger]
                self.globals@.contains_key(a) ==> before.globals.contains_key(a) && a.0 != index);
            assert(forall|a: Addr| #[trigger]
                self.funcs@.contains_key(a) ==> before.funcs.contains_key(a) && a.0 != index);
            assert(forall|a: Addr| #[trigger]
                self.tables@.contains_key(a) ==> before.tables.contains_key(a) && a.0 != index);
            assert(forall|a: Addr| #[trigger]
                self.elems@.contains_key(a) ==> before.elems.contains_key(a) && a.0 != index);
        }
        if let Some(n) = name {
            self.instances_env.insert(n, index);
        }
        self.globals.push_all(index, globals);
        self.funcs.push_all(index, funcs);
        self.tables.push_all(index, tables);
        self.elems.push_all(index, elems);
        let instance = Instance::new(module.func_types(), index);
        self.instances.push(instance.clone());
        proof {
            let before = old(self)@;
            let after = self@;
            let allocation = allocated(module@, index)->Ok_0;
            assert(after.instances =~= before.instances.push(instance@));
            crate::instance::global::lemma_slot();
            crate::instance::func::lemma_slot();
            crate::instance::table::lemma_slot();
            crate::instance::elem::lemma_slot();
            assert(extended_as(
                before.globals,
                after.globals,
                index,
                Slot::Global,
                allocation.globals,
                global_view(),
            ));
            assert(extended_as(
                before.funcs,
                after.funcs,
                index,
                Slot::Func,
                allocation.funcs,
                func_view(),
            ));
            assert(extended_as(
                before.tables,
                after.tables,
                index,
                Slot::Table,
                allocation.tables,
                table_view(),
            ));
            assert(extended_as(
                before.elems,
                after.elems,
                index,
                Slot::Elem,
                allocation.elems,
                elem_view(),
            ));
            assert(consistent(before));
            assert(after.instances.len() == self.instances.len());
            assert forall|i: int| 0 <= i < after.instances.len() implies (
            #[trigger] after.instances[i]).index == i by {
                if i < index {
                    assert(after.instances[i] == before.instances[i]);
                }
            }
            assert forall|n: Seq<char>| #[trigger] after.names.contains_key(n) implies after.names[n]
                < after.instances.len() by {
                if before.names.contains_key(n) {
                    assert(before.names[n] < before.instances.len());
                }
            }
            assert forall|a: Addr| #[trigger] after.globals.contains_key(a) implies a.0
                < after.instances.len() by {
                if before.globals.contains_key(a) {
                }
            }
            assert forall|a: Addr| #[trigger] after.funcs.contains_key(a) implies a.0
                < after.instances.len() by {
                if before.funcs.contains_key(a) {
                }
            }
            assert forall|a: Addr| #[trigger] after.tables.contains_key(a) implies a.0
                < after.instances.len() by {
                if before.tables.contains_key(a) {
                }
            }
            assert forall|a: Addr| #[trigger] after.elems.contains_key(a) implies a.0
                < after.instances.len() by {
                if before.elems.contains_key(a) {
                }
            }
            assert(consistent(after));
        }
        Ok(instance)
    }

    /// The global at `addr`, if the store holds one there.
    pub fn get_global(&self, addr: &Addr) -> (r: Option<&Global>)
        ensures
            match r {
                Some(global) => self@.globals.contains_key(*addr) && *global
                    == self@.globals[*addr],
                None => !self@.globals.contains_key(*addr),
            },
    {
        self.globals.get(addr)
    }

    /// The function at `addr`, if the store holds one there.
    pub fn get_func(&self, addr: &Addr) -> (r: Option<&Func>)
        ensures
            match r {
                Some(func) => self@.funcs.contains_key(*addr) && *func == self@.funcs[*addr],
                None => !self@.funcs.contains_key(*addr),
            },
    {
        self.funcs.get(addr)
    }

    /// The table at `addr`, if the store holds one there.
    pub fn get_table(&self, addr: &Addr) -> (r: Option<&Table>)
        ensures
            match r {
                Some(table) => self@.tables.contains_key(*addr) && *table == self@.tables[*addr],
                None => !self@.tables.contains_key(*addr),
            },
    {
        self.tables.get(addr)
    }

    /// The element segment at `addr`, if the store holds one there.
    pub fn get_elem(&self, addr: &Addr) -> (r: Option<&Elem>)
        ensures
            match r {
                Some(elem) => self@.elems.contains_key(*addr) && *elem == self@.elems[*addr],
                None => !self@.elems.contains_key(*addr),
            },
    {
        self.elems.get(addr)
    }

    /// The global at `addr`, to be changed in place, if the store holds
    /// one there. Nothing else in the store changes.
    pub fn get_global_mut(&mut self, addr: &Addr) -> (r: Option<&mut Global>)
        requires
            old(self).wf(),
        ensures
            final(self).wf(),
            match r {
                Some(global) => {
                    &&& old(self)@.globals.contains_key(*addr)
                    &&& *global == old(self)@.globals[*addr]
                    &&& final(self)@ == (StoreState {
                        globals: old(self)@.globals.insert(*addr, *final(global)),
                        ..old(self)@
                    })
                },
                None => !old(self)@.globals.contains_key(*addr) && final(self)@ == old(self)@,
            },
    {
        self.globals.get_mut(addr)
    }

    /// The table at `addr`, to be changed in place, if the store holds one
    /// there. Nothing else in the store changes.
    pub fn get_table_mut(&mut self, addr: &Addr) -> (r: Option<&mut Table>)
        requires
            old(self).wf(),
        ensures
            final(self).wf(),
            match r {
                Some(table) => {
                    &&& old(self)@.tables.contains_key(*addr)
                    &&& *table == old(self)@.tables[*addr]
                    &&& final(self)@ == (StoreState {
                        tables: old(self)@.tables.insert(*addr, *final(table)),
                        ..old(self)@
                    })
                },
                None => !old(self)@.tables.contains_key(*addr) && final(self)@ == old(self)@,
            },
    {
        self.tables.get_mut(addr)
    }

    /// The index of the instance that was registered under `name`, if one
    /// was.
    pub fn instance_index(&self, name: &str) -> (r: Option<InstanceIndex>)
        ensures
            r == (if self@.names.contains_key(name@) {
                Some(self@.names[name@])
            } else {
                None
            }),
    {
        match self.instances_env.get(name) {
            Some(index) => Some(*index),
            None => None,
        }
    }

    /// The number of instances made so far: the index that the next one
    /// gets.
    pub fn instance_count(&self) -> (n: usize)
        ensures
            n == self@.instances.len(),
    {
        self.instances.len()
    }

}

} // verus!
