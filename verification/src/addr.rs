//! Typed addresses: an address knows the kind of object it points to, and
//! the container numbers the objects itself, in the order they come.

use std::marker::PhantomData;
use vstd::prelude::*;

verus! {

/// The index of a module.
pub type ModuleIndex = u32;

/// The address of an object of kind `T`: the module it belongs to, and its
/// number among the objects of its container.
#[derive(Debug, Hash, Eq, PartialEq)]
pub struct Addr<T>(ModuleIndex, usize, PhantomData<T>);

impl<T> Clone for Addr<T> {
    fn clone(&self) -> (a: Self)
        ensures
            a.spec_module_index() == self.spec_module_index(),
            a.spec_index() == self.spec_index(),
    {
        Addr(self.0, self.1, PhantomData)
    }
}

impl<T> Copy for Addr<T> {

}

impl<T> Addr<T> {
    /// The module that the address names.
    pub closed spec fn spec_module_index(&self) -> ModuleIndex {
        self.0
    }

    /// The number that the address names.
    pub closed spec fn spec_index(&self) -> usize {
        self.1
    }

    /// Builds an address from its parts. Nothing says that an object lives
    /// there: looking the address up tells.
    pub fn new_unsafe(module_index: ModuleIndex, index: usize) -> (a: Self)
        ensures
            a.spec_module_index() == module_index,
            a.spec_index() == index,
    {
        Self(module_index, index, PhantomData)
    }

    pub fn module_index(&self) -> (m: ModuleIndex)
        ensures
            m == self.spec_module_index(),
    {
        self.0
    }
}

/// Objects of kind `T`, numbered from 0 in the order they were pushed.
pub struct Addressable<T> {
    addresses: Vec<(ModuleIndex, T)>,
}

impl<T> View for Addressable<T> {
    type V = Map<(ModuleIndex, usize), T>;

    /// The objects held, by module and number.
    closed spec fn view(&self) -> Map<(ModuleIndex, usize), T> {
        Map::new(
            |k: (ModuleIndex, usize)|
                k.1 < self.addresses@.len() && self.addresses@[k.1 as int].0 == k.0,
            |k: (ModuleIndex, usize)| self.addresses@[k.1 as int].1,
        )
    }
}

impl<T> Default for Addressable<T> {
    fn default() -> (r: Self)
        ensures
            r@ == Map::<(ModuleIndex, usize), T>::empty(),
            r.spec_len() == 0,
    {
        let r = Addressable { addresses: Vec::new() };
        assert(r@ =~= Map::<(ModuleIndex, usize), T>::empty());
        r
    }
}

impl<T> Addressable<T> {
    /// How many objects are held: the number that the next one gets.
    pub closed spec fn spec_len(&self) -> nat {
        self.addresses@.len()
    }

    /// Takes `val` in for module `module_index`, under the next free
    /// number, and returns its address.
    pub fn push(&mut self, module_index: ModuleIndex, val: T) -> (addr: Addr<T>)
        ensures
            addr.spec_module_index() == module_index,
            addr.spec_index() == old(self).spec_len(),
            final(self).spec_len() == old(self).spec_len() + 1,
            final(self)@ == old(self)@.insert((module_index, addr.spec_index()), val),
    {
        let index = self.addresses.len();
        self.addresses.push((module_index, val));
        assert(self@ =~= old(self)@.insert((module_index, index), val));
        Addr::<T>::new_unsafe(module_index, index)
    }

    /// The object at `addr`, if one was pushed there.
    pub fn get(&self, addr: &Addr<T>) -> (r: Option<&T>)
        ensures
            match r {
                Some(v) => self@.contains_key((addr.spec_module_index(), addr.spec_index()))
                    && *v == self@[(addr.spec_module_index(), addr.spec_index())],
                None => !self@.contains_key((addr.spec_module_index(), addr.spec_index())),
            },
    {
        if addr.1 < self.addresses.len() && self.addresses[addr.1].0 == addr.0 {
            Some(&self.addresses[addr.1].1)
        } else {
            None
        }
    }
}

} // verus!
