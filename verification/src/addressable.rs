//! Addresses of runtime objects, and the keyed container that owns the
//! objects of one kind.

use std::collections::HashMap;
use vstd::prelude::*;

verus! {

/// The position of an object in the index space of its module.
pub type ElemIndex = u32;

/// The position of a module instance in the store.
pub type InstanceIndex = usize;

/// The index space that an address points into.
#[derive(Clone, Copy, Eq, PartialEq, Hash, Debug, Structural)]
pub enum Slot {
    Func,
    Global,
    Table,
    Elem,
}

/// A kind of runtime object: it names the one index space its objects live in.
pub trait Slottable {
    /// The index space of this kind.
    const SLOT: Slot;

    /// The index space of this kind, as a call.
    fn slot() -> (s: Slot)
        ensures
            s == Self::SLOT,
    {
        Self::SLOT
    }
}

/// The address of a runtime object: the instance that owns it, its position
/// in its index space, and which index space that is.
#[derive(Debug, Hash, Copy, Clone, Eq, PartialEq, Structural)]
pub struct Addr(pub InstanceIndex, pub ElemIndex, pub Slot);

impl Addr {
    /// Builds an address from its parts. Nothing says that an object lives
    /// there: looking the address up tells.
    pub fn new_unsafe(instance_index: InstanceIndex, element_index: ElemIndex, slot: Slot) -> (a:
        Self)
        ensures
            a == Addr(instance_index, element_index, slot),
    {
        Addr(instance_index, element_index, slot)
    }

    pub fn instance_index(&self) -> (i: InstanceIndex)
        ensures
            i == self.0,
    {
        self.0
    }

    pub fn element_index(&self) -> (i: ElemIndex)
        ensures
            i == self.1,
    {
        self.1
    }

    pub fn slot(&self) -> (s: Slot)
        ensures
            s == self.2,
    {
        self.2
    }
}

/// The number that stands for an index space inside a key.
pub open spec fn slot_code(slot: Slot) -> int {
    match slot {
        Slot::Func => 0,
        Slot::Global => 1,
        Slot::Table => 2,
        Slot::Elem => 3,
    }
}

/// The integer under which an address is filed: the instance index above
/// bit 34, the element index in bits 2 to 33, the index space in the two
/// lowest bits.
pub open spec fn addr_key(addr: Addr) -> int {
    addr.0 * 0x4_0000_0000 + addr.1 * 4 + slot_code(addr.2)
}

/// Two addresses are filed under one key only if they are the same address:
/// equality of addresses is equality of their three parts.
pub proof fn lemma_addr_key_injective(a: Addr, b: Addr)
    ensures
        addr_key(a) == addr_key(b) <==> a == b,
        0 <= addr_key(a) <= u128::MAX,
{
}

fn key_of(addr: &Addr) -> (k: u128)
    ensures
        k == addr_key(*addr),
{
    let code: u128 = match addr.2 {
        Slot::Func => 0,
        Slot::Global => 1,
        Slot::Table => 2,
        Slot::Elem => 3,
    };
    (addr.0 as u128) * 0x4_0000_0000u128 + (addr.1 as u128) * 4u128 + code
}

/// `HashMap::get_mut`: a mutable reference to the value under `key`, if
/// the map has one.
///
/// Claimed of it: the reference is to the value that the map holds under
/// `key`; what is written through it is what the map holds under `key`
/// afterwards; nothing else in the map changes.
#[verifier::external_body]
fn map_get_mut<T>(map: &mut HashMap<u128, T>, key: u128) -> (r: Option<&mut T>)
    ensures
        match r {
            Some(v) => {
                &&& old(map)@.contains_key(key)
                &&& *v == old(map)@[key]
                &&& final(map)@ == old(map)@.insert(key, *final(v))
            },
            None => !old(map)@.contains_key(key) && final(map)@ == old(map)@,
        },
{
    map.get_mut(&key)
}

/// The objects of `objects` are in `after` under the addresses of instance
/// `index` in index space `slot`, each under its position, and `after`
/// holds nothing else that `before` did not hold.
pub open spec fn extended<T>(
    before: Map<Addr, T>,
    after: Map<Addr, T>,
    index: InstanceIndex,
    slot: Slot,
    objects: Seq<T>,
) -> bool {
    &&& forall|a: Addr| #[trigger]
        after.contains_key(a) <==> before.contains_key(a) || (a.0 == index && a.2 == slot && a.1
            < objects.len())
    &&& forall|a: Addr| #[trigger] before.contains_key(a) ==> after[a] == before[a]
    &&& forall|i: int|
        0 <= i < objects.len() ==> #[trigger] after[Addr(index, i as u32, slot)] == objects[i]
}

/// The objects of one kind, each under the address it was pushed at.
pub struct Addressable<T: Slottable> {
    addresses: HashMap<u128, T>,
}

impl<T: Slottable> View for Addressable<T> {
    type V = Map<Addr, T>;

    /// The objects held, by address. Every address is one of the index
    /// space of `T`.
    closed spec fn view(&self) -> Map<Addr, T> {
        Map::new(
            |a: Addr| a.2 == T::SLOT && self.addresses@.contains_key(addr_key(a) as u128),
            |a: Addr| self.addresses@[addr_key(a) as u128],
        )
    }
}

impl<T: Slottable> Default for Addressable<T> {
    fn default() -> (r: Self)
        ensures
            r@ == Map::<Addr, T>::empty(),
    {
        let r = Addressable { addresses: HashMap::new() };
        assert(r@ =~= Map::<Addr, T>::empty());
        r
    }
}

impl<T: Slottable> Addressable<T> {
    /// Files `val` under the address made of the two indices and the index
    /// space of `T`, and returns that address. The caller numbers the
    /// objects: the address must not be taken yet.
    pub fn push(&mut self, instance_index: InstanceIndex, elem_index: ElemIndex, val: T) -> (addr:
        Addr)
        requires
            !old(self)@.contains_key(Addr(instance_index, elem_index, T::SLOT)),
        ensures
            addr == Addr(instance_index, elem_index, T::SLOT),
            final(self)@ == old(self)@.insert(addr, val),
    {
        broadcast use vstd::std_specs::hash::group_hash_axioms;

        let key = Addr::new_unsafe(instance_index, elem_index, T::slot());
        let k = key_of(&key);
        self.addresses.insert(k, val);
        proof {
            assert forall|a: Addr| addr_key(a) as u128 == k <==> a == key by {
                lemma_addr_key_injective(a, key);
            }
            assert(self@ =~= old(self)@.insert(key, val));
        }
        key
    }

    /// Files the objects of one instance, in the order of their
    /// declaration: object `i` gets the element index `i`. The instance must
    /// be new to the container, and the objects no more than a `u32` can
    /// number.
    pub fn push_all(&mut self, instance_index: InstanceIndex, objects: Vec<T>)
        requires
            objects@.len() <= u32::MAX + 1,
            forall|a: Addr| #[trigger] old(self)@.contains_key(a) ==> a.0 != instance_index,
        ensures
            extended(old(self)@, final(self)@, instance_index, T::SLOT, objects@),
    {
        let ghost all = objects@;
        let ghost before = self@;
        assert(all.len() == objects.len());
        let mut n: usize = 0;
        for object in it: objects.into_iter()
            invariant
                it.seq() == all,
                all.len() <= u32::MAX + 1,
                all.len() <= usize::MAX,
                n == it.index(),
                forall|a: Addr| #[trigger] before.contains_key(a) ==> a.0 != instance_index,
                extended(before, self@, instance_index, T::SLOT, all.take(n as int)),
        {
            let ghost prior = self@;
            assert(n < all.len());
            self.push(instance_index, n as u32, object);
            n += 1;
            proof {
                assert(all.take(n as int) =~= all.take(n - 1).push(object));
                assert forall|i: int| 0 <= i < n implies #[trigger] self@[Addr(
                    instance_index,
                    i as u32,
                    T::SLOT,
                )] == all.take(n as int)[i] by {
                    if i < n - 1 {
                        assert(prior[Addr(instance_index, i as u32, T::SLOT)] == all.take(n - 1)[i]);
                    }
                }
            }
        }
        assert(all.take(all.len() as int) =~= all);
    }

    /// The object at `addr`, if one was pushed there.
    pub fn get(&self, addr: &Addr) -> (r: Option<&T>)
        ensures
            match r {
                Some(v) => self@.contains_key(*addr) && *v == self@[*addr],
                None => !self@.contains_key(*addr),
            },
    {
        broadcast use vstd::std_specs::hash::group_hash_axioms;

        if addr.2 != T::slot() {
            return None;
        }
        let k = key_of(addr);
        self.addresses.get(&k)
    }

    /// The object at `addr`, to be changed in place, if one was pushed
    /// there. Nothing else in the container changes.
    pub fn get_mut(&mut self, addr: &Addr) -> (r: Option<&mut T>)
        ensures
            match r {
                Some(v) => {
                    &&& old(self)@.contains_key(*addr)
                    &&& *v == old(self)@[*addr]
                    &&& final(self)@ == old(self)@.insert(*addr, *final(v))
                },
                None => !old(self)@.contains_key(*addr) && final(self)@ == old(self)@,
            },
    {
        broadcast use vstd::std_specs::hash::group_hash_axioms;

        if addr.2 != T::slot() {
            return None;
        }
        let k = key_of(addr);
        proof {
            assert forall|a: Addr| addr_key(a) as u128 == k <==> a == *addr by {
                lemma_addr_key_injective(a, *addr);
            }
        }
        map_get_mut(&mut self.addresses, k)
    }

    /// A container holds objects of one index space: an address of any
    /// other finds nothing.
    pub proof fn lemma_one_slot(&self)
        ensures
            forall|a: Addr| #[trigger] self@.contains_key(a) ==> a.2 == T::SLOT,
    {
    }
}

/// Looking up the address that a push returned gives the object that was
/// pushed, and the push changes what no other address resolves to: the
/// object is found under its own address only.
pub proof fn lemma_push_then_get<T>(before: Map<Addr, T>, addr: Addr, val: T)
    ensures
        before.insert(addr, val).contains_key(addr),
        before.insert(addr, val)[addr] == val,
        forall|other: Addr|
            other != addr ==> (#[trigger] before.insert(addr, val).contains_key(other)
                <==> before.contains_key(other)),
        forall|other: Addr|
            other != addr && before.contains_key(other) ==> #[trigger] before.insert(
                addr,
                val,
            )[other] == before[other],
{
}

/// Two addresses are equal if and only if they agree in the instance, in
/// the element index and in the index space.
pub proof fn lemma_addr_equality(a: Addr, b: Addr)
    ensures
        a == b <==> (a.0 == b.0 && a.1 == b.1 && a.2 == b.2),
        a == b <==> (addr_key(a) == addr_key(b)),
{
    lemma_addr_key_injective(a, b);
}

} // verus!
