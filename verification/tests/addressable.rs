use wasm_vm::addressable::{Addr, Addressable, Slot, Slottable};

#[derive(Debug, PartialEq)]
struct Num(usize);

impl Slottable for Num {
    const SLOT: Slot = Slot::Func;
}

#[derive(Debug, PartialEq)]
struct Text(String);

impl Slottable for Text {
    const SLOT: Slot = Slot::Func;
}

#[test]
fn addressable_push_and_get() {
    let mut usizes: Addressable<Num> = Addressable::default();
    let mut strings: Addressable<Text> = Addressable::default();

    let usize_addr = usizes.push(0, 0, Num(1));
    let usize_result = usizes.get(&usize_addr).unwrap();

    assert_eq!(usize_addr, Addr::new_unsafe(0, 0, Slot::Func));
    assert_eq!(usize_result.0, 1usize);

    let string_addr = strings.push(1, 0, Text("foo".into()));
    let string_result = strings.get(&string_addr).unwrap();

    assert_eq!(string_addr, Addr::new_unsafe(1, 0, Slot::Func));
    assert_eq!(string_result.0, "foo");
}

#[test]
fn an_address_resolves_to_what_was_pushed_there() {
    let mut nums: Addressable<Num> = Addressable::default();
    let a = nums.push(0, 0, Num(10));
    let b = nums.push(0, 1, Num(11));
    let c = nums.push(1, 0, Num(12));
    assert_eq!(nums.get(&a), Some(&Num(10)));
    assert_eq!(nums.get(&b), Some(&Num(11)));
    assert_eq!(nums.get(&c), Some(&Num(12)));
    assert_eq!(a.instance_index(), 0);
    assert_eq!(b.element_index(), 1);
    assert_eq!(c.slot(), Slot::Func);
    // Unknown addresses, and addresses of another index space, find nothing.
    assert_eq!(nums.get(&Addr::new_unsafe(1, 1, Slot::Func)), None);
    assert_eq!(nums.get(&Addr::new_unsafe(0, 0, Slot::Table)), None);
    assert_eq!(nums.get(&Addr::new_unsafe(usize::MAX, u32::MAX, Slot::Func)), None);
}

#[test]
fn addresses_compare_by_their_three_parts() {
    let a = Addr::new_unsafe(1, 2, Slot::Func);
    assert_eq!(a, Addr::new_unsafe(1, 2, Slot::Func));
    assert_ne!(a, Addr::new_unsafe(2, 2, Slot::Func));
    assert_ne!(a, Addr::new_unsafe(1, 3, Slot::Func));
    assert_ne!(a, Addr::new_unsafe(1, 2, Slot::Table));
    // The two indices do not run into each other.
    let mut nums: Addressable<Num> = Addressable::default();
    nums.push(1, 0, Num(1));
    assert_eq!(nums.get(&Addr::new_unsafe(0, u32::MAX, Slot::Func)), None);
    nums.push(0, u32::MAX, Num(2));
    assert_eq!(nums.get(&Addr::new_unsafe(1, 0, Slot::Func)), Some(&Num(1)));
    assert_eq!(nums.get(&Addr::new_unsafe(0, u32::MAX, Slot::Func)), Some(&Num(2)));
}

#[test]
fn an_object_can_be_changed_in_place() {
    let mut nums: Addressable<Num> = Addressable::default();
    let a = nums.push(0, 0, Num(1));
    let b = nums.push(0, 1, Num(2));
    nums.get_mut(&a).unwrap().0 = 5;
    assert_eq!(nums.get(&a), Some(&Num(5)));
    assert_eq!(nums.get(&b), Some(&Num(2)));
    assert!(nums.get_mut(&Addr::new_unsafe(0, 2, Slot::Func)).is_none());
}

#[test]
fn objects_pushed_together_are_numbered_in_order() {
    let mut nums: Addressable<Num> = Addressable::default();
    nums.push_all(0, vec![Num(7), Num(8), Num(9)]);
    nums.push_all(1, vec![]);
    nums.push_all(2, vec![Num(5)]);
    assert_eq!(nums.get(&Addr::new_unsafe(0, 0, Slot::Func)), Some(&Num(7)));
    assert_eq!(nums.get(&Addr::new_unsafe(0, 1, Slot::Func)), Some(&Num(8)));
    assert_eq!(nums.get(&Addr::new_unsafe(0, 2, Slot::Func)), Some(&Num(9)));
    assert_eq!(nums.get(&Addr::new_unsafe(0, 3, Slot::Func)), None);
    assert_eq!(nums.get(&Addr::new_unsafe(1, 0, Slot::Func)), None);
    assert_eq!(nums.get(&Addr::new_unsafe(2, 0, Slot::Func)), Some(&Num(5)));
}
