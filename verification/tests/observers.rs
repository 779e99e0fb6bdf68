use std::cell::RefCell;

use value_observers::cell_observer::RefCellValueObserver;
use value_observers::observer::ValueObserver;
use value_observers::ownership::OwnedValue;

#[test]
fn last_set_wins() {
    let x: u64 = 1;
    let mut o = ValueObserver::new("v", &x);
    o.set(2);
    o.set(3);
    o.set(4);
    assert_eq!(*o.get_ref(), 4);
}

#[test]
fn take_of_fresh_borrowing_observer() {
    let x: u64 = 10;
    let o = ValueObserver::new("v", &x);
    assert_eq!(o.take(), 10);
}

#[test]
fn take_after_set() {
    let x: u64 = 10;
    let mut o = ValueObserver::new("v", &x);
    o.set(33);
    assert_eq!(o.take(), 33);
}

#[test]
fn hash_is_pure_function_of_content() {
    let x: u64 = 99;
    let borrowed = ValueObserver::new("a", &x);
    let owned = ValueObserver::with_value(String::from("b"), 99u64);
    assert_eq!(borrowed.hash(), owned.hash());

    let mut changed = ValueObserver::with_value(String::from("c"), 99u64);
    changed.set(100);
    assert_ne!(changed.hash(), owned.hash());

    changed.set(99);
    assert_eq!(changed.hash(), owned.hash());
}

#[test]
fn hash_of_i32_content() {
    let x: i32 = -7;
    let a = ValueObserver::new("a", &x);
    let b = ValueObserver::with_value(String::from("b"), -7i32);
    assert_eq!(a.hash(), b.hash());
}

#[test]
fn hash_of_byte_content() {
    let bytes: Vec<u8> = vec![1, 2, 3];
    let a = ValueObserver::new("a", &bytes);
    let b = ValueObserver::with_value(String::from("b"), vec![1u8, 2, 3]);
    assert_eq!(a.hash(), b.hash());
    let c = ValueObserver::with_value(String::from("c"), vec![1u8, 2]);
    assert_ne!(a.hash(), c.hash());
}

#[test]
fn hash_is_stable_across_repeated_calls() {
    let o = ValueObserver::with_value(String::from("v"), 123u64);
    let first = o.hash();
    assert_eq!(first, o.hash());
    assert_eq!(first, o.hash());
}

#[test]
fn hash_is_not_the_value_itself() {
    let o = ValueObserver::with_value(String::from("v"), 42u64);
    assert_ne!(o.hash().unwrap(), 42);
    let b = ValueObserver::with_value(String::from("b"), vec![1u8, 2, 3]);
    assert_ne!(b.hash().unwrap(), 3);
}

#[test]
fn pre_exec_is_a_noop() {
    let x: u64 = 77;
    let mut o = ValueObserver::new("v", &x);
    let mut state: u32 = 5;
    let input: u8 = 0;
    assert!(o.pre_exec(&mut state, &input).is_ok());
    assert_eq!(state, 5);
    assert_eq!(*o.get_ref(), 77);
}

#[test]
fn pre_exec_is_a_noop_on_cell_observer() {
    let cell = RefCell::new(77u64);
    let mut o = RefCellValueObserver::new("v", &cell);
    let mut state: u32 = 5;
    let input: u8 = 0;
    assert!(o.pre_exec(&mut state, &input).is_ok());
    assert_eq!(state, 5);
    assert_eq!(*o.get_ref(), 77);
}

#[test]
fn counter_scenario() {
    // The target runs and increments the counter from 0 to 5; the
    // observer then exposes the final value through a direct reference.
    let mut counter: u64 = 0;
    for _ in 0..5 {
        counter += 1;
    }
    let o = ValueObserver::new("counter", &counter);
    assert_eq!(o.name(), "counter");
    assert_eq!(*o.get_ref(), 5);

    let stored: u64 = 5;
    let fresh = ValueObserver::new("fresh", &stored);
    assert_eq!(o.hash(), fresh.hash());
}

#[test]
fn cell_append_scenario() {
    let cell: RefCell<Vec<u8>> = RefCell::new(Vec::new());
    let o = RefCellValueObserver::new("log", &cell);
    // The target appends three elements through its own alias of the cell.
    cell.borrow_mut().push(10);
    cell.borrow_mut().push(20);
    cell.borrow_mut().push(30);
    let taken = o.take();
    assert_eq!(taken.len(), 3);
    assert_eq!(taken, vec![10, 20, 30]);
}

#[test]
fn cell_set_mutates_through_the_cell() {
    let cell = RefCell::new(1u64);
    let mut o = RefCellValueObserver::new("v", &cell);
    o.set(8);
    // The external alias of the same cell observes the new value: the
    // cell itself was kept, only its content replaced.
    assert_eq!(*cell.borrow(), 8);
    assert_eq!(*o.get_ref(), 8);
    assert!(matches!(o.value, OwnedValue::Ref(_)));
}

#[test]
fn cell_take_borrowed_and_owned() {
    let cell = RefCell::new(5u64);
    let borrowed = RefCellValueObserver::new("b", &cell);
    assert_eq!(borrowed.take(), 5);

    let mut owned = RefCellValueObserver::with_value(String::from("o"), 6u64);
    owned.set(7);
    assert_eq!(owned.take(), 7);
}

#[test]
fn cell_hash_matches_direct_hash() {
    // Both observer families hash with the same fixed-seed algorithm, so
    // equal content hashes equally across them.
    let value: u64 = 555;
    let direct = ValueObserver::new("d", &value);
    let cell = RefCell::new(555u64);
    let through_cell = RefCellValueObserver::new("c", &cell);
    assert_eq!(direct.hash(), through_cell.hash());
}

#[test]
fn cell_hash_follows_mutation() {
    let cell = RefCell::new(1u64);
    let o = RefCellValueObserver::new("v", &cell);
    let before = o.hash();
    assert_eq!(before, o.hash());
    *cell.borrow_mut() = 2;
    assert_ne!(before, o.hash());
    *cell.borrow_mut() = 1;
    assert_eq!(before, o.hash());
}

#[test]
fn snapshot_round_trip_is_owned() {
    // An observer shipped to another process is rebuilt from its name and
    // value alone; the rebuilt observer owns its content.
    let original = ValueObserver::with_value(String::from("answer"), 42u64);
    assert!(matches!(original.value, OwnedValue::Owned(_)));
    let name = original.name().to_string();
    let value = original.take();

    let rebuilt = ValueObserver::with_value(name, value);
    assert!(matches!(rebuilt.value, OwnedValue::Owned(_)));
    assert_eq!(rebuilt.name(), "answer");
    assert_eq!(*rebuilt.get_ref(), 42);
}

#[test]
fn set_severs_external_aliasing() {
    let x: u64 = 3;
    let mut o = ValueObserver::new("v", &x);
    assert!(matches!(o.value, OwnedValue::Ref(_)));
    o.set(4);
    // One-way transition: the observer now owns a copy and never returns
    // to borrowing.
    assert!(matches!(o.value, OwnedValue::Owned(_)));
    o.set(5);
    assert!(matches!(o.value, OwnedValue::Owned(_)));
    assert_eq!(*o.get_ref(), 5);
}

#[test]
fn ownership_cell_reads_uniformly() {
    let x: u64 = 11;
    let borrowed: OwnedValue<u64> = OwnedValue::Ref(&x);
    let owned: OwnedValue<u64> = OwnedValue::Owned(Box::new(11));
    assert_eq!(*borrowed.as_ref(), *owned.as_ref());
    assert!(!borrowed.is_owned());
    assert!(owned.is_owned());
}
