use microps_rs::data_structure::rcu::RcuCell;

#[test]
fn new_and_load_returns_initial_value() {
    let cell = RcuCell::new(42u32);
    let snap = cell.load();
    assert_eq!(*snap, 42);
}

#[test]
fn store_replaces_value() {
    let mut cell = RcuCell::new(1u32);
    cell.store(2);
    let snap = cell.load();
    assert_eq!(*snap, 2);
}

#[test]
fn update_uses_old_value() {
    let mut cell = RcuCell::new(10u32);
    cell.update(|old| old + 5);
    assert_eq!(*cell.load(), 15);
}

#[test]
fn snapshot_outlives_store() {
    let mut cell = RcuCell::new(vec![1u32, 2, 3]);
    let old_snap = cell.load();
    cell.store(vec![10, 20, 30]);
    assert_eq!(*old_snap, vec![1, 2, 3]);
    let new_snap = cell.load();
    assert_eq!(*new_snap, vec![10, 20, 30]);
}

#[test]
fn drop_with_live_snapshot() {
    let snap = {
        let cell = RcuCell::new(String::from("hello"));
        let s = cell.load();
        s
    };
    assert_eq!(*snap, "hello");
}

#[test]
fn repeated_updates_accumulate() {
    let mut cell = RcuCell::new(0u32);
    for _ in 0..100 {
        cell.update(|old| old + 1);
    }
    assert_eq!(*cell.load(), 100);
}

#[test]
fn load_after_store_sees_last_value() {
    let mut cell = RcuCell::new(0u64);
    for i in 1..=10u64 {
        cell.store(i);
        assert_eq!(*cell.load(), i);
    }
}
