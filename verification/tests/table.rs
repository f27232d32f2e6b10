use http_adapter::table::HandleTable;

#[test]
fn handles_are_handed_out_in_order() {
    let mut table: HandleTable<u8> = HandleTable::new();
    assert!(table.can_allocate());
    assert_eq!(table.allocate(), 0);
    assert_eq!(table.allocate(), 1);
    assert_eq!(table.allocate(), 2);
}

#[test]
fn allocated_handle_is_not_live_until_inserted() {
    let mut table: HandleTable<String> = HandleTable::new();
    let handle = table.allocate();
    assert!(!table.contains(handle));
    table.insert(handle, "value".to_string());
    assert!(table.contains(handle));
    assert_eq!(table.get(handle), "value");
}

#[test]
fn insert_replaces_what_a_live_handle_held() {
    let mut table: HandleTable<u32> = HandleTable::new();
    let handle = table.allocate();
    table.insert(handle, 5);
    table.insert(handle, 6);
    assert_eq!(*table.get(handle), 6);
}

#[test]
fn remove_returns_the_value_and_keeps_the_counter() {
    let mut table: HandleTable<(u32, u32)> = HandleTable::new();
    let first = table.allocate();
    table.insert(first, (1, 2));
    let second = table.allocate();
    table.insert(second, (3, 4));
    assert_eq!(table.remove(first), (1, 2));
    assert!(!table.contains(first));
    assert!(table.contains(second));
    assert_eq!(*table.get(second), (3, 4));
    let third = table.allocate();
    assert_eq!(third, 2);
    assert_ne!(third, first);
}

#[test]
fn tables_count_independently() {
    let mut left: HandleTable<u8> = HandleTable::new();
    let mut right: HandleTable<u8> = HandleTable::new();
    assert_eq!(left.allocate(), 0);
    assert_eq!(left.allocate(), 1);
    assert_eq!(right.allocate(), 0);
    assert!(!right.contains(1));
}
