use forward_markets::Table;

fn key(text: &str) -> String {
    text.to_string()
}

#[test]
fn table_starts_empty() {
    let table: Table<u128> = Table::new();
    assert_eq!(table.len(), 0);
    assert!(!table.contains_key(&key("a")));
    assert_eq!(table.get(&key("a")), None);
}

#[test]
fn table_insert_keeps_the_place_of_a_key_that_is_replaced() {
    let mut table: Table<u128> = Table::new();
    assert_eq!(table.insert(key("a"), 1), None);
    assert_eq!(table.insert(key("b"), 2), None);
    assert_eq!(table.insert(key("a"), 3), Some(1));
    assert_eq!(table.len(), 2);
    assert_eq!(table.key_at(0), "a");
    assert_eq!(table.key_at(1), "b");
    assert_eq!(*table.value_at(0), 3);
    assert_eq!(*table.value_at(1), 2);
    assert_eq!(table.get(&key("a")), Some(&3));
    assert_eq!(table.get(&key("b")), Some(&2));
}

#[test]
fn table_remove_keeps_the_order_of_the_other_keys() {
    let mut table: Table<u128> = Table::new();
    table.insert(key("a"), 1);
    table.insert(key("b"), 2);
    table.insert(key("c"), 3);
    assert_eq!(table.remove(&key("a")), Some(1));
    assert_eq!(table.remove(&key("a")), None);
    assert_eq!(table.len(), 2);
    assert_eq!(table.key_at(0), "b");
    assert_eq!(table.key_at(1), "c");
    assert!(!table.contains_key(&key("a")));
    assert!(table.contains_key(&key("c")));
}

#[test]
fn table_tells_keys_apart_by_their_characters() {
    let mut table: Table<bool> = Table::new();
    table.insert(key(""), true);
    table.insert(key("a:b"), false);
    assert_eq!(table.get(&key("")), Some(&true));
    assert_eq!(table.get(&key("a:b")), Some(&false));
    assert_eq!(table.get(&key("a:")), None);
}
