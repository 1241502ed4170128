use saber::registry::Registry;

#[test]
fn empty_registry_finds_nothing() {
    let table: Registry<u32> = Registry::new();
    assert_eq!(table.len(), 0);
    assert_eq!(table.get("a"), None);
    assert_eq!(table.position("a"), None);
    assert_eq!(table.get(""), None);
}

#[test]
fn insert_appends_new_keys_and_replaces_known_ones() {
    let mut table: Registry<u32> = Registry::new();
    table.insert("b".to_string(), 2);
    table.insert("a".to_string(), 1);
    table.insert("c".to_string(), 3);
    assert_eq!(table.len(), 3);
    assert_eq!(table.position("b"), Some(0));
    assert_eq!(table.position("a"), Some(1));
    assert_eq!(table.position("c"), Some(2));

    table.insert("a".to_string(), 10);
    assert_eq!(table.len(), 3);
    assert_eq!(table.position("a"), Some(1));
    assert_eq!(table.get("a"), Some(&10));
    assert_eq!(table.get("b"), Some(&2));
    assert_eq!(table.get("c"), Some(&3));
    assert_eq!(table.get("d"), None);
    assert_eq!(*table.value_at(0), 2);
    assert_eq!(*table.value_at(1), 10);
    assert_eq!(*table.value_at(2), 3);
}

#[test]
fn keys_are_told_apart_exactly() {
    let mut table: Registry<u8> = Registry::new();
    table.insert("node".to_string(), 1);
    table.insert("Node".to_string(), 2);
    table.insert("node ".to_string(), 3);
    table.insert("".to_string(), 4);
    table.insert("nœud".to_string(), 5);
    assert_eq!(table.len(), 5);
    assert_eq!(table.get("node"), Some(&1));
    assert_eq!(table.get("Node"), Some(&2));
    assert_eq!(table.get("node "), Some(&3));
    assert_eq!(table.get(""), Some(&4));
    assert_eq!(table.get("nœud"), Some(&5));
    assert_eq!(table.get("nod"), None);
    assert_eq!(table.get("noeud"), None);
}

#[test]
fn set_value_at_keeps_the_key() {
    let mut table: Registry<u32> = Registry::new();
    table.insert("a".to_string(), 1);
    table.insert("b".to_string(), 2);
    table.set_value_at(0, 7);
    assert_eq!(table.get("a"), Some(&7));
    assert_eq!(table.get("b"), Some(&2));
    assert_eq!(table.position("a"), Some(0));
    assert_eq!(table.len(), 2);
}
