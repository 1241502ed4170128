use saber::text::{join, same_text};
use saber::wire::{append, to_array};

#[test]
fn same_text_compares_every_byte() {
    assert!(same_text("", ""));
    assert!(same_text("node-1", "node-1"));
    assert!(!same_text("node-1", "node-2"));
    assert!(!same_text("node-1", "node-10"));
    assert!(!same_text("node", ""));
    assert!(!same_text("Node", "node"));
    assert!(same_text("nœud", "nœud"));
    assert!(!same_text("nœud", "noeud"));
    assert!(!same_text("é", "e\u{301}"));
}

#[test]
fn join_puts_head_before_tail() {
    assert_eq!(join("Unknown node: ", "n7"), "Unknown node: n7");
    assert_eq!(join("", "tail"), "tail");
    assert_eq!(join("head", ""), "head");
    assert_eq!(join("", ""), "");
}

#[test]
fn append_extends_the_buffer() {
    let mut out = vec![1u8, 2];
    append(&mut out, &[3, 4, 5]);
    assert_eq!(out, vec![1, 2, 3, 4, 5]);
    append(&mut out, &[]);
    assert_eq!(out, vec![1, 2, 3, 4, 5]);
}

#[test]
fn to_array_copies_each_byte() {
    let bytes = [9u8, 8, 7, 6];
    let array: [u8; 4] = to_array::<4>(&bytes);
    assert_eq!(array, [9, 8, 7, 6]);
    let empty: [u8; 0] = to_array::<0>(&[]);
    assert_eq!(empty.len(), 0);
}
