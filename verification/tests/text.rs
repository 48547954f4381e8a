//! Texts, tables and orders.

use openlogi_desktop::order::sorted_positions;
use openlogi_desktop::table::Table;
use openlogi_desktop::text::{
    contains, decimal_text, ends_with, parse_small_number, push_hex, same_ignoring_case,
    starts_with, text_not_after, text_of,
};

#[test]
fn numbers_are_written_and_read() {
    assert_eq!(decimal_text(0), "0");
    assert_eq!(decimal_text(18_446_744_073_709_551_615), "18446744073709551615");
    let mut text = String::new();
    push_hex(&mut text, 0xb034, 4);
    push_hex(&mut text, 1, 2);
    assert_eq!(text, "b03401");
    assert_eq!(parse_small_number("42"), Some(42));
    assert_eq!(parse_small_number("256"), None);
    assert_eq!(parse_small_number(""), None);
    assert_eq!(parse_small_number("4x"), None);
}

#[test]
fn parts_of_texts_are_found() {
    assert!(starts_with("glow-1.png", "glow-") && !starts_with("glow", "glow-"));
    assert!(ends_with("a.png", ".png") && !ends_with("png", ".png"));
    assert!(contains("abcde", "cd") && !contains("abcde", "dc"));
    assert!(same_ignoring_case("MX Master 3S", "mx master 3s"));
    assert_eq!(text_of(&"h\u{e9}llo".chars().collect(), 1, 3), "\u{e9}l");
}

#[test]
fn texts_are_ordered_character_by_character() {
    assert!(text_not_after("a", "ab") && !text_not_after("b", "ab"));
    assert!(text_not_after("", ""));
    let keys = vec!["b".to_string(), "a".to_string(), "b".to_string(), "".to_string()];
    assert_eq!(sorted_positions(&keys), [3, 1, 0, 2]);
}

#[test]
fn tables_keep_their_keys_in_order() {
    let mut table = Table::new();
    table.insert("b", 1);
    table.insert("a", 2);
    table.insert("b", 3);
    assert_eq!(table.len(), 2);
    assert_eq!(table.entry(0), ("a", &2));
    assert_eq!(table.get("b"), Some(&3));
    assert_eq!(table.remove("a"), Some(2));
    assert!(!table.contains_key("a"));
    table.insert("c", 4);
    table.retain_keys(&vec!["c".to_string()]);
    assert_eq!(table.into_entries(), [("c".to_string(), 4)]);
}
