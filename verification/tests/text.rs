use sqlast::text::{decimal_string, join_strings, push_decimal, same_text};
use sqlast::{comma_separated_string, ParserError};

fn strings(items: &[&str]) -> Vec<String> {
    items.iter().map(|s| s.to_string()).collect()
}

#[test]
fn comma_separated_string_of_nothing_is_empty() {
    assert_eq!(comma_separated_string(&strings(&[])), "");
}

#[test]
fn comma_separated_string_of_one_item_has_no_separator() {
    assert_eq!(comma_separated_string(&strings(&["a"])), "a");
}

#[test]
fn comma_separated_string_puts_separator_between_items_only() {
    assert_eq!(comma_separated_string(&strings(&["a", "b", "c"])), "a, b, c");
}

#[test]
fn comma_separated_string_keeps_empty_items() {
    assert_eq!(comma_separated_string(&strings(&["", "b", ""])), ", b, ");
}

#[test]
fn join_strings_uses_the_given_separator() {
    assert_eq!(join_strings(&strings(&["db", "schema", "t"]), "."), "db.schema.t");
    assert_eq!(join_strings(&strings(&["a", "b"]), ""), "ab");
    assert_eq!(join_strings(&strings(&[]), "."), "");
}

#[test]
fn join_length_counts_one_separator_fewer_than_items() {
    let items = strings(&["ab", "c", "def"]);
    let joined = join_strings(&items, "--");
    assert_eq!(joined.len(), 2 + 1 + 3 + 2 * 2);
    assert!(joined.starts_with("ab"));
    assert!(joined.ends_with("def"));
}

#[test]
fn decimal_string_of_single_digits() {
    assert_eq!(decimal_string(0), "0");
    assert_eq!(decimal_string(7), "7");
    assert_eq!(decimal_string(9), "9");
}

#[test]
fn decimal_string_of_several_digits() {
    assert_eq!(decimal_string(10), "10");
    assert_eq!(decimal_string(12345), "12345");
    assert_eq!(decimal_string(1000000), "1000000");
}

#[test]
fn decimal_string_of_largest_number() {
    assert_eq!(decimal_string(u64::MAX), "18446744073709551615");
}

#[test]
fn decimal_string_agrees_with_std() {
    for n in [0u64, 1, 9, 10, 11, 99, 100, 101, 4096, 65535, 999999999, 1 << 40] {
        assert_eq!(decimal_string(n), n.to_string());
    }
}

#[test]
fn push_decimal_appends_to_what_is_there() {
    let mut out = String::from("n=");
    push_decimal(&mut out, 42);
    assert_eq!(out, "n=42");
}

#[test]
fn same_text_compares_exactly() {
    assert!(same_text("ROWS", "ROWS"));
    assert!(!same_text("rows", "ROWS"));
    assert!(!same_text("ROWS ", "ROWS"));
    assert!(same_text("", ""));
}

#[test]
fn parser_error_to_string_is_its_message() {
    let e = ParserError::ParserError("Unexpected file format: CSV".to_string());
    assert_eq!(e.to_string(), "Unexpected file format: CSV");
}

#[test]
fn clone_of_a_parser_error_is_equal() {
    let e = ParserError::ParserError("Unexpected file format: CSV".to_string());
    assert_eq!(e.clone(), e);
}
