use external_control::text::{begins_with, concat3, decimal_i64, decimal_u64, join, same_text, trim};

#[test]
fn numbers_are_written_in_decimal() {
    assert_eq!(decimal_u64(0), "0");
    assert_eq!(decimal_u64(9), "9");
    assert_eq!(decimal_u64(1234567890), "1234567890");
    assert_eq!(decimal_u64(u64::MAX), "18446744073709551615");
    assert_eq!(decimal_i64(42), "42");
    assert_eq!(decimal_i64(-1), "-1");
    assert_eq!(decimal_i64(-10), "-10");
    assert_eq!(decimal_i64(i64::MIN), "-9223372036854775808");
    assert_eq!(decimal_i64(i64::MAX), "9223372036854775807");
}

#[test]
fn texts_are_compared_by_their_characters() {
    assert!(same_text("", ""));
    assert!(same_text("a\u{e9}", "a\u{e9}"));
    assert!(!same_text("a", "A"));
    assert!(!same_text("a", "ab"));
}

#[test]
fn prefixes_are_recognized() {
    assert!(begins_with("acceptForSession", "accept"));
    assert!(begins_with("accept", "accept"));
    assert!(!begins_with("acc", "accept"));
    assert!(!begins_with("Accept", "accept"));
    assert!(begins_with("\u{e9}x", "\u{e9}"));
    assert!(begins_with("x", ""));
}

#[test]
fn parts_are_joined() {
    assert_eq!(join(&vec![], "\n"), "");
    assert_eq!(join(&vec!["a".to_string()], "\n"), "a");
    assert_eq!(join(&vec!["a".to_string(), String::new(), "b".to_string()], ", "), "a, , b");
    assert_eq!(concat3("a", "b", "c"), "abc");
}

#[test]
fn white_space_goes_from_both_ends() {
    assert_eq!(trim(""), "");
    assert_eq!(trim(" \t\r\n\u{b}\u{c}"), "");
    assert_eq!(trim("a"), "a");
    assert_eq!(trim(" a b\t"), "a b");
    assert_eq!(trim("\u{a0}\u{1680}\u{2003}x\u{200b}\u{2028}\u{3000}"), "x\u{200b}");
    for n in 0..0x11000u32 {
        if let Some(c) = char::from_u32(n) {
            let text = format!("{c}\u{e9}{c}");
            assert_eq!(trim(&text), text.trim());
        }
    }
}
