use shareshot::text::{chars_of, decimal_text, same_text};

#[test]
fn chars_of_lists_characters_not_bytes() {
    assert_eq!(chars_of(""), Vec::<char>::new());
    assert_eq!(chars_of("a.b"), vec!['a', '.', 'b']);
    assert_eq!(chars_of("\u{e9}\u{1F600}"), vec!['\u{e9}', '\u{1F600}']);
}

#[test]
fn same_text_compares_whole_texts() {
    assert!(same_text("", ""));
    assert!(same_text("abc", "abc"));
    assert!(!same_text("abc", "abd"));
    assert!(!same_text("abc", "ab"));
    assert!(!same_text("ab", "abc"));
    assert!(!same_text("a", "A"));
    assert!(same_text("\u{e9}", "\u{e9}"));
}

#[test]
fn decimal_text_writes_numbers_without_leading_zeros() {
    assert_eq!(decimal_text(0), "0");
    assert_eq!(decimal_text(7), "7");
    assert_eq!(decimal_text(10), "10");
    assert_eq!(decimal_text(204), "204");
    assert_eq!(decimal_text(404), "404");
    assert_eq!(decimal_text(1000), "1000");
    assert_eq!(decimal_text(u16::MAX), "65535");
    for number in [1u16, 9, 11, 99, 100, 101, 299, 500, 12345, 60000] {
        assert_eq!(decimal_text(number), number.to_string());
    }
}
