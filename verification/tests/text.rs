use greener_reporter::text::chars_of;
use greener_reporter::text::join;
use greener_reporter::text::join3;
use greener_reporter::text::decimal_text;
use greener_reporter::text::same;

#[test]
fn text_concat_joins() {
    assert_eq!(join("ab", "cd"), "abcd");
    assert_eq!(join("", ""), "");
    assert_eq!(join3("a", "é", "c"), "aéc");
}

#[test]
fn text_same_compares() {
    assert!(same("pass", "pass"));
    assert!(!same("pass", "pas"));
    assert!(same("", ""));
}

#[test]
fn text_decimal_of_numbers() {
    assert_eq!(decimal_text(0), "0");
    assert_eq!(decimal_text(7), "7");
    assert_eq!(decimal_text(10), "10");
    assert_eq!(decimal_text(404), "404");
    assert_eq!(decimal_text(65535), "65535");
}

#[test]
fn text_chars_in_order() {
    assert_eq!(chars_of("aé=b"), vec!['a', 'é', '=', 'b']);
    assert_eq!(chars_of(""), Vec::<char>::new());
}
