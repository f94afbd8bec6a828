use icondata::text::{optional_text_compare, optional_text_eq};
use std::cmp::Ordering;

#[test]
fn optional_texts_are_equal_when_both_are_absent_or_say_the_same() {
    assert!(optional_text_eq(None, None));
    assert!(optional_text_eq(Some("a"), Some("a")));
    assert!(optional_text_eq(Some(""), Some("")));
    assert!(!optional_text_eq(None, Some("")));
    assert!(!optional_text_eq(Some(""), None));
    assert!(!optional_text_eq(Some("a"), Some("b")));
    assert!(!optional_text_eq(Some("a"), Some("ab")));
}

#[test]
fn an_absent_text_comes_before_every_present_one() {
    assert_eq!(optional_text_compare(None, None), Ordering::Equal);
    assert_eq!(optional_text_compare(None, Some("")), Ordering::Less);
    assert_eq!(optional_text_compare(Some(""), None), Ordering::Greater);
}

#[test]
fn present_texts_are_ordered_by_code_point() {
    assert_eq!(optional_text_compare(Some("a"), Some("b")), Ordering::Less);
    assert_eq!(optional_text_compare(Some("b"), Some("a")), Ordering::Greater);
    assert_eq!(optional_text_compare(Some("a"), Some("a")), Ordering::Equal);
    assert_eq!(optional_text_compare(Some("a"), Some("ab")), Ordering::Less);
    assert_eq!(optional_text_compare(Some("10"), Some("9")), Ordering::Less);
    assert_eq!(optional_text_compare(Some("Z"), Some("a")), Ordering::Less);
    assert_eq!(optional_text_compare(Some("\u{ffff}"), Some("\u{10000}")), Ordering::Less);
    assert_eq!(optional_text_compare(Some("\u{e9}"), Some("z")), Ordering::Greater);
}
