use session_service::clock::add_seconds;
use session_service::text::{contains_text, copy_texts};

#[test]
fn list_is_searched_letter_for_letter() {
    let list = vec!["john@doe.com".to_string(), "".to_string(), "JANE@doe.com".to_string()];
    assert!(contains_text(&list, "john@doe.com"));
    assert!(contains_text(&list, ""));
    assert!(contains_text(&list, "JANE@doe.com"));
    assert!(!contains_text(&list, "jane@doe.com"));
    assert!(!contains_text(&list, "john@doe.co"));
    assert!(!contains_text(&list, " john@doe.com"));
    assert!(!contains_text(&vec![], "john@doe.com"));
    assert!(!contains_text(&vec![], ""));
}

#[test]
fn list_is_copied_in_order() {
    let list = vec!["b".to_string(), "a".to_string(), "b".to_string()];
    assert_eq!(copy_texts(&list), list);
    assert_eq!(copy_texts(&vec![]), Vec::<String>::new());
}

#[test]
fn seconds_are_added_within_the_range() {
    assert_eq!(add_seconds(1_000, 60), 1_060);
    assert_eq!(add_seconds(1_000, -60), 940);
    assert_eq!(add_seconds(-5, 5), 0);
    assert_eq!(add_seconds(i64::MAX, 1), i64::MAX);
    assert_eq!(add_seconds(i64::MAX - 1, 1), i64::MAX);
    assert_eq!(add_seconds(i64::MIN, -1), i64::MIN);
    assert_eq!(add_seconds(i64::MAX, i64::MIN), -1);
    assert_eq!(add_seconds(i64::MIN, i64::MIN), i64::MIN);
    assert_eq!(add_seconds(i64::MAX, i64::MAX), i64::MAX);
}
