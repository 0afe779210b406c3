use api::greeting;
use api::todo::todo_value_ok;

#[test]
fn greeting_text() {
    assert_eq!(greeting(), "Hello World!");
}

#[test]
fn todo_value_length_boundary() {
    let at_limit = "x".repeat(140);
    assert!(todo_value_ok(&at_limit));
    let over_limit = "x".repeat(141);
    assert!(!todo_value_ok(&over_limit));
}

#[test]
fn todo_value_counts_bytes_not_characters() {
    // Each 'é' is two bytes in UTF-8: seventy of them sit exactly at the
    // limit, seventy-one are over it though only 71 characters long.
    let at_limit = "\u{e9}".repeat(70);
    assert!(todo_value_ok(&at_limit));
    let over_limit = "\u{e9}".repeat(71);
    assert!(!todo_value_ok(&over_limit));
}

#[test]
fn empty_todo_value_is_accepted() {
    assert!(todo_value_ok(""));
}
