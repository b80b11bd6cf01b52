use browser_history::text::{owned_text, same_text, starts_with};

#[test]
fn starts_with_accepts_a_prefix() {
    assert!(starts_with("Install4F96D1932A9F858E", "Install"));
    assert!(starts_with("Install", "Install"));
    assert!(starts_with("anything", ""));
}

#[test]
fn starts_with_rejects_what_is_no_prefix() {
    assert!(!starts_with("Profile0", "Install"));
    assert!(!starts_with("Inst", "Install"));
    assert!(!starts_with("install", "Install"));
    assert!(!starts_with("", "I"));
}

#[test]
fn starts_with_counts_characters_not_bytes() {
    assert!(starts_with("äöü", "ä"));
    assert!(!starts_with("äöü", "a"));
}

#[test]
fn same_text_compares_every_character() {
    assert!(same_text("Crash Reports", "Crash Reports"));
    assert!(!same_text("Crash Reports", "Crash Report"));
    assert!(!same_text("Crash Reports", "Crash reports"));
    assert!(same_text("", ""));
    assert!(!same_text("", "x"));
}

#[test]
fn owned_text_copies_what_is_there() {
    assert_eq!(owned_text(Some("abc")), Some("abc".to_string()));
    assert_eq!(owned_text(None), None);
}
