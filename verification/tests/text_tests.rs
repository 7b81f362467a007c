use restream::text::{copy_text, joined, same_text};

#[test]
fn same_text_compares_whole_texts() {
    assert!(same_text("", ""));
    assert!(same_text("abc", "abc"));
    assert!(!same_text("abc", "abd"));
    assert!(!same_text("abc", "ab"));
    assert!(!same_text("abc", "ABC"));
    assert!(same_text("héllo", "héllo"));
    assert!(!same_text("héllo", "hello"));
}

#[test]
fn joined_puts_the_tail_after_the_head() {
    assert_eq!(joined("", ""), "");
    assert_eq!(joined("a", ""), "a");
    assert_eq!(joined("", "b"), "b");
    assert_eq!(joined("Bearer ", "token"), "Bearer token");
    assert_eq!(joined("é", "ü"), "éü");
}

#[test]
fn copy_text_keeps_what_is_there() {
    assert_eq!(copy_text(&None), None);
    assert_eq!(copy_text(&Some("x".to_string())), Some("x".to_string()));
    assert_eq!(copy_text(&Some(String::new())), Some(String::new()));
}
