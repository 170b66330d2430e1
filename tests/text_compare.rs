use kube_client_core::text::{contains_text, eq_ignore_ascii_case, same_text};

#[test]
fn exact_comparison() {
    assert!(same_text("abc", "abc"));
    assert!(!same_text("abc", "abC"));
    assert!(!same_text("abc", "ab"));
    assert!(same_text("", ""));
}

#[test]
fn caseless_comparison() {
    assert!(eq_ignore_ascii_case("WebSocket", "websocket"));
    assert!(eq_ignore_ascii_case("UPGRADE", "upgrade"));
    assert!(!eq_ignore_ascii_case("upgrade!", "upgrade"));
    assert!(!eq_ignore_ascii_case("É", "é"));
    assert!(!eq_ignore_ascii_case("[", "{"));
}

#[test]
fn substring_search() {
    assert!(contains_text("hello world", "o w"));
    assert!(contains_text("hello", ""));
    assert!(contains_text("hello", "hello"));
    assert!(!contains_text("hello", "hello!"));
    assert!(!contains_text("hello", "wor"));
}
