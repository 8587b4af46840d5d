use bixat_key_mouse::keys::{key_by_name, same_text, Key};

#[test]
fn same_text_compares_characters() {
    assert!(same_text("", ""));
    assert!(same_text("Shift", "Shift"));
    assert!(!same_text("Shift", "shift"));
    assert!(!same_text("Shift", "Shif"));
    assert!(!same_text("", "a"));
    assert!(same_text("héllo", "héllo"));
    assert!(!same_text("héllo", "hello"));
}

#[test]
fn key_names() {
    assert_eq!(key_by_name("Control"), Some(Key::Control));
    assert_eq!(key_by_name("Shift"), Some(Key::Shift));
    assert_eq!(key_by_name("Alt"), Some(Key::Alt));
    assert_eq!(key_by_name("Meta"), Some(Key::Meta));
    assert_eq!(key_by_name("Delete"), Some(Key::Delete));
    assert_eq!(key_by_name("CapsLock"), Some(Key::CapsLock));
}

#[test]
fn unknown_key_names() {
    assert_eq!(key_by_name(""), None);
    assert_eq!(key_by_name("control"), None);
    assert_eq!(key_by_name("Control "), None);
    assert_eq!(key_by_name("Enter"), None);
}
