use libinput_rs::text::{c_string_bytes, c_string_checked, str_contains};

#[test]
fn substring_search() {
    assert!(str_contains("libinput-rs Virtual Pointer", "libinput-rs"));
    assert!(str_contains("abc", ""));
    assert!(str_contains("abc", "abc"));
    assert!(!str_contains("ab", "abc"));
    assert!(!str_contains("Virtual Pointer", "virtual pointer"));
    assert!(str_contains("größe", "öß"));
}

#[test]
fn c_strings() {
    assert_eq!(c_string_bytes("ab"), b"ab\0".to_vec());
    assert_eq!(c_string_bytes(""), b"\0".to_vec());
    assert_eq!(c_string_checked("x\0y"), None);
    assert_eq!(c_string_checked("xy"), Some(b"xy\0".to_vec()));
}
