//! Tests of the C-string safety check behind the version boundary.

use freeciv_nostr::version::check_c_string_safe;

#[test]
fn plain_version_bytes_are_c_safe() {
    let bytes: Vec<u8> = b"0.1.0".to_vec();
    assert!(check_c_string_safe(&bytes));
    assert_eq!(bytes.len(), 5);
}

#[test]
fn empty_bytes_are_c_safe() {
    let bytes: Vec<u8> = Vec::new();
    assert!(check_c_string_safe(&bytes));
}

#[test]
fn interior_null_byte_is_rejected() {
    let bytes: Vec<u8> = vec![b'0', 0, b'1'];
    assert!(!check_c_string_safe(&bytes));
}

#[test]
fn trailing_null_byte_is_rejected() {
    let mut bytes: Vec<u8> = b"0.1.0".to_vec();
    bytes.push(0);
    assert!(!check_c_string_safe(&bytes));
}
