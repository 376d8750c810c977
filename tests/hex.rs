use saltyrtc_core::crypto::KeyPair;
use saltyrtc_core::hex::{from_hex, to_hex};

#[test]
fn hex_is_lower_case_two_digits_per_byte() {
    assert_eq!(to_hex(&[0x00, 0x0f, 0xa5, 0xff]), b"000fa5ff".to_vec());
    assert_eq!(to_hex(&[]), Vec::<u8>::new());
}

#[test]
fn hex_decodes() {
    assert_eq!(from_hex(b"000fa5ff"), Some(vec![0x00, 0x0f, 0xa5, 0xff]));
    assert_eq!(from_hex(b""), Some(vec![]));
}

#[test]
fn hex_rejects_bad_text() {
    assert_eq!(from_hex(b"abc"), None);
    assert_eq!(from_hex(b"0G"), None);
    assert_eq!(from_hex(b"AB"), None);
}

#[test]
fn public_key_path_is_64_hex_characters() {
    let k = KeyPair::from_secret_bytes([9u8; 32]);
    let path = to_hex(&k.public_key());
    assert_eq!(path.len(), 64);
    assert!(path.iter().all(|c| c.is_ascii_digit() || (b'a'..=b'f').contains(c)));
    assert_eq!(from_hex(&path), Some(k.public_key().to_vec()));
}
