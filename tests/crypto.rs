use saltyrtc_core::codec::{decode, encode, open_frame, seal_frame, CodecError, Envelope, MessageType, ReceiveError};
use saltyrtc_core::crypto::{key_from_slice, CryptoError, KeyPair, TAG_LEN};
use saltyrtc_core::nonce::{Nonce, NonceError, NonceTracker};

fn nonce(c: u8, sequence: u32) -> Nonce {
    Nonce { cookie: [c; 16], source: 1, destination: 2, overflow: 0, sequence }
}

#[test]
fn key_length_is_checked() {
    assert_eq!(key_from_slice(&[1u8; 31]), Err(CryptoError::BadKeyLength));
    assert_eq!(key_from_slice(&[1u8; 33]), Err(CryptoError::BadKeyLength));
    assert_eq!(key_from_slice(&[1u8; 32]), Ok([1u8; 32]));
}

#[test]
fn key_pair_from_secret_is_deterministic() {
    let a = KeyPair::from_secret_bytes([5u8; 32]);
    let b = KeyPair::from_secret_bytes([5u8; 32]);
    let c = KeyPair::from_secret_bytes([6u8; 32]);
    assert_eq!(a.public_key(), b.public_key());
    assert_ne!(a.public_key(), c.public_key());
    assert_ne!(a.public_key(), [5u8; 32]);
}

#[test]
fn sealed_payload_opens_with_the_peer_key() {
    let a = KeyPair::new();
    let b = KeyPair::new();
    let n = [3u8; 24];
    let c = a.seal(&b.public_key(), &n, b"payload");
    assert_eq!(c.len(), 7 + TAG_LEN);
    assert_ne!(&c[TAG_LEN..], b"payload");
    assert_eq!(b.open(&a.public_key(), &n, &c), Ok(b"payload".to_vec()));
    let other = KeyPair::new();
    assert_eq!(other.open(&a.public_key(), &n, &c), Err(CryptoError::DecryptionFailed));
    assert_eq!(b.open(&a.public_key(), &[4u8; 24], &c), Err(CryptoError::DecryptionFailed));
    assert_eq!(b.open(&a.public_key(), &n, &c[..TAG_LEN - 1]), Err(CryptoError::DecryptionFailed));
}

#[test]
fn sealed_frame_round_trip() {
    let initiator = KeyPair::new();
    let responder = KeyPair::new();
    let e = Envelope { nonce: nonce(9, 1), message_type: MessageType::Application, body: b"hi there".to_vec() };
    let f = seal_frame(&e, &initiator, &responder.public_key());
    assert_eq!(f.len(), 24 + 1 + 8 + TAG_LEN);
    assert_eq!(&f[..24], &encode(&e)[..24]);
    assert!(decode(&f).is_err() || decode(&f).unwrap().body != e.body);

    let mut t = NonceTracker::new([7u8; 16], 0);
    let d = open_frame(&f, &mut t, &responder, &initiator.public_key()).unwrap();
    assert_eq!(d.nonce, e.nonce);
    assert_eq!(d.message_type, e.message_type);
    assert_eq!(d.body, e.body);
    assert_eq!(t.remote_cookie, Some([9u8; 16]));
    assert_eq!(
        open_frame(&f, &mut t, &responder, &initiator.public_key()).err(),
        Some(ReceiveError::Nonce(NonceError::SequenceNotIncreasing))
    );
}

#[test]
fn sealed_frame_tampered_fails_without_touching_tracker() {
    let a = KeyPair::new();
    let b = KeyPair::new();
    let e = Envelope { nonce: nonce(9, 1), message_type: MessageType::Key, body: vec![1, 2, 3] };
    let mut f = seal_frame(&e, &a, &b.public_key());
    let last = f.len() - 1;
    f[last] ^= 1;
    let mut t = NonceTracker::new([7u8; 16], 0);
    assert_eq!(
        open_frame(&f, &mut t, &b, &a.public_key()).err(),
        Some(ReceiveError::Crypto(CryptoError::DecryptionFailed))
    );
    assert_eq!(t.remote_cookie, None);
}

#[test]
fn sealed_frame_short_of_nonce_is_truncated() {
    let a = KeyPair::new();
    let mut t = NonceTracker::new([7u8; 16], 0);
    assert_eq!(
        open_frame(&[1u8; 23], &mut t, &a, &a.public_key()).err(),
        Some(ReceiveError::Codec(CodecError::Truncated))
    );
    assert_eq!(
        open_frame(&[1u8; 30], &mut t, &a, &a.public_key()).err(),
        Some(ReceiveError::Crypto(CryptoError::DecryptionFailed))
    );
}

use saltyrtc_core::crypto::{AuthToken, TokenError};

#[test]
fn auth_token_opens_once() {
    let initiator_side = AuthToken::new();
    let mut responder_side = AuthToken::from_bytes(initiator_side.to_bytes());
    let n = [8u8; 24];
    let c = initiator_side.seal(&n, b"token");
    assert_eq!(c.len(), 5 + TAG_LEN);
    assert_eq!(responder_side.open(&n, &c), Ok(b"token".to_vec()));
    assert_eq!(responder_side.open(&n, &c), Err(TokenError::AlreadyUsed));
}

#[test]
fn auth_token_wrong_key_does_not_spend_it() {
    let a = AuthToken::from_bytes([1u8; 32]);
    let mut b = AuthToken::from_bytes([2u8; 32]);
    let n = [8u8; 24];
    let c = a.seal(&n, b"token");
    assert_eq!(b.open(&n, &c), Err(TokenError::DecryptionFailed));
    assert_eq!(b.open(&n, &[0u8; 3]), Err(TokenError::DecryptionFailed));
    let mut a2 = AuthToken::from_bytes([1u8; 32]);
    assert_eq!(a2.open(&n, &c), Ok(b"token".to_vec()));
    assert_ne!(AuthToken::new().to_bytes(), AuthToken::new().to_bytes());
}
