use saltyrtc_core::codec::{decode, encode, receive, CodecError, Envelope, MessageType, ReceiveError};
use saltyrtc_core::crypto::KeyPair;
use saltyrtc_core::negotiation::{negotiate, NegotiationError};
use saltyrtc_core::nonce::{Nonce, NonceError, NonceTracker, MAX_CSN};
use saltyrtc_core::state::{
    initiator_opening_step, responder_opening_step, InitiatorHandshakeState, PeerEvent,
    ResponderHandshakeState, ServerHandshakeState, ServerMessage, SignalingState, StateError,
};

fn cookie(b: u8) -> [u8; 16] {
    [b; 16]
}

fn nonce(c: u8, overflow: u16, sequence: u32) -> Nonce {
    Nonce { cookie: cookie(c), source: 1, destination: 2, overflow, sequence }
}

fn names(list: &[&str]) -> Vec<Vec<u8>> {
    list.iter().map(|s| s.as_bytes().to_vec()).collect()
}

#[test]
fn server_handshake_in_order_reaches_done() {
    let s = ServerHandshakeState::New.advance(ServerMessage::ClientInfo);
    assert_eq!(s, ServerHandshakeState::ClientInfoSent);
    assert_eq!(s.advance(ServerMessage::ServerAuth), ServerHandshakeState::Done);
}

#[test]
fn server_handshake_out_of_order_fails_for_good() {
    let s = ServerHandshakeState::New.advance(ServerMessage::ServerAuth);
    assert!(matches!(s, ServerHandshakeState::Failure(_)));
    let s = s.run(&vec![ServerMessage::ClientInfo, ServerMessage::ServerAuth]);
    assert!(matches!(s, ServerHandshakeState::Failure(_)));

    let s = ServerHandshakeState::New
        .run(&vec![ServerMessage::ClientInfo, ServerMessage::ClientInfo, ServerMessage::ServerAuth]);
    assert!(matches!(s, ServerHandshakeState::Failure(_)));

    let s = ServerHandshakeState::Done.advance(ServerMessage::ServerAuth);
    assert!(matches!(s, ServerHandshakeState::Failure(_)));
}

#[test]
fn server_failure_keeps_its_reason() {
    let s = ServerHandshakeState::Failure("bad".to_string()).advance(ServerMessage::ClientInfo);
    assert_eq!(s, ServerHandshakeState::Failure("bad".to_string()));
}

#[test]
fn outgoing_nonces_increase() {
    let mut t = NonceTracker::new(cookie(7), 5);
    let a = t.next_outgoing(1, 2).unwrap();
    let b = t.next_outgoing(1, 2).unwrap();
    assert_eq!(a, nonce(7, 0, 5));
    assert_eq!(b, nonce(7, 0, 6));
}

#[test]
fn outgoing_sequence_carries_into_overflow() {
    let mut t = NonceTracker::new(cookie(7), u32::MAX);
    let a = t.next_outgoing(1, 2).unwrap();
    let b = t.next_outgoing(1, 2).unwrap();
    assert_eq!((a.overflow, a.sequence), (0, u32::MAX));
    assert_eq!((b.overflow, b.sequence), (1, 0));
}

#[test]
fn outgoing_exhausted() {
    let mut t = NonceTracker::new(cookie(7), 0);
    t.next_csn = MAX_CSN;
    let last = t.next_outgoing(1, 2).unwrap();
    assert_eq!((last.overflow, last.sequence), (u16::MAX, u32::MAX));
    assert_eq!(t.next_outgoing(1, 2), Err(NonceError::Exhausted));
    assert_eq!(t.next_csn, MAX_CSN + 1);
}

#[test]
fn replayed_nonce_is_refused() {
    let mut t = NonceTracker::new(cookie(7), 0);
    assert_eq!(t.validate_incoming(&nonce(9, 0, 10)), Ok(()));
    assert_eq!(t.validate_incoming(&nonce(9, 0, 10)), Err(NonceError::SequenceNotIncreasing));
    assert_eq!(t.validate_incoming(&nonce(9, 0, 3)), Err(NonceError::SequenceNotIncreasing));
    assert_eq!(t.validate_incoming(&nonce(9, 0, 11)), Ok(()));
    assert_eq!(t.validate_incoming(&nonce(9, 1, 0)), Ok(()));
    assert_eq!(t.last_incoming, Some(1u64 << 32));
}

#[test]
fn cookie_mismatch_after_first_message() {
    let mut t = NonceTracker::new(cookie(7), 0);
    assert_eq!(t.validate_incoming(&nonce(9, 0, 1)), Ok(()));
    assert_eq!(t.remote_cookie, Some(cookie(9)));
    assert_eq!(t.validate_incoming(&nonce(8, 0, 2)), Err(NonceError::CookieMismatch));
}

#[test]
fn reflected_cookie_is_refused() {
    let mut t = NonceTracker::new(cookie(7), 0);
    assert_eq!(t.validate_incoming(&nonce(7, 0, 1)), Err(NonceError::Reflection));
    assert_eq!(t.remote_cookie, None);
}

#[test]
fn echoed_cookie_confirmed_once() {
    let mut t = NonceTracker::new(cookie(7), 0);
    assert_eq!(t.confirm_cookie(&cookie(8)), Err(NonceError::CookieMismatch));
    assert_eq!(t.confirm_cookie(&cookie(7)), Ok(()));
    assert!(t.cookie_confirmed);
    assert_eq!(t.confirm_cookie(&cookie(7)), Err(NonceError::CookieMismatch));
    assert_eq!(t.validate_incoming(&nonce(7, 0, 1)), Err(NonceError::Reflection));
}

#[test]
fn frame_layout() {
    let e = Envelope { nonce: nonce(3, 0x0102, 0x0a0b0c0d), message_type: MessageType::Key, body: vec![0xee, 0xff] };
    let f = encode(&e);
    let mut expected = vec![3u8; 16];
    expected.extend_from_slice(&[1, 2, 0x01, 0x02, 0x0a, 0x0b, 0x0c, 0x0d, 6, 0xee, 0xff]);
    assert_eq!(f, expected);
}

#[test]
fn frame_round_trip() {
    let e = Envelope { nonce: nonce(3, 9, 77), message_type: MessageType::Application, body: b"hello".to_vec() };
    let d = decode(&encode(&e)).unwrap();
    assert_eq!(d.nonce, e.nonce);
    assert_eq!(d.message_type, e.message_type);
    assert_eq!(d.body, e.body);

    let empty = Envelope { nonce: nonce(4, 0, 0), message_type: MessageType::Auth, body: vec![] };
    let d = decode(&encode(&empty)).unwrap();
    assert_eq!(d.nonce, empty.nonce);
    assert_eq!(d.message_type, MessageType::Auth);
    assert!(d.body.is_empty());

    let hello = Envelope { nonce: nonce(4, 0, 1), message_type: MessageType::ClientHello, body: vec![7; 32] };
    let d = decode(&encode(&hello)).unwrap();
    assert_eq!(d.message_type, MessageType::ClientHello);
    assert_eq!(d.body, vec![7; 32]);
}

#[test]
fn frame_one_byte_short_of_nonce_is_truncated() {
    assert_eq!(decode(&[0u8; 23]).err(), Some(CodecError::Truncated));
    assert_eq!(decode(&[]).err(), Some(CodecError::Truncated));
    let mut t = NonceTracker::new(cookie(7), 0);
    assert_eq!(receive(&[9u8; 23], &mut t).err(), Some(ReceiveError::Codec(CodecError::Truncated)));
    assert_eq!(t.last_incoming, None);
    assert_eq!(t.remote_cookie, None);
}

#[test]
fn frame_without_tag_is_malformed() {
    assert_eq!(decode(&[0u8; 24]).err(), Some(CodecError::MalformedPayload));
}

#[test]
fn frame_with_unknown_tag() {
    let mut f = vec![0u8; 24];
    f.push(0);
    assert_eq!(decode(&f).err(), Some(CodecError::UnknownType));
    f[24] = 9;
    assert_eq!(decode(&f).err(), Some(CodecError::UnknownType));
}

#[test]
fn receive_validates_nonce_before_payload() {
    let mut t = NonceTracker::new(cookie(7), 0);
    let e = Envelope { nonce: nonce(9, 0, 4), message_type: MessageType::Auth, body: vec![1] };
    let f = encode(&e);
    assert_eq!(receive(&f, &mut t).unwrap().body, vec![1]);
    assert_eq!(receive(&f, &mut t).err(), Some(ReceiveError::Nonce(NonceError::SequenceNotIncreasing)));

    let mut bad = encode(&Envelope { nonce: nonce(9, 0, 5), message_type: MessageType::Auth, body: vec![] });
    bad[24] = 200;
    assert_eq!(receive(&bad, &mut t).err(), Some(ReceiveError::Codec(CodecError::UnknownType)));
    assert_eq!(t.last_incoming, Some(5));
}

#[test]
fn negotiation_picks_first_local_preference() {
    assert_eq!(negotiate(&names(&["A", "B"]), &names(&["B", "C"])), Ok((1, 0)));
    assert_eq!(negotiate(&names(&["C", "B"]), &names(&["B", "C"])), Ok((0, 1)));
}

#[test]
fn negotiation_without_common_task() {
    assert_eq!(negotiate(&names(&["A"]), &names(&["C"])), Err(NegotiationError::NoCommonTask));
    assert_eq!(negotiate(&names(&[]), &names(&["C"])), Err(NegotiationError::NoCommonTask));
}

#[test]
fn peer_handshake_first_contact_converges() {
    let init_steps = vec![
        initiator_opening_step(false),
        PeerEvent::SentKey,
        PeerEvent::ReceivedKey,
        PeerEvent::SentAuth,
        PeerEvent::ReceivedAuth,
    ];
    let mut i = InitiatorHandshakeState::New;
    let expected = [
        InitiatorHandshakeState::TokenSent,
        InitiatorHandshakeState::KeySent,
        InitiatorHandshakeState::KeyReceived,
        InitiatorHandshakeState::AuthSent,
        InitiatorHandshakeState::AuthReceived,
    ];
    for (ev, want) in init_steps.iter().zip(expected.iter()) {
        i = i.advance(*ev);
        assert_eq!(&i, want);
    }

    let resp_steps = vec![
        responder_opening_step(false),
        PeerEvent::ReceivedKey,
        PeerEvent::SentKey,
        PeerEvent::ReceivedAuth,
        PeerEvent::SentAuth,
    ];
    let r = ResponderHandshakeState::New.run(&resp_steps);
    assert_eq!(r, ResponderHandshakeState::AuthSent);

    let done = ServerHandshakeState::New.run(&vec![ServerMessage::ClientInfo, ServerMessage::ServerAuth]);
    let a = SignalingState::ServerHandshake.after_server(&done).after_initiator(&i);
    let b = SignalingState::ServerHandshake.after_server(&done).after_responder(&r);
    assert_eq!(a, SignalingState::Task);
    assert_eq!(b, SignalingState::Task);
    assert_eq!(a.require_task(), Ok(()));

    // Both sides derive the same shared secret from their own secret key
    // and the other's public key.
    let (ik, rk) = (KeyPair::new(), KeyPair::new());
    let sealed = ik.seal(&rk.public_key(), &[1u8; 24], b"auth");
    assert_eq!(rk.open(&ik.public_key(), &[1u8; 24], &sealed), Ok(b"auth".to_vec()));
    let back = rk.seal(&ik.public_key(), &[2u8; 24], b"auth");
    assert_eq!(ik.open(&rk.public_key(), &[2u8; 24], &back), Ok(b"auth".to_vec()));
}

#[test]
fn known_peer_skips_token() {
    assert_eq!(initiator_opening_step(true), PeerEvent::SentKey);
    assert_eq!(responder_opening_step(true), PeerEvent::ReceivedKey);
    let s = InitiatorHandshakeState::New.advance(PeerEvent::SentKey);
    assert_eq!(s, InitiatorHandshakeState::KeySent);
    let s = ResponderHandshakeState::New.advance(PeerEvent::ReceivedKey);
    assert_eq!(s, ResponderHandshakeState::KeyReceived);
}

#[test]
fn peer_handshake_out_of_order_fails() {
    let s = InitiatorHandshakeState::New.advance(PeerEvent::ReceivedAuth);
    assert!(matches!(s, InitiatorHandshakeState::Failure(_)));
    let s = s.advance(PeerEvent::SentToken);
    assert!(matches!(s, InitiatorHandshakeState::Failure(_)));
    let r = ResponderHandshakeState::New.run(&vec![PeerEvent::ReceivedToken, PeerEvent::SentKey]);
    assert!(matches!(r, ResponderHandshakeState::Failure(_)));
    let r = ResponderHandshakeState::AuthSent.advance(PeerEvent::SentAuth);
    assert!(matches!(r, ResponderHandshakeState::Failure(_)));
}

#[test]
fn phases_only_move_forward() {
    let failed = ServerHandshakeState::Failure("x".to_string());
    assert_eq!(SignalingState::ServerHandshake.after_server(&failed), SignalingState::ServerHandshake);
    assert_eq!(SignalingState::Task.after_server(&ServerHandshakeState::Done), SignalingState::Task);
    assert_eq!(
        SignalingState::ServerHandshake.after_initiator(&InitiatorHandshakeState::AuthReceived),
        SignalingState::ServerHandshake
    );
    assert_eq!(SignalingState::PeerHandshake.require_task(), Err(StateError::NotReady));
    assert_eq!(SignalingState::ServerHandshake.require_task(), Err(StateError::NotReady));
}

#[test]
fn known_tag_with_malformed_body() {
    let key = Envelope { nonce: nonce(4, 0, 1), message_type: MessageType::Key, body: vec![1, 2, 3] };
    assert_eq!(decode(&encode(&key)).err(), Some(CodecError::MalformedPayload));
    let token = Envelope { nonce: nonce(4, 0, 1), message_type: MessageType::Token, body: vec![0; 33] };
    assert_eq!(decode(&encode(&token)).err(), Some(CodecError::MalformedPayload));
    let mut t = NonceTracker::new(cookie(7), 0);
    assert_eq!(receive(&encode(&key), &mut t).err(), Some(ReceiveError::Codec(CodecError::MalformedPayload)));
    assert_eq!(t.last_incoming, Some(1));
}

#[test]
fn failure_reasons_are_not_empty() {
    match ServerHandshakeState::New.advance(ServerMessage::ServerAuth) {
        ServerHandshakeState::Failure(m) => assert!(!m.is_empty()),
        other => panic!("unexpected state {:?}", other),
    }
    match InitiatorHandshakeState::KeySent.advance(PeerEvent::SentAuth) {
        InitiatorHandshakeState::Failure(m) => assert!(!m.is_empty()),
        other => panic!("unexpected state {:?}", other),
    }
    match ResponderHandshakeState::New.advance(PeerEvent::SentKey) {
        ResponderHandshakeState::Failure(m) => assert!(!m.is_empty()),
        other => panic!("unexpected state {:?}", other),
    }
}

#[test]
fn server_run_reports_reached_state() {
    assert_eq!(ServerHandshakeState::New.run(&vec![ServerMessage::ClientInfo]), ServerHandshakeState::ClientInfoSent);
    assert_eq!(ServerHandshakeState::New.run(&vec![]), ServerHandshakeState::New);
}
