use gateway_requests::frame::{
    open, open_with_expected, seal, AuthenticatedFrame, FrameError, DUMMY_MESSAGE_CONTENT,
    FRAME_HEADER_SIZE, MAC_SIZE,
};
use gateway_requests::handshake::{respond, ClientHandshake};
use gateway_requests::keys::{IdentityKeyPair, SharedKeySet};
use gateway_requests::nonce::{NonceCounter, NonceError, ReplayGuard};
use hmac::Mac;

fn session_keys() -> SharedKeySet {
    let client = IdentityKeyPair::from_secret(&[1u8; 32]).unwrap();
    let gateway = IdentityKeyPair::from_secret(&[2u8; 32]).unwrap();
    let (mut h, hello) = ClientHandshake::initiate(&client, gateway.public_key_bytes(), &[3u8; 32]);
    let (resp, _) = respond(&gateway, &hello, &[4u8; 32]).unwrap();
    h.receive_response(&resp).unwrap();
    h.finalize().unwrap()
}

#[test]
fn counter_hands_out_increasing_nonces() {
    let mut c = NonceCounter::new();
    assert_eq!(c.generate(), Ok(1));
    assert_eq!(c.generate(), Ok(2));
    assert_eq!(c.generate(), Ok(3));
}

#[test]
fn counter_refuses_to_wrap() {
    let mut c = NonceCounter::starting_at(u64::MAX - 1);
    assert_eq!(c.generate(), Ok(u64::MAX - 1));
    assert_eq!(c.generate(), Err(NonceError::Exhausted));
    assert_eq!(c.generate(), Err(NonceError::Exhausted));
}

#[test]
fn guard_accepts_only_increasing_nonces() {
    let mut g = ReplayGuard::new();
    assert_eq!(g.validate(0), Ok(()));
    assert_eq!(g.validate(0), Err(NonceError::Replayed));
    assert_eq!(g.validate(5), Ok(()));
    assert_eq!(g.validate(3), Err(NonceError::Replayed));
    assert_eq!(g.validate(5), Err(NonceError::Replayed));
    assert_eq!(g.validate(6), Ok(()));
}

#[test]
fn seal_open_round_trip() {
    let keys = session_keys();
    for (nonce, payload) in [(0u64, &b""[..]), (1, &b"ping"[..]), (u64::MAX, &[0xffu8; 300][..])] {
        let frame = seal(&keys, nonce, payload);
        let mut g = ReplayGuard::new();
        assert_eq!(open(&keys, &frame, &mut g), Ok(payload.to_vec()));
    }
}

#[test]
fn tag_is_hmac_sha256_over_nonce_and_payload() {
    let keys = session_keys();
    let frame = seal(&keys, 7, b"hello");
    let mut m = <hmac::Hmac<sha2::Sha256> as Mac>::new_from_slice(keys.mac_key_bytes()).unwrap();
    m.update(&7u64.to_be_bytes());
    m.update(b"hello");
    let expected = m.finalize().into_bytes().to_vec();
    assert_eq!(frame.tag, expected);
    assert_eq!(frame.tag.len(), MAC_SIZE);
    assert_ne!(frame.tag, b"hello".to_vec());
}

#[test]
fn same_payload_different_nonce_different_tag() {
    let keys = session_keys();
    assert_ne!(seal(&keys, 1, b"x").tag, seal(&keys, 2, b"x").tag);
}

#[test]
fn flipped_tag_bit_is_detected() {
    let keys = session_keys();
    let sealed = seal(&keys, 1, b"payload");
    for i in 0..MAC_SIZE {
        for bit in 0..8 {
            let mut frame = seal(&keys, 1, b"payload");
            frame.tag[i] ^= 1 << bit;
            let mut g = ReplayGuard::new();
            assert_eq!(open(&keys, &frame, &mut g), Err(FrameError::TagMismatch));
            // the forged frame does not use up the nonce
            assert_eq!(open(&keys, &sealed, &mut g), Ok(b"payload".to_vec()));
        }
    }
}

#[test]
fn flipped_payload_bit_is_detected() {
    let keys = session_keys();
    for i in 0..7 {
        for bit in 0..8 {
            let mut frame = seal(&keys, 1, b"payload");
            frame.payload[i] ^= 1 << bit;
            let mut g = ReplayGuard::new();
            assert_eq!(open(&keys, &frame, &mut g), Err(FrameError::TagMismatch));
        }
    }
}

#[test]
fn replayed_frame_is_rejected() {
    let keys = session_keys();
    let frame = seal(&keys, 1, b"ping");
    let mut g = ReplayGuard::new();
    assert_eq!(open(&keys, &frame, &mut g), Ok(b"ping".to_vec()));
    assert_eq!(open(&keys, &frame, &mut g), Err(FrameError::ReplayedNonce));
}

#[test]
fn older_nonce_is_rejected_after_newer() {
    let keys = session_keys();
    let mut g = ReplayGuard::new();
    assert_eq!(open(&keys, &seal(&keys, 10, b"a"), &mut g), Ok(b"a".to_vec()));
    assert_eq!(open(&keys, &seal(&keys, 9, b"b"), &mut g), Err(FrameError::ReplayedNonce));
}

#[test]
fn open_with_expected_checks_nonce_before_tag() {
    let frame = AuthenticatedFrame { nonce: 3, payload: b"p".to_vec(), tag: vec![1u8; 32] };
    let mut g = ReplayGuard::new();
    assert_eq!(g.validate(3), Ok(()));
    assert_eq!(open_with_expected(&[2u8; 32], &frame, &mut g), Err(FrameError::ReplayedNonce));
    let mut fresh = ReplayGuard::new();
    assert_eq!(open_with_expected(&[2u8; 32], &frame, &mut fresh), Err(FrameError::TagMismatch));
    assert_eq!(open_with_expected(&[1u8; 32], &frame, &mut fresh), Ok(b"p".to_vec()));
}

#[test]
fn wrong_key_is_tag_mismatch() {
    let keys = session_keys();
    let frame = seal(&keys, 1, b"ping");
    let client = IdentityKeyPair::from_secret(&[1u8; 32]).unwrap();
    let gateway = IdentityKeyPair::from_secret(&[2u8; 32]).unwrap();
    let (mut h, hello) = ClientHandshake::initiate(&client, gateway.public_key_bytes(), &[9u8; 32]);
    let (resp, _) = respond(&gateway, &hello, &[4u8; 32]).unwrap();
    h.receive_response(&resp).unwrap();
    let other = h.finalize().unwrap();
    let mut g = ReplayGuard::new();
    assert_eq!(open(&other, &frame, &mut g), Err(FrameError::TagMismatch));
}

#[test]
fn wire_format_round_trip() {
    let keys = session_keys();
    let frame = seal(&keys, 0x0102030405060708, b"data");
    let bytes = frame.to_bytes();
    assert_eq!(bytes.len(), FRAME_HEADER_SIZE + 4);
    assert_eq!(&bytes[..8], &[1, 2, 3, 4, 5, 6, 7, 8]);
    assert_eq!(&bytes[8..40], &frame.tag[..]);
    assert_eq!(&bytes[40..], b"data");
    let back = AuthenticatedFrame::from_bytes(&bytes).unwrap();
    assert_eq!(back.nonce, frame.nonce);
    assert_eq!(back.tag, frame.tag);
    assert_eq!(back.payload, frame.payload);
}

#[test]
fn short_wire_bytes_are_truncated() {
    assert!(matches!(AuthenticatedFrame::from_bytes(&[0u8; 39]), Err(FrameError::Truncated)));
    assert!(matches!(AuthenticatedFrame::from_bytes(&[]), Err(FrameError::Truncated)));
    let f = AuthenticatedFrame::from_bytes(&[0u8; 40]).unwrap();
    assert!(f.payload.is_empty());
}

#[test]
fn dummy_message_content() {
    assert_eq!(
        DUMMY_MESSAGE_CONTENT.as_bytes(),
        b"[DUMMY MESSAGE] Wanting something does not give you the right to have it."
    );
}
