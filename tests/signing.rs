use ed25519_dalek::Signer;
use gateway_requests::keys::{verify, IdentityKeyPair, KeyLoadError};
use gateway_requests::ownership::{
    check_address_prefix, select_request, sign_derived_address, sign_provided_address, sign_text,
    SignError, SignRequest,
};

const RFC8032_SECRET: &str = "9d61b19deffd5a60ba844af492ec2cc44449c5697b326919703bac031cae7f60";
const RFC8032_PUBLIC: &str = "d75a980182b10ab7d54bfed3c964073a0ee172f3daa62325af021a68f707511a";

fn unhex(s: &str) -> Vec<u8> {
    (0..s.len()).step_by(2).map(|i| u8::from_str_radix(&s[i..i + 2], 16).unwrap()).collect()
}

fn keys() -> IdentityKeyPair {
    IdentityKeyPair::from_secret(&unhex(RFC8032_SECRET)).unwrap()
}

#[test]
fn public_key_of_known_secret() {
    assert_eq!(keys().public_key_bytes(), &unhex(RFC8032_PUBLIC)[..]);
}

#[test]
fn key_loading_checks_lengths_and_pairing() {
    assert!(matches!(IdentityKeyPair::from_secret(&[0u8; 31]), Err(KeyLoadError::WrongLength)));
    let secret = unhex(RFC8032_SECRET);
    let public = unhex(RFC8032_PUBLIC);
    assert!(IdentityKeyPair::from_bytes(&secret, &public).is_ok());
    assert!(matches!(IdentityKeyPair::from_bytes(&secret, &public[..31]), Err(KeyLoadError::WrongLength)));
    assert!(matches!(IdentityKeyPair::from_bytes(&secret[..5], &public), Err(KeyLoadError::WrongLength)));
    let mut other = public.clone();
    other[0] ^= 1;
    assert!(matches!(IdentityKeyPair::from_bytes(&secret, &other), Err(KeyLoadError::PublicKeyMismatch)));
}

#[test]
fn signature_verifies_under_own_key() {
    let k = keys();
    for msg in [&b""[..], b"hello", &[7u8; 1000][..]] {
        let sig = k.sign(msg);
        assert_eq!(sig.len(), 64);
        assert!(verify(k.public_key_bytes(), msg, &sig));
    }
}

#[test]
fn signature_is_ed25519() {
    let secret: [u8; 32] = unhex(RFC8032_SECRET).try_into().unwrap();
    let expected = ed25519_dalek::SigningKey::from_bytes(&secret).sign(b"abc").to_bytes();
    assert_eq!(keys().sign(b"abc"), expected.to_vec());
}

#[test]
fn corrupted_signature_does_not_verify() {
    let k = keys();
    let sig = k.sign(b"message");
    for i in [0usize, 31, 32, 63] {
        let mut bad = sig.clone();
        bad[i] ^= 0x10;
        assert!(!verify(k.public_key_bytes(), b"message", &bad));
    }
    assert!(!verify(k.public_key_bytes(), b"other message", &sig));
    assert!(!verify(k.public_key_bytes(), b"message", &sig[..63]));
    assert!(!verify(&k.public_key_bytes()[..31], b"message", &sig));
    assert!(!verify(&[0xffu8; 32], b"message", &[0xffu8; 64]));
}

#[test]
fn text_and_address_together_is_usage_error() {
    let r = select_request(Some("hi".to_string()), true, Some("n1abc".to_string()));
    assert!(matches!(r, Err(SignError::ConflictingArguments)));
    let r = select_request(Some("hi".to_string()), true, None);
    assert!(matches!(r, Err(SignError::ConflictingArguments)));
}

#[test]
fn neither_text_nor_address_is_usage_error() {
    assert!(matches!(select_request(None, false, None), Err(SignError::MissingArgument)));
}

#[test]
fn request_selection() {
    assert!(matches!(select_request(Some("hi".to_string()), false, None), Ok(SignRequest::Text(t)) if t == "hi"));
    assert!(matches!(select_request(None, true, None), Ok(SignRequest::DerivedAddress)));
    assert!(matches!(
        select_request(None, true, Some("n1x".to_string())),
        Ok(SignRequest::ProvidedAddress(a)) if a == "n1x"
    ));
}

#[test]
fn text_signature_is_base58_of_signature() {
    let k = keys();
    let s = sign_text(&k, "I own this node");
    assert_eq!(s.signed_bytes, b"I own this node".to_vec());
    assert_eq!(s.signature, k.sign(b"I own this node"));
    assert_eq!(s.encoded, bs58::encode(&s.signature).into_string());
    assert!(verify(k.public_key_bytes(), b"I own this node", &s.signature));
}

#[test]
fn base58_of_known_bytes() {
    let k = keys();
    let s = sign_derived_address(&k, &[0u8, 0, 1]);
    assert_eq!(s.signed_bytes, vec![0u8, 0, 1]);
    assert_eq!(s.encoded, bs58::encode(&s.signature).into_string());
    assert_ne!(s.encoded.as_bytes(), &s.signature[..]);
}

#[test]
fn provided_address_is_checked_and_trimmed() {
    let k = keys();
    let address = subtle_encoding::bech32::encode("n", [3u8; 20]);
    let padded = format!("  {}\n", address);
    let s = sign_provided_address(&k, &padded, "n").unwrap();
    assert_eq!(s.signed_bytes, address.as_bytes().to_vec());
    assert!(verify(k.public_key_bytes(), address.as_bytes(), &s.signature));
    assert_eq!(s.encoded, bs58::encode(&s.signature).into_string());
}

#[test]
fn provided_address_with_other_prefix_is_refused() {
    let k = keys();
    let address = subtle_encoding::bech32::encode("punk", [3u8; 20]);
    assert!(matches!(sign_provided_address(&k, &address, "n"), Err(SignError::PrefixMismatch)));
}

#[test]
fn undecodable_address_is_refused() {
    let k = keys();
    assert!(matches!(sign_provided_address(&k, "not an address", "n"), Err(SignError::AddressDecode)));
    let mut address = subtle_encoding::bech32::encode("n", [3u8; 20]);
    let last = address.pop().unwrap();
    address.push(if last == 'q' { 'p' } else { 'q' });
    assert!(matches!(sign_provided_address(&k, &address, "n"), Err(SignError::AddressDecode)));
}

#[test]
fn prefix_check() {
    assert_eq!(check_address_prefix(None, "n"), Err(SignError::AddressDecode));
    assert_eq!(check_address_prefix(Some("punk".to_string()), "n"), Err(SignError::PrefixMismatch));
    assert_eq!(check_address_prefix(Some("n".to_string()), "n"), Ok(()));
}
