//! The cryptographic primitives this library builds on. Each function here
//! calls an outside implementation; its result is named by a spec function so
//! that the protocol logic can be stated exactly over it.

use vstd::prelude::*;
use ed25519_dalek::{Signer, Verifier};
use hmac::Mac;

verus! {

/// The HMAC-SHA256 tag of `msg` under `key`.
pub uninterp spec fn hmac_sha256_of(key: Seq<u8>, msg: Seq<u8>) -> Seq<u8>;

/// The X25519 function applied to scalar `k` and u-coordinate `u`.
pub uninterp spec fn x25519_of(k: Seq<u8>, u: Seq<u8>) -> Seq<u8>;

/// The Ed25519 public key that belongs to the secret key `secret`.
pub uninterp spec fn ed25519_public_of(secret: Seq<u8>) -> Seq<u8>;

/// The Ed25519 signature made by `secret` over `msg`.
pub uninterp spec fn ed25519_signature_of(secret: Seq<u8>, msg: Seq<u8>) -> Seq<u8>;

/// Whether `sig` is accepted as an Ed25519 signature by `public` over `msg`.
pub uninterp spec fn ed25519_accepts(public: Seq<u8>, msg: Seq<u8>, sig: Seq<u8>) -> bool;

/// The base58 text of `bytes` (Bitcoin alphabet).
pub uninterp spec fn base58_of(bytes: Seq<u8>) -> Seq<char>;

/// The human-readable part of the bech32 string `s`, or `None` where `s` is
/// not a valid lower-case bech32 string.
pub uninterp spec fn bech32_prefix_of(s: Seq<char>) -> Option<Seq<char>>;

/// `s` without leading and trailing white space.
pub uninterp spec fn trimmed_of(s: Seq<char>) -> Seq<char>;

/// The X25519 base point, the u-coordinate 9.
pub open spec fn x25519_base() -> Seq<u8> {
    seq![9u8, 0, 0, 0, 0, 0, 0, 0, 0, 0, 0, 0, 0, 0, 0, 0,
         0, 0, 0, 0, 0, 0, 0, 0, 0, 0, 0, 0, 0, 0, 0, 0]
}

/// Relies on hmac's `Hmac<Sha256>` (with sha2's `Sha256`): keyed with any
/// key length, it returns a 32-byte tag that depends on key and message alone.
#[verifier::external_body]
pub(crate) fn hmac_sha256(key: &[u8], msg: &[u8]) -> (r: Vec<u8>)
    ensures
        r@ == hmac_sha256_of(key@, msg@),
        r@.len() == 32,
{
    let mut m = <hmac::Hmac<sha2::Sha256> as Mac>::new_from_slice(key)
        .expect("HMAC takes keys of any length");
    m.update(msg);
    m.finalize().into_bytes().to_vec()
}

/// Relies on x25519_dalek::x25519: the clamped scalar multiplication of `u`
/// by `k`. Diffie-Hellman agreement: applied to the public value `k * 9` of
/// this call, any other scalar `b` meets what `k` gives on `b * 9`.
#[verifier::external_body]
pub(crate) fn x25519(k: &[u8], u: &[u8]) -> (r: Vec<u8>)
    requires
        k@.len() == 32,
        u@.len() == 32,
    ensures
        r@ == x25519_of(k@, u@),
        r@.len() == 32,
        u@ == x25519_base() ==> forall|b: Seq<u8>| #![trigger x25519_of(b, r@)]
            b.len() == 32 ==> x25519_of(b, r@) == x25519_of(k@, x25519_of(b, x25519_base())),
{
    let k: [u8; 32] = k.try_into().unwrap();
    let u: [u8; 32] = u.try_into().unwrap();
    x25519_dalek::x25519(k, u).to_vec()
}

/// Relies on ed25519_dalek::SigningKey::verifying_key: the 32-byte public key
/// of a 32-byte secret key.
#[verifier::external_body]
pub(crate) fn ed25519_public(secret: &[u8]) -> (r: Vec<u8>)
    requires
        secret@.len() == 32,
    ensures
        r@ == ed25519_public_of(secret@),
        r@.len() == 32,
{
    let secret: [u8; 32] = secret.try_into().unwrap();
    ed25519_dalek::SigningKey::from_bytes(&secret).verifying_key().to_bytes().to_vec()
}

/// Relies on ed25519_dalek::SigningKey::sign: a deterministic 64-byte
/// signature, which the key's own public key accepts.
#[verifier::external_body]
pub(crate) fn ed25519_sign(secret: &[u8], msg: &[u8]) -> (r: Vec<u8>)
    requires
        secret@.len() == 32,
    ensures
        r@ == ed25519_signature_of(secret@, msg@),
        r@.len() == 64,
        ed25519_accepts(ed25519_public_of(secret@), msg@, r@),
{
    let secret: [u8; 32] = secret.try_into().unwrap();
    ed25519_dalek::SigningKey::from_bytes(&secret).sign(msg).to_bytes().to_vec()
}

/// Relies on ed25519_dalek::VerifyingKey::verify: a public key that does not
/// decode accepts nothing.
#[verifier::external_body]
pub(crate) fn ed25519_verify(public: &[u8], msg: &[u8], sig: &[u8]) -> (r: bool)
    requires
        public@.len() == 32,
        sig@.len() == 64,
    ensures
        r == ed25519_accepts(public@, msg@, sig@),
{
    let public: [u8; 32] = public.try_into().unwrap();
    let sig: [u8; 64] = sig.try_into().unwrap();
    match ed25519_dalek::VerifyingKey::from_bytes(&public) {
        Ok(key) => key.verify(msg, &ed25519_dalek::Signature::from_bytes(&sig)).is_ok(),
        Err(_) => false,
    }
}

/// Relies on bs58::encode(..).into_string: base58 with the Bitcoin alphabet.
#[verifier::external_body]
pub(crate) fn base58_encode(bytes: &[u8]) -> (r: String)
    ensures
        r@ == base58_of(bytes@),
{
    bs58::encode(bytes).into_string()
}

/// Relies on subtle_encoding::bech32::decode: the human-readable part of a
/// valid lower-case bech32 string; the decoded data is not needed here.
#[verifier::external_body]
pub(crate) fn bech32_prefix(s: &str) -> (r: Option<String>)
    ensures
        r matches Some(p) ==> bech32_prefix_of(s@) == Some(p@),
        r is None ==> bech32_prefix_of(s@) is None,
{
    match subtle_encoding::bech32::decode(s) {
        Ok((prefix, _)) => Some(prefix),
        Err(_) => None,
    }
}

/// Relies on str::trim: leading and trailing white space removed.
#[verifier::external_body]
pub(crate) fn trim(s: &str) -> (r: &str)
    ensures
        r@ == trimmed_of(s@),
{
    s.trim()
}

} // verus!
