//! Long-term identity keys and the per-session shared key set.

use vstd::prelude::*;
use crate::bytes::{append_bytes, copy_bytes, ct_eq};
use crate::primitives::{
    ed25519_accepts, ed25519_public, ed25519_public_of, ed25519_sign, ed25519_signature_of,
    ed25519_verify, hmac_sha256, hmac_sha256_of,
};

verus! {

/// Length in bytes of an identity secret key and of an identity public key.
pub const IDENTITY_KEY_SIZE: usize = 32;

/// Length in bytes of an identity signature.
pub const SIGNATURE_SIZE: usize = 64;

/// Why stored key material was refused.
#[derive(Debug, Clone, Copy, PartialEq, Eq, Structural)]
pub enum KeyLoadError {
    /// The secret or the public key does not have the length of its kind.
    WrongLength,
    /// The public key does not belong to the secret key.
    PublicKeyMismatch,
}

/// An Ed25519 signing keypair; the public key identifies its owner.
pub struct IdentityKeyPair {
    secret: Vec<u8>,
    public: Vec<u8>,
}

/// Whether `sig` is a valid signature by `public` over `msg`: both have the
/// lengths of their kind and the scheme accepts it.
pub open spec fn signature_valid(public: Seq<u8>, msg: Seq<u8>, sig: Seq<u8>) -> bool {
    public.len() == IDENTITY_KEY_SIZE && sig.len() == SIGNATURE_SIZE
        && ed25519_accepts(public, msg, sig)
}

impl IdentityKeyPair {
    pub closed spec fn secret_key(&self) -> Seq<u8> {
        self.secret@
    }

    pub closed spec fn public_key(&self) -> Seq<u8> {
        self.public@
    }

    /// The public key is the one that belongs to the secret key.
    pub open spec fn wf(&self) -> bool {
        self.secret_key().len() == IDENTITY_KEY_SIZE
            && self.public_key().len() == IDENTITY_KEY_SIZE
            && self.public_key() == ed25519_public_of(self.secret_key())
    }

    /// The keypair of a 32-byte secret key.
    pub fn from_secret(secret: &[u8]) -> (r: Result<IdentityKeyPair, KeyLoadError>)
        ensures
            secret@.len() != IDENTITY_KEY_SIZE ==> r == Err::<IdentityKeyPair, KeyLoadError>(
                KeyLoadError::WrongLength,
            ),
            secret@.len() == IDENTITY_KEY_SIZE ==> (r matches Ok(k) && k.wf()
                && k.secret_key() == secret@),
    {
        if secret.len() != IDENTITY_KEY_SIZE {
            return Err(KeyLoadError::WrongLength);
        }
        let public = ed25519_public(secret);
        Ok(IdentityKeyPair { secret: copy_bytes(secret), public })
    }

    /// The keypair stored as a secret key and a public key; the two must
    /// have their lengths and belong together.
    pub fn from_bytes(secret: &[u8], public: &[u8]) -> (r: Result<IdentityKeyPair, KeyLoadError>)
        ensures
            secret@.len() != IDENTITY_KEY_SIZE || public@.len() != IDENTITY_KEY_SIZE ==> r
                == Err::<IdentityKeyPair, KeyLoadError>(KeyLoadError::WrongLength),
            secret@.len() == IDENTITY_KEY_SIZE && public@.len() == IDENTITY_KEY_SIZE
                && public@ != ed25519_public_of(secret@) ==> r == Err::<
                IdentityKeyPair,
                KeyLoadError,
            >(KeyLoadError::PublicKeyMismatch),
            secret@.len() == IDENTITY_KEY_SIZE && public@.len() == IDENTITY_KEY_SIZE
                && public@ == ed25519_public_of(secret@) ==> (r matches Ok(k)
                && k.wf() && k.secret_key() == secret@ && k.public_key() == public@),
    {
        if secret.len() != IDENTITY_KEY_SIZE || public.len() != IDENTITY_KEY_SIZE {
            return Err(KeyLoadError::WrongLength);
        }
        let derived = ed25519_public(secret);
        if !ct_eq(derived.as_slice(), public) {
            return Err(KeyLoadError::PublicKeyMismatch);
        }
        Ok(IdentityKeyPair { secret: copy_bytes(secret), public: derived })
    }

    /// The public key.
    pub fn public_key_bytes(&self) -> (r: &[u8])
        ensures
            r@ == self.public_key(),
    {
        self.public.as_slice()
    }

    /// The detached signature over `msg`; the keypair's own public key
    /// accepts it.
    pub fn sign(&self, msg: &[u8]) -> (r: Vec<u8>)
        requires
            self.wf(),
        ensures
            r@ == ed25519_signature_of(self.secret_key(), msg@),
            signature_valid(self.public_key(), msg@, r@),
    {
        ed25519_sign(self.secret.as_slice(), msg)
    }
}

/// Whether `sig` is a valid signature by `public` over `msg`. Malformed keys
/// and signatures are not errors: they are simply not valid.
pub fn verify(public: &[u8], msg: &[u8], sig: &[u8]) -> (r: bool)
    ensures
        r == signature_valid(public@, msg@, sig@),
{
    if public.len() != IDENTITY_KEY_SIZE || sig.len() != SIGNATURE_SIZE {
        return false;
    }
    ed25519_verify(public, msg, sig)
}

/// Label that the encryption key is derived under.
pub const ENC_KEY_LABEL: u8 = 1;

/// Label that the MAC key is derived under.
pub const MAC_KEY_LABEL: u8 = 2;

/// The input that a session key is derived from besides the raw secret: its
/// label, then the client's and the gateway's identity keys.
pub open spec fn kdf_info(label: u8, client: Seq<u8>, gateway: Seq<u8>) -> Seq<u8> {
    seq![label] + client + gateway
}

/// The session key with `label` derived from the raw shared secret and the
/// two identities.
pub open spec fn session_key_of(label: u8, secret: Seq<u8>, client: Seq<u8>, gateway: Seq<u8>) -> Seq<u8> {
    hmac_sha256_of(secret, kdf_info(label, client, gateway))
}

/// The symmetric keys of one registered session, bound to the identity keys
/// of its two parties. Only a finished handshake produces one.
pub struct SharedKeySet {
    enc_key: Vec<u8>,
    mac_key: Vec<u8>,
    client_identity: Vec<u8>,
    gateway_identity: Vec<u8>,
}

impl SharedKeySet {
    pub closed spec fn enc_key(&self) -> Seq<u8> {
        self.enc_key@
    }

    pub closed spec fn mac_key(&self) -> Seq<u8> {
        self.mac_key@
    }

    pub closed spec fn client_identity(&self) -> Seq<u8> {
        self.client_identity@
    }

    pub closed spec fn gateway_identity(&self) -> Seq<u8> {
        self.gateway_identity@
    }

    /// The keys are those derived from `secret` for the recorded identities.
    pub open spec fn derived_from(&self, secret: Seq<u8>) -> bool {
        self.enc_key() == session_key_of(ENC_KEY_LABEL, secret, self.client_identity(), self.gateway_identity())
            && self.mac_key() == session_key_of(MAC_KEY_LABEL, secret, self.client_identity(), self.gateway_identity())
    }

    /// Whether two key sets hold the same keys for the same identities.
    pub open spec fn same_as(&self, other: &SharedKeySet) -> bool {
        self.enc_key() == other.enc_key() && self.mac_key() == other.mac_key()
            && self.client_identity() == other.client_identity()
            && self.gateway_identity() == other.gateway_identity()
    }

    /// Derives the session keys from the raw shared secret, mixing in both
    /// identity keys.
    pub(crate) fn derive(secret: &[u8], client: &[u8], gateway: &[u8]) -> (r: SharedKeySet)
        ensures
            r.client_identity() == client@,
            r.gateway_identity() == gateway@,
            r.derived_from(secret@),
    {
        let mut info: Vec<u8> = vec![ENC_KEY_LABEL];
        append_bytes(&mut info, client);
        append_bytes(&mut info, gateway);
        assert(info@ =~= kdf_info(ENC_KEY_LABEL, client@, gateway@));
        let enc_key = hmac_sha256(secret, info.as_slice());
        info.set(0, MAC_KEY_LABEL);
        assert(info@ =~= kdf_info(MAC_KEY_LABEL, client@, gateway@));
        let mac_key = hmac_sha256(secret, info.as_slice());
        SharedKeySet {
            enc_key,
            mac_key,
            client_identity: copy_bytes(client),
            gateway_identity: copy_bytes(gateway),
        }
    }

    /// The encryption key.
    pub fn enc_key_bytes(&self) -> (r: &[u8])
        ensures
            r@ == self.enc_key(),
    {
        self.enc_key.as_slice()
    }

    /// The MAC key.
    pub fn mac_key_bytes(&self) -> (r: &[u8])
        ensures
            r@ == self.mac_key(),
    {
        self.mac_key.as_slice()
    }

    /// The client's identity key.
    pub fn client_identity_bytes(&self) -> (r: &[u8])
        ensures
            r@ == self.client_identity(),
    {
        self.client_identity.as_slice()
    }

    /// The gateway's identity key.
    pub fn gateway_identity_bytes(&self) -> (r: &[u8])
        ensures
            r@ == self.gateway_identity(),
    {
        self.gateway_identity.as_slice()
    }
}

} // verus!
