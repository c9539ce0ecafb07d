//! Registration: binds a client's identity key to a fresh `SharedKeySet`.
//!
//! The client sends its identity key and an ephemeral X25519 value; the
//! gateway answers with its own ephemeral value and a signature, by its
//! identity key, over `client identity ‖ client value ‖ gateway value`. Both
//! sides compute the same X25519 secret and derive the session keys from it
//! and the two identity keys.

use vstd::prelude::*;
use crate::bytes::{append_bytes, copy_bytes};
use crate::keys::{signature_valid, verify, IdentityKeyPair, SharedKeySet, IDENTITY_KEY_SIZE};
use crate::primitives::{ed25519_signature_of, x25519, x25519_base, x25519_of};

verus! {

/// Length in bytes of a key-exchange contribution and of the raw secret.
pub const KEX_SIZE: usize = 32;

/// Why a registration failed. None of these is retried here.
#[derive(Debug, Clone, Copy, PartialEq, Eq, Structural)]
pub enum HandshakeError {
    /// A message field does not have its fixed length.
    MalformedMessage,
    /// The gateway's signature over the exchange does not verify.
    SignatureInvalid,
    /// The caller gave up waiting for the peer.
    Timeout,
    /// The handshake was abandoned, or driven out of order.
    Aborted,
}

/// Where a registration attempt stands.
#[derive(Debug, Clone, Copy, PartialEq, Eq, Structural)]
pub enum HandshakeState {
    Initiated,
    KeyExchanged,
    Finalized,
    Aborted,
}

/// The client's first message.
pub struct ClientHello {
    pub identity: Vec<u8>,
    pub kex: Vec<u8>,
}

/// The gateway's answer.
pub struct GatewayResponse {
    pub kex: Vec<u8>,
    pub signature: Vec<u8>,
}

/// What the gateway signs: the client's identity key and contribution, then
/// its own contribution.
pub open spec fn transcript(client_identity: Seq<u8>, client_kex: Seq<u8>, gateway_kex: Seq<u8>) -> Seq<u8> {
    client_identity + client_kex + gateway_kex
}

/// The public contribution that belongs to an ephemeral secret.
pub open spec fn kex_of(ephemeral: Seq<u8>) -> Seq<u8> {
    x25519_of(ephemeral, x25519_base())
}

fn base_point() -> (r: Vec<u8>)
    ensures
        r@ == x25519_base(),
{
    let r: Vec<u8> = vec![9u8, 0, 0, 0, 0, 0, 0, 0, 0, 0, 0, 0, 0, 0, 0, 0,
        0, 0, 0, 0, 0, 0, 0, 0, 0, 0, 0, 0, 0, 0, 0, 0];
    assert(r@ =~= x25519_base());
    r
}

fn build_transcript(client_identity: &[u8], client_kex: &[u8], gateway_kex: &[u8]) -> (r: Vec<u8>)
    ensures
        r@ == transcript(client_identity@, client_kex@, gateway_kex@),
{
    let mut r = copy_bytes(client_identity);
    append_bytes(&mut r, client_kex);
    append_bytes(&mut r, gateway_kex);
    r
}

/// The gateway's side: answers a client hello with its own contribution
/// and a signature over the exchange, and derives the session keys. Fails
/// with `MalformedMessage` exactly when a field of the hello has the wrong
/// length.
pub fn respond(
    gateway: &IdentityKeyPair,
    hello: &ClientHello,
    ephemeral_secret: &[u8],
) -> (r: Result<(GatewayResponse, SharedKeySet), HandshakeError>)
    requires
        gateway.wf(),
        ephemeral_secret@.len() == KEX_SIZE,
    ensures
        hello.identity@.len() != IDENTITY_KEY_SIZE || hello.kex@.len() != KEX_SIZE ==> (r matches Err(
            e,
        ) && e == HandshakeError::MalformedMessage),
        hello.identity@.len() == IDENTITY_KEY_SIZE && hello.kex@.len() == KEX_SIZE ==> (r matches Ok(
            (resp, keys),
        ) && resp.kex@ == kex_of(ephemeral_secret@) && resp.signature@ == ed25519_signature_of(
            gateway.secret_key(),
            transcript(hello.identity@, hello.kex@, resp.kex@),
        ) && signature_valid(
            gateway.public_key(),
            transcript(hello.identity@, hello.kex@, resp.kex@),
            resp.signature@,
        ) && keys.client_identity() == hello.identity@ && keys.gateway_identity()
            == gateway.public_key() && keys.derived_from(x25519_of(ephemeral_secret@, hello.kex@))),
{
    if hello.identity.len() != IDENTITY_KEY_SIZE || hello.kex.len() != KEX_SIZE {
        return Err(HandshakeError::MalformedMessage);
    }
    let base = base_point();
    let kex = x25519(ephemeral_secret, base.as_slice());
    let t = build_transcript(hello.identity.as_slice(), hello.kex.as_slice(), kex.as_slice());
    let signature = gateway.sign(t.as_slice());
    let secret = x25519(ephemeral_secret, hello.kex.as_slice());
    let keys = SharedKeySet::derive(secret.as_slice(), hello.identity.as_slice(), gateway.public_key_bytes());
    Ok((GatewayResponse { kex, signature }, keys))
}

/// The client's side of one registration attempt.
pub struct ClientHandshake {
    state: HandshakeState,
    identity: Vec<u8>,
    gateway: Vec<u8>,
    ephemeral: Vec<u8>,
    kex: Vec<u8>,
    secret: Vec<u8>,
}

impl ClientHandshake {
    pub closed spec fn state(&self) -> HandshakeState {
        self.state
    }

    pub closed spec fn client_identity(&self) -> Seq<u8> {
        self.identity@
    }

    pub closed spec fn gateway_identity(&self) -> Seq<u8> {
        self.gateway@
    }

    pub closed spec fn ephemeral(&self) -> Seq<u8> {
        self.ephemeral@
    }

    pub closed spec fn kex(&self) -> Seq<u8> {
        self.kex@
    }

    /// The raw shared secret; held only while the keys are exchanged and
    /// not yet derived.
    pub closed spec fn raw_secret(&self) -> Seq<u8> {
        self.secret@
    }

    pub open spec fn wf(&self) -> bool {
        &&& self.ephemeral().len() == KEX_SIZE
        &&& self.kex() == kex_of(self.ephemeral())
        &&& self.kex().len() == KEX_SIZE
        &&& forall|b: Seq<u8>| #![trigger x25519_of(b, self.kex())]
            b.len() == KEX_SIZE ==> x25519_of(b, self.kex()) == x25519_of(self.ephemeral(), kex_of(b))
        &&& self.state() == HandshakeState::KeyExchanged ==> self.raw_secret().len() == KEX_SIZE
        &&& self.state() != HandshakeState::KeyExchanged ==> self.raw_secret().len() == 0
    }

    /// The parts that no step changes.
    pub open spec fn same_session(&self, other: &ClientHandshake) -> bool {
        self.client_identity() == other.client_identity()
            && self.gateway_identity() == other.gateway_identity()
            && self.ephemeral() == other.ephemeral()
            && self.kex() == other.kex()
    }

    /// Starts a registration with the gateway whose identity key is
    /// `gateway_identity`, using a fresh ephemeral secret.
    pub fn initiate(
        identity: &IdentityKeyPair,
        gateway_identity: &[u8],
        ephemeral_secret: &[u8],
    ) -> (r: (ClientHandshake, ClientHello))
        requires
            identity.wf(),
            ephemeral_secret@.len() == KEX_SIZE,
        ensures
            r.0.wf(),
            r.0.state() == HandshakeState::Initiated,
            r.0.client_identity() == identity.public_key(),
            r.0.gateway_identity() == gateway_identity@,
            r.0.ephemeral() == ephemeral_secret@,
            r.1.identity@ == identity.public_key(),
            r.1.kex@ == r.0.kex(),
    {
        let base = base_point();
        let kex = x25519(ephemeral_secret, base.as_slice());
        let hello = ClientHello {
            identity: copy_bytes(identity.public_key_bytes()),
            kex: copy_bytes(kex.as_slice()),
        };
        let h = ClientHandshake {
            state: HandshakeState::Initiated,
            identity: copy_bytes(identity.public_key_bytes()),
            gateway: copy_bytes(gateway_identity),
            ephemeral: copy_bytes(ephemeral_secret),
            kex,
            secret: Vec::new(),
        };
        (h, hello)
    }

    /// Where the attempt stands.
    pub fn current_state(&self) -> (r: HandshakeState)
        ensures
            r == self.state(),
    {
        self.state
    }

    fn abandon(&mut self)
        requires
            old(self).wf(),
        ensures
            final(self).wf(),
            final(self).same_session(old(self)),
            final(self).state() == HandshakeState::Aborted,
    {
        self.state = HandshakeState::Aborted;
        self.secret = Vec::new();
    }

    /// Takes the gateway's answer: checks its fields and the gateway's
    /// signature over the exchange, then computes the raw shared secret.
    /// Any failure aborts the attempt.
    pub fn receive_response(&mut self, resp: &GatewayResponse) -> (r: Result<(), HandshakeError>)
        requires
            old(self).wf(),
        ensures
            final(self).wf(),
            final(self).same_session(old(self)),
            old(self).state() != HandshakeState::Initiated ==> r == Err::<(), HandshakeError>(
                HandshakeError::Aborted,
            ),
            old(self).state() == HandshakeState::Initiated && resp.kex@.len() != KEX_SIZE ==> r
                == Err::<(), HandshakeError>(HandshakeError::MalformedMessage),
            old(self).state() == HandshakeState::Initiated && resp.kex@.len() == KEX_SIZE
                && !signature_valid(
                old(self).gateway_identity(),
                transcript(old(self).client_identity(), old(self).kex(), resp.kex@),
                resp.signature@,
            ) ==> r == Err::<(), HandshakeError>(HandshakeError::SignatureInvalid),
            r is Err ==> final(self).state() == HandshakeState::Aborted,
            r is Ok ==> final(self).state() == HandshakeState::KeyExchanged
                && final(self).raw_secret() == x25519_of(old(self).ephemeral(), resp.kex@),
            old(self).state() == HandshakeState::Initiated && resp.kex@.len() == KEX_SIZE
                && signature_valid(
                old(self).gateway_identity(),
                transcript(old(self).client_identity(), old(self).kex(), resp.kex@),
                resp.signature@,
            ) ==> r is Ok,
    {
        if self.state != HandshakeState::Initiated {
            self.abandon();
            return Err(HandshakeError::Aborted);
        }
        if resp.kex.len() != KEX_SIZE {
            self.abandon();
            return Err(HandshakeError::MalformedMessage);
        }
        let t = build_transcript(self.identity.as_slice(), self.kex.as_slice(), resp.kex.as_slice());
        if !verify(self.gateway.as_slice(), t.as_slice(), resp.signature.as_slice()) {
            self.abandon();
            return Err(HandshakeError::SignatureInvalid);
        }
        self.secret = x25519(self.ephemeral.as_slice(), resp.kex.as_slice());
        self.state = HandshakeState::KeyExchanged;
        Ok(())
    }

    /// Derives the session keys from the exchanged secret and both identity
    /// keys, and discards the secret. Keys come only out of an attempt whose
    /// keys were exchanged; any other call aborts it.
    pub fn finalize(&mut self) -> (r: Result<SharedKeySet, HandshakeError>)
        requires
            old(self).wf(),
        ensures
            final(self).wf(),
            final(self).same_session(old(self)),
            old(self).state() == HandshakeState::KeyExchanged ==> (r matches Ok(keys)
                && keys.client_identity() == old(self).client_identity()
                && keys.gateway_identity() == old(self).gateway_identity()
                && keys.derived_from(old(self).raw_secret())
                && final(self).state() == HandshakeState::Finalized),
            old(self).state() != HandshakeState::KeyExchanged ==> (r matches Err(e)
                && e == HandshakeError::Aborted
                && final(self).state() == HandshakeState::Aborted),
    {
        if self.state != HandshakeState::KeyExchanged {
            self.abandon();
            return Err(HandshakeError::Aborted);
        }
        let keys = SharedKeySet::derive(self.secret.as_slice(), self.identity.as_slice(), self.gateway.as_slice());
        self.secret = Vec::new();
        self.state = HandshakeState::Finalized;
        Ok(keys)
    }

    /// Gives up waiting for the gateway: the attempt is aborted and its
    /// secret discarded.
    pub fn time_out(&mut self) -> (r: HandshakeError)
        requires
            old(self).wf(),
        ensures
            final(self).wf(),
            final(self).same_session(old(self)),
            final(self).state() == HandshakeState::Aborted,
            r == HandshakeError::Timeout,
    {
        self.abandon();
        HandshakeError::Timeout
    }
}

/// Agreement: the secret a client computes from a gateway's contribution is
/// the secret that gateway computes from the client's contribution.
pub proof fn lemma_raw_secrets_agree(h: ClientHandshake, gateway_ephemeral: Seq<u8>)
    requires
        h.wf(),
        gateway_ephemeral.len() == KEX_SIZE,
    ensures
        x25519_of(h.ephemeral(), kex_of(gateway_ephemeral)) == x25519_of(gateway_ephemeral, h.kex()),
{
}

/// Agreement: key sets derived from the same secret for the same two
/// identities hold the same keys.
pub proof fn lemma_key_sets_agree(a: SharedKeySet, b: SharedKeySet, secret: Seq<u8>)
    requires
        a.derived_from(secret),
        b.derived_from(secret),
        a.client_identity() == b.client_identity(),
        a.gateway_identity() == b.gateway_identity(),
    ensures
        a.same_as(&b),
{
}

} // verus!
