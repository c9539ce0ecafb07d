//! Authenticated frames: a payload with its nonce and a MAC tag over
//! `nonce ‖ payload` under the session's MAC key.
//!
//! Wire format: `nonce (8 bytes, big-endian) ‖ tag (32 bytes) ‖ payload`.

use vstd::prelude::*;
use crate::bytes::{append_bytes, copy_bytes, copy_range, ct_eq, decode_nonce, encode_nonce,
    nonce_bytes, nonce_from_bytes, NONCE_SIZE, lemma_nonce_round_trip};
use crate::keys::SharedKeySet;
use crate::nonce::{is_fresh, ReplayGuard};
use crate::primitives::{hmac_sha256, hmac_sha256_of};

verus! {

/// Length in bytes of a frame's MAC tag (HMAC-SHA256).
pub const MAC_SIZE: usize = 32;

/// Length in bytes of a frame's fixed part, nonce and tag.
pub const FRAME_HEADER_SIZE: usize = 40;

/// Cover-traffic payload. It carries no meaning and is never delivered as
/// application data.
pub const DUMMY_MESSAGE_CONTENT: &'static str =
    "[DUMMY MESSAGE] Wanting something does not give you the right to have it.";

/// Why a frame was refused.
#[derive(Debug, Clone, Copy, PartialEq, Eq, Structural)]
pub enum FrameError {
    /// The nonce is not fresh for this session.
    ReplayedNonce,
    /// The tag is not the one the session's MAC key gives.
    TagMismatch,
    /// The bytes are too short to hold a nonce and a tag.
    Truncated,
}

/// A payload with its nonce and tag; exists only in transit.
pub struct AuthenticatedFrame {
    pub nonce: u64,
    pub payload: Vec<u8>,
    pub tag: Vec<u8>,
}

/// What the tag covers: the encoded nonce, then the payload.
pub open spec fn mac_input(nonce: u64, payload: Seq<u8>) -> Seq<u8> {
    nonce_bytes(nonce) + payload
}

/// The tag that `mac_key` gives on `nonce` and `payload`.
pub open spec fn tag_of(mac_key: Seq<u8>, nonce: u64, payload: Seq<u8>) -> Seq<u8> {
    hmac_sha256_of(mac_key, mac_input(nonce, payload))
}

/// What opening a frame gives, where `expected` is the tag its key gives and
/// `highest` the receiver's replay state: the nonce is checked first, then
/// the tag.
pub open spec fn open_result(
    expected: Seq<u8>,
    highest: Option<u64>,
    nonce: u64,
    payload: Seq<u8>,
    tag: Seq<u8>,
) -> Result<Seq<u8>, FrameError> {
    if !is_fresh(highest, nonce) {
        Err(FrameError::ReplayedNonce)
    } else if tag != expected {
        Err(FrameError::TagMismatch)
    } else {
        Ok(payload)
    }
}

/// The receiver's replay state after opening a frame: a nonce is recorded
/// only when the frame is accepted.
pub open spec fn guard_after(
    expected: Seq<u8>,
    highest: Option<u64>,
    nonce: u64,
    tag: Seq<u8>,
) -> Option<u64> {
    if is_fresh(highest, nonce) && tag == expected {
        Some(nonce)
    } else {
        highest
    }
}

/// The view of an opened payload.
pub open spec fn opened(r: Result<Vec<u8>, FrameError>) -> Result<Seq<u8>, FrameError> {
    match r {
        Ok(p) => Ok(p@),
        Err(e) => Err(e),
    }
}

/// The bytes of a frame on the wire.
pub open spec fn wire_bytes(nonce: u64, tag: Seq<u8>, payload: Seq<u8>) -> Seq<u8> {
    nonce_bytes(nonce) + tag + payload
}

fn compute_tag(mac_key: &[u8], nonce: u64, payload: &[u8]) -> (r: Vec<u8>)
    ensures
        r@ == tag_of(mac_key@, nonce, payload@),
        r@.len() == MAC_SIZE,
{
    let mut input = encode_nonce(nonce);
    append_bytes(&mut input, payload);
    hmac_sha256(mac_key, input.as_slice())
}

/// Wraps `payload` in a frame tagged under the session's MAC key.
pub fn seal(keys: &SharedKeySet, nonce: u64, payload: &[u8]) -> (r: AuthenticatedFrame)
    ensures
        r.nonce == nonce,
        r.payload@ == payload@,
        r.tag@ == tag_of(keys.mac_key(), nonce, payload@),
        r.tag@.len() == MAC_SIZE,
{
    let tag = compute_tag(keys.mac_key_bytes(), nonce, payload);
    AuthenticatedFrame { nonce, payload: copy_bytes(payload), tag }
}

/// Opens `frame` given the tag that the session's key gives on it: refuses
/// a stale nonce, then a tag that differs (compared in constant time), and
/// records the nonce only when the frame is accepted.
pub fn open_with_expected(
    expected_tag: &[u8],
    frame: &AuthenticatedFrame,
    guard: &mut ReplayGuard,
) -> (r: Result<Vec<u8>, FrameError>)
    ensures
        opened(r) == open_result(expected_tag@, old(guard)@, frame.nonce, frame.payload@, frame.tag@),
        final(guard)@ == guard_after(expected_tag@, old(guard)@, frame.nonce, frame.tag@),
{
    if !guard.is_fresh(frame.nonce) {
        return Err(FrameError::ReplayedNonce);
    }
    if !ct_eq(frame.tag.as_slice(), expected_tag) {
        return Err(FrameError::TagMismatch);
    }
    guard.record(frame.nonce);
    Ok(copy_bytes(frame.payload.as_slice()))
}

/// Opens `frame` under the session's MAC key: `ReplayedNonce` for a nonce
/// that is not fresh, `TagMismatch` for a tag that the key does not give,
/// else the payload, with the nonce recorded.
pub fn open(
    keys: &SharedKeySet,
    frame: &AuthenticatedFrame,
    guard: &mut ReplayGuard,
) -> (r: Result<Vec<u8>, FrameError>)
    ensures
        opened(r) == open_result(
            tag_of(keys.mac_key(), frame.nonce, frame.payload@),
            old(guard)@,
            frame.nonce,
            frame.payload@,
            frame.tag@,
        ),
        final(guard)@ == guard_after(
            tag_of(keys.mac_key(), frame.nonce, frame.payload@),
            old(guard)@,
            frame.nonce,
            frame.tag@,
        ),
{
    let expected = compute_tag(keys.mac_key_bytes(), frame.nonce, frame.payload.as_slice());
    open_with_expected(expected.as_slice(), frame, guard)
}

impl AuthenticatedFrame {
    /// The frame's wire bytes: nonce, tag, payload.
    pub fn to_bytes(&self) -> (r: Vec<u8>)
        ensures
            r@ == wire_bytes(self.nonce, self.tag@, self.payload@),
    {
        let mut r = encode_nonce(self.nonce);
        append_bytes(&mut r, self.tag.as_slice());
        append_bytes(&mut r, self.payload.as_slice());
        r
    }

    /// Reads a frame from its wire bytes; `Truncated` where they are too
    /// short for the nonce and the tag.
    pub fn from_bytes(b: &[u8]) -> (r: Result<AuthenticatedFrame, FrameError>)
        ensures
            b@.len() < FRAME_HEADER_SIZE ==> r == Err::<AuthenticatedFrame, FrameError>(
                FrameError::Truncated,
            ),
            b@.len() >= FRAME_HEADER_SIZE ==> (r matches Ok(f) && f.nonce == nonce_from_bytes(b@)
                && f.tag@ == b@.subrange(NONCE_SIZE as int, FRAME_HEADER_SIZE as int)
                && f.payload@ == b@.subrange(FRAME_HEADER_SIZE as int, b@.len() as int)),
    {
        if b.len() < FRAME_HEADER_SIZE {
            return Err(FrameError::Truncated);
        }
        let nonce = decode_nonce(b);
        let tag = copy_range(b, NONCE_SIZE, FRAME_HEADER_SIZE);
        let payload = copy_range(b, FRAME_HEADER_SIZE, b.len());
        Ok(AuthenticatedFrame { nonce, payload, tag })
    }
}

/// Round trip: a frame sealed under a key opens under the same key, on a
/// receiver that has not seen its nonce, to the payload it was sealed with.
pub proof fn lemma_seal_open_round_trip(
    mac_key: Seq<u8>,
    nonce: u64,
    payload: Seq<u8>,
    highest: Option<u64>,
)
    requires
        is_fresh(highest, nonce),
    ensures
        open_result(tag_of(mac_key, nonce, payload), highest, nonce, payload, tag_of(mac_key, nonce, payload))
            == Ok::<Seq<u8>, FrameError>(payload),
        guard_after(tag_of(mac_key, nonce, payload), highest, nonce, tag_of(mac_key, nonce, payload))
            == Some(nonce),
{
}

/// Replay: a frame accepted once is refused as `ReplayedNonce` the next
/// time it reaches the same receiver.
pub proof fn lemma_replay_rejected(
    expected: Seq<u8>,
    highest: Option<u64>,
    nonce: u64,
    payload: Seq<u8>,
    tag: Seq<u8>,
)
    requires
        open_result(expected, highest, nonce, payload, tag) is Ok,
    ensures
        open_result(expected, guard_after(expected, highest, nonce, tag), nonce, payload, tag)
            == Err::<Seq<u8>, FrameError>(FrameError::ReplayedNonce),
{
}

/// Tampering: flipping one bit of a sealed frame's tag makes a receiver
/// that has not seen its nonce refuse it with `TagMismatch`, and leaves its
/// replay state as it was.
pub proof fn lemma_tag_bit_flip_detected(
    mac_key: Seq<u8>,
    nonce: u64,
    payload: Seq<u8>,
    highest: Option<u64>,
    i: int,
    bit: u8,
)
    requires
        is_fresh(highest, nonce),
        0 <= i < tag_of(mac_key, nonce, payload).len(),
        bit < 8,
    ensures
        ({
            let tag = tag_of(mac_key, nonce, payload);
            let flipped = tag.update(i, tag[i] ^ (1u8 << bit));
            open_result(tag, highest, nonce, payload, flipped)
                == Err::<Seq<u8>, FrameError>(FrameError::TagMismatch)
            && guard_after(tag, highest, nonce, flipped) == highest
        }),
{
    let tag = tag_of(mac_key, nonce, payload);
    let x = tag[i];
    assert(x ^ (1u8 << bit) != x) by (bit_vector)
        requires bit < 8u8;
    let flipped = tag.update(i, x ^ (1u8 << bit));
    assert(flipped[i] != tag[i]);
}

/// Wire round trip: a frame with a full-size tag reads back from its wire
/// bytes as the same nonce, tag and payload.
pub proof fn lemma_wire_round_trip(nonce: u64, tag: Seq<u8>, payload: Seq<u8>)
    requires
        tag.len() == MAC_SIZE,
    ensures
        ({
            let w = wire_bytes(nonce, tag, payload);
            w.len() >= FRAME_HEADER_SIZE
            && nonce_from_bytes(w) == nonce
            && w.subrange(NONCE_SIZE as int, FRAME_HEADER_SIZE as int) == tag
            && w.subrange(FRAME_HEADER_SIZE as int, w.len() as int) == payload
        }),
{
    let w = wire_bytes(nonce, tag, payload);
    lemma_nonce_round_trip(nonce);
    assert(w.subrange(0, 8) == nonce_bytes(nonce));
    assert(nonce_from_bytes(w) == nonce_from_bytes(nonce_bytes(nonce)));
    assert(w.subrange(8, 40) =~= tag);
    assert(w.subrange(40, w.len() as int) =~= payload);
}

} // verus!
