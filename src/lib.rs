//! Client-gateway session layer: identity keys, nonce discipline, the
//! registration handshake, authenticated frames and ownership proofs; and a
//! bounded, time-limited cache for serving node metadata.

pub mod primitives;
pub mod bytes;
pub mod cache;
pub mod frame;
pub mod handshake;
pub mod keys;
pub mod nonce;
pub mod ownership;
