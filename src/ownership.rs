//! Ownership proofs: a detached signature by the identity key over a piece
//! of text or a blockchain address, shown base58-encoded, so that control of
//! the key can be proved out of band.

use vstd::prelude::*;
use vstd::utf8::encode_utf8;
use crate::bytes::copy_bytes;
use crate::keys::{IdentityKeyPair, signature_valid};
use crate::primitives::{base58_encode, base58_of, bech32_prefix, bech32_prefix_of,
    ed25519_signature_of, trim, trimmed_of};

verus! {

/// Why no ownership proof was made.
#[derive(Debug, Clone, Copy, PartialEq, Eq, Structural)]
pub enum SignError {
    /// Both text and an address were asked for.
    ConflictingArguments,
    /// Neither text nor an address was asked for.
    MissingArgument,
    /// The address is not a valid bech32 string.
    AddressDecode,
    /// The address is of another network.
    PrefixMismatch,
}

/// What one invocation signs.
pub enum SignRequest {
    /// Free-form text.
    Text(String),
    /// The account address derived from the configured mnemonic.
    DerivedAddress,
    /// An address given by the user, checked before it is signed.
    ProvidedAddress(String),
}

/// A detached signature with the bytes it covers.
pub struct OwnershipSignature {
    pub signed_bytes: Vec<u8>,
    pub signature: Vec<u8>,
    /// The signature in base58.
    pub encoded: String,
}

/// Picks what to sign from the request: `text` if given, else the address
/// (the given one, or the derived one where the flag came without a value).
/// Exactly one of the two must be asked for.
pub fn select_request(
    text: Option<String>,
    address_requested: bool,
    address: Option<String>,
) -> (r: Result<SignRequest, SignError>)
    ensures
        text is Some && address_requested ==> (r matches Err(e) && e == SignError::ConflictingArguments),
        text is None && !address_requested ==> (r matches Err(e) && e == SignError::MissingArgument),
        text is Some && !address_requested ==> (r matches Ok(SignRequest::Text(t)) && t@ == text->0@),
        text is None && address_requested && address is None ==> (r matches Ok(SignRequest::DerivedAddress)),
        text is None && address_requested && address is Some ==> (r matches Ok(
            SignRequest::ProvidedAddress(a),
        ) && a@ == address->0@),
{
    match text {
        Some(t) => {
            if address_requested {
                Err(SignError::ConflictingArguments)
            } else {
                Ok(SignRequest::Text(t))
            }
        },
        None => {
            if !address_requested {
                Err(SignError::MissingArgument)
            } else {
                match address {
                    Some(a) => Ok(SignRequest::ProvidedAddress(a)),
                    None => Ok(SignRequest::DerivedAddress),
                }
            }
        },
    }
}

/// Signs `msg` with the identity key.
fn sign_bytes(keys: &IdentityKeyPair, msg: &[u8]) -> (r: OwnershipSignature)
    requires
        keys.wf(),
    ensures
        r.signed_bytes@ == msg@,
        r.signature@ == ed25519_signature_of(keys.secret_key(), msg@),
        signature_valid(keys.public_key(), msg@, r.signature@),
        r.encoded@ == base58_of(r.signature@),
{
    let signature = keys.sign(msg);
    let encoded = base58_encode(signature.as_slice());
    OwnershipSignature { signed_bytes: copy_bytes(msg), signature, encoded }
}

/// Signs the UTF-8 bytes of `text` as given.
pub fn sign_text(keys: &IdentityKeyPair, text: &str) -> (r: OwnershipSignature)
    requires
        keys.wf(),
    ensures
        r.signed_bytes@ == encode_utf8(text@),
        r.signature@ == ed25519_signature_of(keys.secret_key(), encode_utf8(text@)),
        signature_valid(keys.public_key(), encode_utf8(text@), r.signature@),
        r.encoded@ == base58_of(r.signature@),
{
    sign_bytes(keys, text.as_bytes())
}

/// Signs the bytes of an address derived from the account mnemonic.
pub fn sign_derived_address(keys: &IdentityKeyPair, address: &[u8]) -> (r: OwnershipSignature)
    requires
        keys.wf(),
    ensures
        r.signed_bytes@ == address@,
        r.signature@ == ed25519_signature_of(keys.secret_key(), address@),
        signature_valid(keys.public_key(), address@, r.signature@),
        r.encoded@ == base58_of(r.signature@),
{
    sign_bytes(keys, address)
}

/// Checks the decoded human-readable part of an address: `AddressDecode`
/// where there is none, `PrefixMismatch` where it is not `expected_prefix`.
pub fn check_address_prefix(decoded: Option<String>, expected_prefix: &str) -> (r: Result<(), SignError>)
    ensures
        decoded is None ==> r == Err::<(), SignError>(SignError::AddressDecode),
        decoded matches Some(p) && p@ != expected_prefix@ ==> r == Err::<(), SignError>(
            SignError::PrefixMismatch,
        ),
        decoded matches Some(p) && p@ == expected_prefix@ ==> r is Ok,
{
    match decoded {
        None => Err(SignError::AddressDecode),
        Some(p) => {
            let expected = expected_prefix.to_owned();
            if p == expected {
                Ok(())
            } else {
                Err(SignError::PrefixMismatch)
            }
        },
    }
}

/// Signs an address given by the user: white space round it is dropped, and
/// it must decode as bech32 with `expected_prefix` as its human-readable
/// part; the trimmed text is what is signed.
pub fn sign_provided_address(
    keys: &IdentityKeyPair,
    raw_address: &str,
    expected_prefix: &str,
) -> (r: Result<OwnershipSignature, SignError>)
    requires
        keys.wf(),
    ensures
        bech32_prefix_of(trimmed_of(raw_address@)) is None ==> (r matches Err(e) && e
            == SignError::AddressDecode),
        bech32_prefix_of(trimmed_of(raw_address@)) matches Some(p) && p != expected_prefix@ ==> (r matches Err(
            e,
        ) && e == SignError::PrefixMismatch),
        bech32_prefix_of(trimmed_of(raw_address@)) == Some(expected_prefix@) ==> (r matches Ok(s)
            && s.signed_bytes@ == encode_utf8(trimmed_of(raw_address@))
            && s.signature@ == ed25519_signature_of(keys.secret_key(), s.signed_bytes@)
            && signature_valid(keys.public_key(), s.signed_bytes@, s.signature@)
            && s.encoded@ == base58_of(s.signature@)),
{
    let trimmed = trim(raw_address);
    let decoded = bech32_prefix(trimmed);
    match check_address_prefix(decoded, expected_prefix) {
        Err(e) => Err(e),
        Ok(()) => Ok(sign_bytes(keys, trimmed.as_bytes())),
    }
}

} // verus!
