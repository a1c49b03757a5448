//! The secp256k1 and SHA-256 operations the attestation checks call.
use vstd::prelude::*;
use secp256k1::{ecdsa, schnorr, Message, PublicKey, XOnlyPublicKey};

verus! {

#[verifier::external_type_specification]
#[verifier::external_body]
pub struct ExPublicKey(PublicKey);

#[verifier::external_type_specification]
#[verifier::external_body]
pub struct ExXOnlyPublicKey(XOnlyPublicKey);

#[verifier::external_type_specification]
#[verifier::external_body]
pub struct ExEcdsaSignature(ecdsa::Signature);

#[verifier::external_type_specification]
#[verifier::external_body]
pub struct ExSchnorrSignature(schnorr::Signature);

#[verifier::external_type_specification]
#[verifier::external_body]
pub struct ExMessage(Message);

#[verifier::external_type_specification]
#[verifier::external_body]
pub struct ExSecpError(secp256k1::Error);

/// The SHA-256 digest of `data`.
pub uninterp spec fn sha256_of(data: Seq<u8>) -> Seq<u8>;

/// Whether `data` is a public key that `PublicKey::from_slice` accepts: a
/// SEC1 encoding of a point on the curve.
pub uninterp spec fn ecdsa_public_key_valid(data: Seq<u8>) -> bool;

/// Whether `data` is a signature that `ecdsa::Signature::from_der` accepts.
pub uninterp spec fn der_signature_valid(data: Seq<u8>) -> bool;

/// Whether `data` is a signature that `ecdsa::Signature::from_compact`
/// accepts.
pub uninterp spec fn compact_signature_valid(data: Seq<u8>) -> bool;

/// Whether `data` is a key that `XOnlyPublicKey::from_slice` accepts: the x
/// coordinate of a point on the curve.
pub uninterp spec fn x_only_key_valid(data: Seq<u8>) -> bool;

/// The key that `PublicKey::from_slice` makes of `data`.
pub uninterp spec fn public_key_of(data: Seq<u8>) -> PublicKey;

/// The signature that `ecdsa::Signature::from_der` makes of `data`.
pub uninterp spec fn der_signature_of(data: Seq<u8>) -> ecdsa::Signature;

/// The signature that `ecdsa::Signature::from_compact` makes of `data`.
pub uninterp spec fn compact_signature_of(data: Seq<u8>) -> ecdsa::Signature;

/// The key that `XOnlyPublicKey::from_slice` makes of `data`.
pub uninterp spec fn x_only_key_of(data: Seq<u8>) -> XOnlyPublicKey;

/// The signature that `schnorr::Signature::from_slice` makes of `data`.
pub uninterp spec fn schnorr_signature_of(data: Seq<u8>) -> schnorr::Signature;

/// The message that `Message::from_digest` makes of `digest`.
pub uninterp spec fn message_of(digest: Seq<u8>) -> Message;

/// Whether `ecdsa::Signature::verify` accepts `sig` for `msg` under `key`.
pub uninterp spec fn ecdsa_verifies(sig: ecdsa::Signature, msg: Message, key: PublicKey) -> bool;

/// Whether `schnorr::Signature::verify` accepts `sig` for `msg` under `key`.
pub uninterp spec fn schnorr_verifies(
    sig: schnorr::Signature,
    msg: Message,
    key: XOnlyPublicKey,
) -> bool;

/// Relies on `Hash::hash` of `bitcoin::hashes::sha256`: the digest of the
/// bytes, a function of them alone.
#[verifier::external_body]
pub(crate) fn sha256_digest(data: &[u8]) -> (r: [u8; 32])
    ensures
        r@ == sha256_of(data@),
{
    let digest = <bitcoin::hashes::sha256::Hash as bitcoin::hashes::Hash>::hash(data);
    bitcoin::hashes::Hash::to_byte_array(digest)
}

/// Relies on `PublicKey::from_slice`: it accepts the valid encodings and no
/// other bytes.
#[verifier::external_body]
pub(crate) fn parse_public_key(data: &[u8]) -> (r: Result<PublicKey, secp256k1::Error>)
    ensures
        r is Ok <==> ecdsa_public_key_valid(data@),
        r matches Ok(k) ==> k == public_key_of(data@),
{
    PublicKey::from_slice(data)
}

/// Relies on `ecdsa::Signature::from_der`: it accepts the valid DER
/// signatures and no other bytes.
#[verifier::external_body]
pub(crate) fn parse_der_signature(data: &[u8]) -> (r: Result<ecdsa::Signature, secp256k1::Error>)
    ensures
        r is Ok <==> der_signature_valid(data@),
        r matches Ok(sig) ==> sig == der_signature_of(data@),
{
    ecdsa::Signature::from_der(data)
}

/// Relies on `ecdsa::Signature::from_compact`: it accepts the valid compact
/// signatures, which are 64 bytes long, and no other bytes.
#[verifier::external_body]
pub(crate) fn parse_compact_signature(data: &[u8]) -> (r: Result<
    ecdsa::Signature,
    secp256k1::Error,
>)
    ensures
        r is Ok <==> compact_signature_valid(data@),
        r matches Ok(sig) ==> sig == compact_signature_of(data@),
        r is Ok ==> data@.len() == 64,
{
    ecdsa::Signature::from_compact(data)
}

/// Relies on `XOnlyPublicKey::from_slice`: it accepts the valid keys, which
/// are 32 bytes long, and no other bytes.
#[verifier::external_body]
pub(crate) fn parse_x_only_key(data: &[u8]) -> (r: Result<XOnlyPublicKey, secp256k1::Error>)
    ensures
        r is Ok <==> x_only_key_valid(data@),
        r matches Ok(k) ==> k == x_only_key_of(data@),
        r is Ok ==> data@.len() == 32,
{
    XOnlyPublicKey::from_slice(data)
}

/// Relies on `schnorr::Signature::from_slice`: it accepts exactly 64 bytes.
#[verifier::external_body]
pub(crate) fn parse_schnorr_signature(data: &[u8]) -> (r: Result<
    schnorr::Signature,
    secp256k1::Error,
>)
    ensures
        r is Ok <==> data@.len() == 64,
        r matches Ok(sig) ==> sig == schnorr_signature_of(data@),
{
    schnorr::Signature::from_slice(data)
}

/// Relies on `Message::from_digest`: the message whose digest is `digest`.
#[verifier::external_body]
pub(crate) fn message_from_digest(digest: [u8; 32]) -> (r: Message)
    ensures
        r == message_of(digest@),
{
    Message::from_digest(digest)
}

/// Relies on `ecdsa::Signature::verify`, which checks with the library's
/// global context: whether the signature holds for the message under the
/// key, a function of the three alone.
#[verifier::external_body]
pub(crate) fn check_ecdsa(sig: &ecdsa::Signature, msg: &Message, key: &PublicKey) -> (r: Result<
    (),
    secp256k1::Error,
>)
    ensures
        r is Ok <==> ecdsa_verifies(*sig, *msg, *key),
{
    sig.verify(msg, key)
}

/// Relies on `schnorr::Signature::verify`, which checks with the library's
/// global context: whether the signature holds for the message under the
/// key, a function of the three alone.
#[verifier::external_body]
pub(crate) fn check_schnorr(
    sig: &schnorr::Signature,
    msg: &Message,
    key: &XOnlyPublicKey,
) -> (r: Result<(), secp256k1::Error>)
    ensures
        r is Ok <==> schnorr_verifies(*sig, *msg, *key),
{
    sig.verify(msg, key)
}

} // verus!
