//! Checks device attestations: a fixed sequence of input checks, then the
//! signature check of the attestation's scheme over the payload's SHA-256
//! digest.
use vstd::prelude::*;
use vstd::utf8::encode_utf8;
use crate::crypto::{
    check_ecdsa, check_schnorr, compact_signature_of, compact_signature_valid,
    der_signature_of, der_signature_valid, ecdsa_public_key_valid, ecdsa_verifies,
    message_from_digest, message_of, parse_compact_signature, parse_der_signature,
    parse_public_key, parse_schnorr_signature, parse_x_only_key, public_key_of,
    schnorr_signature_of, schnorr_verifies, sha256_digest, sha256_of, x_only_key_of,
    x_only_key_valid,
};
use crate::hexcode::{decode_hex, hex_decoding};
use crate::model::{Attestation, AttestationRequest, SchnorrAttestation};
use crate::text::{has_prefix, owned, starts_with};

verus! {

/// The namespace every device identifier starts with.
pub open spec fn device_prefix() -> Seq<char> {
    "conxius-"@
}

/// A field that must not be empty.
#[derive(Debug, Clone, Copy, PartialEq, Eq, Structural)]
pub enum SignedField {
    Signature,
    Payload,
}

/// Why an attestation was not accepted.
#[derive(Debug, Clone, Copy, PartialEq, Eq, Structural)]
pub enum VerificationError {
    InvalidDeviceId,
    EmptyField(SignedField),
    InvalidPublicKey,
    InvalidSignatureFormat,
    VerificationFailed,
}

/// The text that describes a rejection.
pub open spec fn rejection_text(e: VerificationError) -> Seq<char> {
    match e {
        VerificationError::InvalidDeviceId => "Invalid device ID: must start with 'conxius-'"@,
        VerificationError::EmptyField(SignedField::Signature) => "Attestation signature cannot be empty"@,
        VerificationError::EmptyField(SignedField::Payload) => "Attestation payload cannot be empty"@,
        VerificationError::InvalidPublicKey => "Invalid public key"@,
        VerificationError::InvalidSignatureFormat => "Invalid signature format"@,
        VerificationError::VerificationFailed => "Signature verification failed"@,
    }
}

impl VerificationError {
    /// The text that describes this rejection.
    pub fn message(&self) -> (r: String)
        ensures
            r@ == rejection_text(*self),
    {
        match self {
            VerificationError::InvalidDeviceId => owned("Invalid device ID: must start with 'conxius-'"),
            VerificationError::EmptyField(SignedField::Signature) => owned("Attestation signature cannot be empty"),
            VerificationError::EmptyField(SignedField::Payload) => owned("Attestation payload cannot be empty"),
            VerificationError::InvalidPublicKey => owned("Invalid public key"),
            VerificationError::InvalidSignatureFormat => owned("Invalid signature format"),
            VerificationError::VerificationFailed => owned("Signature verification failed"),
        }
    }
}

/// The checks both schemes start with: the device namespace, then a
/// signature and a payload that are not empty.
pub open spec fn field_rejection(
    device_id: Seq<char>,
    signature: Seq<char>,
    payload: Seq<char>,
) -> Option<VerificationError> {
    if !has_prefix(device_id, device_prefix()) {
        Some(VerificationError::InvalidDeviceId)
    } else if signature.len() == 0 {
        Some(VerificationError::EmptyField(SignedField::Signature))
    } else if payload.len() == 0 {
        Some(VerificationError::EmptyField(SignedField::Payload))
    } else {
        None
    }
}

/// The first check an ECDSA attestation fails before its signature is
/// checked, if any.
pub open spec fn ecdsa_rejection(a: Attestation) -> Option<VerificationError> {
    match field_rejection(a.device_id@, a.signature@, a.payload@) {
        Some(e) => Some(e),
        None => match hex_decoding(a.public_key@) {
            None => Some(VerificationError::InvalidPublicKey),
            Some(key) => if !ecdsa_public_key_valid(key) {
                Some(VerificationError::InvalidPublicKey)
            } else {
                match hex_decoding(a.signature@) {
                    None => Some(VerificationError::InvalidSignatureFormat),
                    Some(sig) => if !der_signature_valid(sig) && !compact_signature_valid(sig) {
                        Some(VerificationError::InvalidSignatureFormat)
                    } else {
                        None
                    }
                }
            },
        },
    }
}

/// The first check a Schnorr attestation fails before its signature is
/// checked, if any.
pub open spec fn schnorr_rejection(a: SchnorrAttestation) -> Option<VerificationError> {
    match field_rejection(a.device_id@, a.signature@, a.payload@) {
        Some(e) => Some(e),
        None => match hex_decoding(a.x_only_public_key@) {
            None => Some(VerificationError::InvalidPublicKey),
            Some(key) => if !x_only_key_valid(key) {
                Some(VerificationError::InvalidPublicKey)
            } else {
                match hex_decoding(a.signature@) {
                    None => Some(VerificationError::InvalidSignatureFormat),
                    Some(sig) => if sig.len() != 64 {
                        Some(VerificationError::InvalidSignatureFormat)
                    } else {
                        None
                    }
                }
            },
        },
    }
}

/// The first check a request fails before its signature is checked, if any.
pub open spec fn request_rejection(req: AttestationRequest) -> Option<VerificationError> {
    match req {
        AttestationRequest::Ecdsa(a) => ecdsa_rejection(a),
        AttestationRequest::Schnorr(a) => schnorr_rejection(a),
    }
}

/// The message a signature must cover: the SHA-256 digest of the payload's
/// UTF-8 bytes.
pub open spec fn payload_message(payload: Seq<char>) -> secp256k1::Message {
    message_of(sha256_of(encode_utf8(payload)))
}

/// Whether the ECDSA signature of `a` holds over its payload under its key:
/// the signature read as DER where that form is valid, else as compact.
pub open spec fn ecdsa_accepts(a: Attestation) -> bool {
    match (hex_decoding(a.public_key@), hex_decoding(a.signature@)) {
        (Some(key), Some(sig)) => ecdsa_verifies(
            if der_signature_valid(sig) {
                der_signature_of(sig)
            } else {
                compact_signature_of(sig)
            },
            payload_message(a.payload@),
            public_key_of(key),
        ),
        _ => false,
    }
}

/// Whether the Schnorr signature of `a` holds over its payload under its
/// x-only key.
pub open spec fn schnorr_accepts(a: SchnorrAttestation) -> bool {
    match (hex_decoding(a.x_only_public_key@), hex_decoding(a.signature@)) {
        (Some(key), Some(sig)) => schnorr_verifies(
            schnorr_signature_of(sig),
            payload_message(a.payload@),
            x_only_key_of(key),
        ),
        _ => false,
    }
}

/// Whether a request's signature holds under the scheme its tag names.
pub open spec fn request_accepts(req: AttestationRequest) -> bool {
    match req {
        AttestationRequest::Ecdsa(a) => ecdsa_accepts(a),
        AttestationRequest::Schnorr(a) => schnorr_accepts(a),
    }
}

/// The answer for an attestation that passed every input check: accepted
/// when its signature holds, `VerificationFailed` when not.
pub open spec fn verdict(accepted: bool) -> Result<bool, VerificationError> {
    if accepted {
        Ok(true)
    } else {
        Err(VerificationError::VerificationFailed)
    }
}

/// The answer once the signature check ran: accepted if it held, and
/// `VerificationFailed` if not.
pub fn signature_verdict(check: &Result<(), secp256k1::Error>) -> (r: Result<bool, VerificationError>)
    ensures
        r == if check is Ok {
            Ok::<bool, VerificationError>(true)
        } else {
            Err::<bool, VerificationError>(VerificationError::VerificationFailed)
        },
{
    match check {
        Ok(()) => Ok(true),
        Err(_) => Err(VerificationError::VerificationFailed),
    }
}

/// Checks attestations. It holds no state: each check depends on its input
/// alone.
pub struct ZkcVerifier {}

impl Default for ZkcVerifier {
    fn default() -> (r: ZkcVerifier) {
        ZkcVerifier::new()
    }
}

impl ZkcVerifier {
    /// A verifier; the signature checks use secp256k1's global context.
    pub fn new() -> (r: ZkcVerifier) {
        ZkcVerifier {  }
    }

    /// Checks the fields every attestation carries.
    fn check_fields(device_id: &str, signature: &str, payload: &str) -> (r: Result<
        (),
        VerificationError,
    >)
        ensures
            r == match field_rejection(device_id@, signature@, payload@) {
                Some(e) => Err::<(), VerificationError>(e),
                None => Ok(()),
            },
    {
        if !starts_with(device_id, "conxius-") {
            return Err(VerificationError::InvalidDeviceId);
        }
        if signature.unicode_len() == 0 {
            return Err(VerificationError::EmptyField(SignedField::Signature));
        }
        if payload.unicode_len() == 0 {
            return Err(VerificationError::EmptyField(SignedField::Payload));
        }
        Ok(())
    }

    /// Checks an ECDSA attestation. It fails with the first input check it
    /// fails, in this order: the device namespace, a non-empty signature and
    /// payload, a hexadecimal public key that is a valid curve point, a
    /// hexadecimal signature in DER or else in compact form. Past those, it
    /// returns `Ok(true)` if the signature holds over the SHA-256 digest of
    /// the payload's bytes, and `VerificationFailed` if not. The answer
    /// depends on the attestation alone, and nothing is changed.
    pub fn verify(&self, attestation: &Attestation) -> (r: Result<bool, VerificationError>)
        ensures
            match ecdsa_rejection(*attestation) {
                Some(e) => r == Err::<bool, VerificationError>(e),
                None => r == verdict(ecdsa_accepts(*attestation)),
            },
    {
        if let Err(e) = Self::check_fields(
            attestation.device_id.as_str(),
            attestation.signature.as_str(),
            attestation.payload.as_str(),
        ) {
            return Err(e);
        }
        let key_bytes = match decode_hex(attestation.public_key.as_str()) {
            Ok(b) => b,
            Err(_) => return Err(VerificationError::InvalidPublicKey),
        };
        let key = match parse_public_key(key_bytes.as_slice()) {
            Ok(k) => k,
            Err(_) => return Err(VerificationError::InvalidPublicKey),
        };
        let sig_bytes = match decode_hex(attestation.signature.as_str()) {
            Ok(b) => b,
            Err(_) => return Err(VerificationError::InvalidSignatureFormat),
        };
        let sig = match parse_der_signature(sig_bytes.as_slice()) {
            Ok(s) => s,
            Err(_) => match parse_compact_signature(sig_bytes.as_slice()) {
                Ok(s) => s,
                Err(_) => return Err(VerificationError::InvalidSignatureFormat),
            },
        };
        let digest = sha256_digest(attestation.payload.as_str().as_bytes());
        let message = message_from_digest(digest);
        signature_verdict(&check_ecdsa(&sig, &message, &key))
    }

    /// Checks a Schnorr attestation. It fails with the first input check it
    /// fails, in this order: the device namespace, a non-empty signature and
    /// payload, a hexadecimal x-only key that is a valid curve point, a
    /// hexadecimal signature of 64 bytes. Past those, it returns `Ok(true)`
    /// if the signature holds over the SHA-256 digest of the payload's bytes,
    /// and `VerificationFailed` if not. The answer depends on the attestation
    /// alone, and nothing is changed.
    pub fn verify_schnorr(&self, attestation: &SchnorrAttestation) -> (r: Result<
        bool,
        VerificationError,
    >)
        ensures
            match schnorr_rejection(*attestation) {
                Some(e) => r == Err::<bool, VerificationError>(e),
                None => r == verdict(schnorr_accepts(*attestation)),
            },
    {
        if let Err(e) = Self::check_fields(
            attestation.device_id.as_str(),
            attestation.signature.as_str(),
            attestation.payload.as_str(),
        ) {
            return Err(e);
        }
        let key_bytes = match decode_hex(attestation.x_only_public_key.as_str()) {
            Ok(b) => b,
            Err(_) => return Err(VerificationError::InvalidPublicKey),
        };
        let key = match parse_x_only_key(key_bytes.as_slice()) {
            Ok(k) => k,
            Err(_) => return Err(VerificationError::InvalidPublicKey),
        };
        let sig_bytes = match decode_hex(attestation.signature.as_str()) {
            Ok(b) => b,
            Err(_) => return Err(VerificationError::InvalidSignatureFormat),
        };
        let sig = match parse_schnorr_signature(sig_bytes.as_slice()) {
            Ok(s) => s,
            Err(_) => return Err(VerificationError::InvalidSignatureFormat),
        };
        let digest = sha256_digest(attestation.payload.as_str().as_bytes());
        let message = message_from_digest(digest);
        signature_verdict(&check_schnorr(&sig, &message, &key))
    }

    /// Checks a request under the scheme its tag names.
    pub fn verify_request(&self, request: &AttestationRequest) -> (r: Result<
        bool,
        VerificationError,
    >)
        ensures
            match request_rejection(*request) {
                Some(e) => r == Err::<bool, VerificationError>(e),
                None => r == verdict(request_accepts(*request)),
            },
    {
        match request {
            AttestationRequest::Ecdsa(a) => self.verify(a),
            AttestationRequest::Schnorr(a) => self.verify_schnorr(a),
        }
    }
}

/// An attestation whose device identifier lies outside the namespace is
/// rejected as such, under either scheme, whatever its other fields hold.
pub proof fn lemma_foreign_device_rejected(request: AttestationRequest)
    ensures
        !has_prefix(
            match request {
                AttestationRequest::Ecdsa(a) => a.device_id@,
                AttestationRequest::Schnorr(a) => a.device_id@,
            },
            device_prefix(),
        ) ==> request_rejection(request) == Some(VerificationError::InvalidDeviceId),
{
}

} // verus!
