//! Whether one certificate is signed by another.
//!
//! Signatures are ECDSA over P-256 with SHA-256. The arithmetic is the `ecdsa`
//! and `p256` crates'; this module decides in which order the parts are read
//! and which failure is reported.

use vstd::prelude::*;
use ::signature::Verifier;
use p256::NistP256;
use crate::certificate::{parse_certificate, public_key_of, x509_fields, Curve, X509};
use crate::error::{KeyError, SignatureError};

verus! {

/// The fixed-width form (`r` then `s`) of the signature that `ecdsa` reads
/// from its DER encoding, or `None` where it refuses the bytes.
pub uninterp spec fn p256_signature(der: Seq<u8>) -> Option<Seq<u8>>;

/// Whether `ecdsa` accepts `signature`, in fixed-width form, as a signature
/// of `message` under the P-256 key with SEC1 encoding `key`.
pub uninterp spec fn p256_verifies(key: Seq<u8>, message: Seq<u8>, signature: Seq<u8>) -> bool;

/// Reads a DER-encoded signature with `ecdsa::Signature::from_der` and hands
/// it out in fixed-width form.
///
/// Trusted: the result is [`p256_signature`] of the input.
#[verifier::external_body]
fn p256_signature_from_der(der: &[u8]) -> (res: Option<Vec<u8>>)
    ensures
        match res {
            Some(signature) => p256_signature(der@) == Some(signature@),
            None => p256_signature(der@) is None,
        },
{
    let signature = ecdsa::Signature::<NistP256>::from_der(der).ok()?;
    Some(signature.to_vec())
}

/// Verifies with `ecdsa::VerifyingKey::verify`, after reading the key with
/// `from_sec1_bytes` and the signature with `from_slice`.
///
/// Trusted: the result is [`p256_verifies`] of the inputs; it is `false` where
/// the key or the signature cannot be read.
#[verifier::external_body]
fn p256_verify(key: &[u8], message: &[u8], signature: &[u8]) -> (accepted: bool)
    ensures
        accepted == p256_verifies(key@, message@, signature@),
{
    let key = match ecdsa::VerifyingKey::<NistP256>::from_sec1_bytes(key) {
        Ok(key) => key,
        Err(_) => return false,
    };
    let signature = match ecdsa::Signature::<NistP256>::from_slice(signature) {
        Ok(signature) => signature,
        Err(_) => return false,
    };
    key.verify(message, &signature).is_ok()
}

/// Whether the certificate `target` is signed by the key of the certificate
/// `issuer`, and if not, the first thing that stood in the way.
///
/// The issuer's key is read first, then the target, then the target's
/// signature; only then is the signature verified over the target's
/// to-be-signed bytes.
pub open spec fn signature_check(target: Seq<u8>, issuer: Seq<u8>) -> Result<(), SignatureError> {
    match public_key_of(issuer, Curve::P256) {
        Err(KeyError::Malformed) => Err(SignatureError::IssuerMalformed),
        Err(KeyError::Unusable) => Err(SignatureError::IssuerKeyUnusable),
        Ok(key) => match x509_fields(target) {
            None => Err(SignatureError::TargetMalformed),
            Some(fields) => match p256_signature(fields.signature) {
                None => Err(SignatureError::SignatureMalformed),
                Some(signature) => if p256_verifies(key, fields.to_be_signed, signature) {
                    Ok(())
                } else {
                    Err(SignatureError::Mismatch)
                },
            },
        },
    }
}

/// Checks that `target` is signed by the key of `issuer`.
pub fn check_signature(target: &X509, issuer: &X509) -> (res: Result<(), SignatureError>)
    ensures
        res == signature_check(target@, issuer@),
{
    let key = match issuer.public_key(Curve::P256) {
        Ok(key) => key,
        Err(KeyError::Malformed) => return Err(SignatureError::IssuerMalformed),
        Err(KeyError::Unusable) => return Err(SignatureError::IssuerKeyUnusable),
    };
    let fields = match parse_certificate(target.bytes.as_slice()) {
        Some(fields) => fields,
        None => return Err(SignatureError::TargetMalformed),
    };
    let signature = match p256_signature_from_der(fields.signature.as_slice()) {
        Some(signature) => signature,
        None => return Err(SignatureError::SignatureMalformed),
    };
    if p256_verify(key.sec1.as_slice(), fields.to_be_signed.as_slice(), signature.as_slice()) {
        Ok(())
    } else {
        Err(SignatureError::Mismatch)
    }
}

} // verus!
