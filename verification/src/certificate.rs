//! One certificate: its DER bytes, and what can be read out of them.
//!
//! A certificate is kept as the exact bytes it was given as. Nothing read out
//! of it is cached: whatever needs a field reads the bytes again.

use vstd::prelude::*;
use p256::NistP256;
use x509_cert::der::{Decode, Encode};
use x509_cert::spki::SubjectPublicKeyInfoRef;
use x509_cert::Certificate;
use crate::error::KeyError;

verus! {

/// The label of the certificate-chain header in a signed credential.
pub const X5CHAIN_HEADER_LABEL: i128 = 33;

/// One DER-encoded X.509 certificate.
///
/// Two certificates are the same certificate exactly when their bytes are the
/// same.
#[derive(Debug, PartialEq, Eq, Hash)]
pub struct X509 {
    pub bytes: Vec<u8>,
}

impl View for X509 {
    type V = Seq<u8>;

    open spec fn view(&self) -> Seq<u8> {
        self.bytes@
    }
}

impl Clone for X509 {
    fn clone(&self) -> (res: Self)
        ensures
            res@ == self@,
    {
        X509 { bytes: self.bytes.clone() }
    }
}

/// The bytes of each certificate of a list, in the list's order.
pub open spec fn der_list(certs: Seq<X509>) -> Seq<Seq<u8>> {
    Seq::new(certs.len(), |i: int| certs[i]@)
}

/// A copy of a list of certificates.
pub(crate) fn clone_certificates(certs: &Vec<X509>) -> (res: Vec<X509>)
    ensures
        res@.len() == certs@.len(),
        der_list(res@) == der_list(certs@),
{
    let mut res: Vec<X509> = Vec::new();
    let mut i: usize = 0;
    while i < certs.len()
        invariant
            i <= certs@.len(),
            res@.len() == i,
            forall|k: int| 0 <= k < i ==> res@[k]@ == certs@[k]@,
        decreases certs@.len() - i,
    {
        res.push(certs[i].clone());
        i += 1;
    }
    assert(der_list(res@) =~= der_list(certs@));
    res
}

/// The elliptic-curve families a public key can be asked for.
#[derive(Debug, Clone, Copy, PartialEq, Eq, Structural)]
#[non_exhaustive]
pub enum Curve {
    /// NIST P-256 (secp256r1).
    P256,
}

/// A public key, as the SEC1 encoding of its curve point.
#[derive(Debug, PartialEq, Eq)]
pub struct PublicKey {
    pub curve: Curve,
    pub sec1: Vec<u8>,
}

/// What validation reads from a certificate.
#[derive(Debug, PartialEq, Eq)]
pub struct CertificateFields {
    /// DER encoding of the to-be-signed part: what the issuer's signature
    /// covers.
    pub to_be_signed: Vec<u8>,
    /// Content of the signature field.
    pub signature: Vec<u8>,
    /// DER encoding of the subject public key info.
    pub public_key_info: Vec<u8>,
    /// DER encoding of the issuer's name.
    pub issuer: Vec<u8>,
    /// DER encoding of the subject's name.
    pub subject: Vec<u8>,
    /// Start of the validity window, in seconds since the Unix epoch.
    pub not_before: u64,
    /// End of the validity window, in seconds since the Unix epoch.
    pub not_after: u64,
}

/// [`CertificateFields`] as mathematical values.
pub struct CertificateFieldsView {
    pub to_be_signed: Seq<u8>,
    pub signature: Seq<u8>,
    pub public_key_info: Seq<u8>,
    pub issuer: Seq<u8>,
    pub subject: Seq<u8>,
    pub not_before: u64,
    pub not_after: u64,
}

impl View for CertificateFields {
    type V = CertificateFieldsView;

    open spec fn view(&self) -> CertificateFieldsView {
        CertificateFieldsView {
            to_be_signed: self.to_be_signed@,
            signature: self.signature@,
            public_key_info: self.public_key_info@,
            issuer: self.issuer@,
            subject: self.subject@,
            not_before: self.not_before,
            not_after: self.not_after,
        }
    }
}

/// What `x509_cert` reads from `der` taken as one X.509 certificate, or `None`
/// where it refuses the bytes.
pub uninterp spec fn x509_fields(der: Seq<u8>) -> Option<CertificateFieldsView>;

/// The SEC1 encoding of the P-256 key that `elliptic_curve` reads from a
/// DER-encoded subject public key info, or `None` where it refuses the bytes.
pub uninterp spec fn p256_public_key(public_key_info: Seq<u8>) -> Option<Seq<u8>>;

/// Reads one certificate with `x509_cert::Certificate::from_der` and hands
/// out the fields that validation needs, each as bytes or as a number.
///
/// Trusted: the result is [`x509_fields`] of the input, that is, the same
/// bytes always read the same way. Nothing else is claimed.
#[verifier::external_body]
pub(crate) fn parse_certificate(der: &[u8]) -> (res: Option<CertificateFields>)
    ensures
        match res {
            Some(fields) => x509_fields(der@) == Some(fields@),
            None => x509_fields(der@) is None,
        },
{
    let cert = Certificate::from_der(der).ok()?;
    let tbs = &cert.tbs_certificate;
    Some(CertificateFields {
        to_be_signed: tbs.to_der().ok()?,
        signature: cert.signature.raw_bytes().to_vec(),
        public_key_info: tbs.subject_public_key_info.to_der().ok()?,
        issuer: tbs.issuer.to_der().ok()?,
        subject: tbs.subject.to_der().ok()?,
        not_before: tbs.validity.not_before.to_unix_duration().as_secs(),
        not_after: tbs.validity.not_after.to_unix_duration().as_secs(),
    })
}

/// Reads a P-256 public key from a DER-encoded subject public key info with
/// `elliptic_curve::PublicKey::try_from`, and encodes it with `to_sec1_bytes`.
///
/// Trusted: the result is [`p256_public_key`] of the input.
#[verifier::external_body]
pub(crate) fn p256_key_from_info(public_key_info: &[u8]) -> (res: Option<Vec<u8>>)
    ensures
        match res {
            Some(key) => p256_public_key(public_key_info@) == Some(key@),
            None => p256_public_key(public_key_info@) is None,
        },
{
    let info = SubjectPublicKeyInfoRef::from_der(public_key_info).ok()?;
    let key = elliptic_curve::PublicKey::<NistP256>::try_from(info).ok()?;
    Some(key.to_sec1_bytes().into_vec())
}

/// The public key of the certificate `der`, or why there is none.
pub open spec fn public_key_of(der: Seq<u8>, curve: Curve) -> Result<Seq<u8>, KeyError> {
    match x509_fields(der) {
        None => Err(KeyError::Malformed),
        Some(fields) => match p256_public_key(fields.public_key_info) {
            None => Err(KeyError::Unusable),
            Some(key) => Ok(key),
        },
    }
}

impl X509 {
    /// The subject's public key, read as a key of `curve`.
    ///
    /// Fails where the bytes are not a certificate, and where the key in it
    /// is not a key of that curve.
    pub fn public_key(&self, curve: Curve) -> (res: Result<PublicKey, KeyError>)
        ensures
            match res {
                Ok(key) => key.curve == curve && public_key_of(self@, curve) == Ok::<Seq<u8>, KeyError>(key.sec1@),
                Err(e) => public_key_of(self@, curve) == Err::<Seq<u8>, KeyError>(e),
            },
    {
        match parse_certificate(self.bytes.as_slice()) {
            None => Err(KeyError::Malformed),
            Some(fields) => match curve {
                Curve::P256 => match p256_key_from_info(fields.public_key_info.as_slice()) {
                    None => Err(KeyError::Unusable),
                    Some(sec1) => Ok(PublicKey { curve, sec1 }),
                },
            },
        }
    }

    /// Whether `other` holds the same bytes.
    pub fn same_bytes(&self, other: &X509) -> (same: bool)
        ensures
            same == (self@ == other@),
    {
        if self.bytes.len() != other.bytes.len() {
            return false;
        }
        let mut i: usize = 0;
        while i < self.bytes.len()
            invariant
                self.bytes.len() == other.bytes.len(),
                i <= self.bytes.len(),
                forall|k: int| 0 <= k < i ==> self.bytes@[k] == other.bytes@[k],
            decreases self.bytes.len() - i,
        {
            if self.bytes[i] != other.bytes[i] {
                return false;
            }
            i += 1;
        }
        assert(self.bytes@ =~= other.bytes@);
        true
    }
}

} // verus!
