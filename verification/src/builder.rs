//! Building a chain from PEM or DER input.

use vstd::prelude::*;
use x509_cert::der::{Decode, Encode};
use x509_cert::Certificate;
use crate::certificate::{clone_certificates, der_list, X509};
use crate::chain::X5Chain;
use crate::error::{BuildError, BuildErrorView};

verus! {

/// The bytes that `pem_rfc7468` reads out of the PEM document `pem`, or `None`
/// where it refuses the document.
pub uninterp spec fn pem_document(pem: Seq<u8>) -> Option<Seq<u8>>;

/// The text of the error with which `pem_rfc7468` refuses the document `pem`.
pub uninterp spec fn pem_refusal(pem: Seq<u8>) -> Seq<char>;

/// What `x509_cert` makes of `der` when it reads it as one X.509 certificate
/// and encodes that certificate again: `None` where it refuses the bytes,
/// `Some(None)` where it reads them but cannot encode what it read, and else
/// the new encoding.
pub uninterp spec fn x509_reencoded(der: Seq<u8>) -> Option<Option<Seq<u8>>>;

/// The text of the error with which `x509_cert` refuses to read `der` as one
/// X.509 certificate, or to encode what it read.
pub uninterp spec fn x509_refusal(der: Seq<u8>) -> Seq<char>;

/// Reads a PEM document with `pem_rfc7468::decode_vec` and hands out the
/// bytes it holds, or else the text of the error. The label of the document
/// is not looked at.
///
/// Trusted: the bytes are [`pem_document`] of the input, and the text is
/// [`pem_refusal`] of it.
#[verifier::external_body]
fn decode_pem(pem: &[u8]) -> (res: Result<Vec<u8>, String>)
    ensures
        match res {
            Ok(der) => pem_document(pem@) == Some(der@),
            Err(reason) => pem_document(pem@) is None && reason@ == pem_refusal(pem@),
        },
{
    match pem_rfc7468::decode_vec(pem) {
        Ok((_, der)) => Ok(der),
        Err(e) => Err(e.to_string()),
    }
}

/// Reads one certificate with `x509_cert::Certificate::from_der` and encodes
/// it again with `to_der`. The outer error is the text of the error of
/// reading, the inner one that of encoding.
///
/// Trusted: the bytes are [`x509_reencoded`] of the input, and either text is
/// [`x509_refusal`] of it.
#[verifier::external_body]
fn reencode_certificate(der: &[u8]) -> (res: Result<Result<Vec<u8>, String>, String>)
    ensures
        match res {
            Ok(Ok(canonical)) => x509_reencoded(der@) == Some(Some(canonical@)),
            Ok(Err(reason)) => x509_reencoded(der@) == Some(None::<Seq<u8>>) && reason@ == x509_refusal(der@),
            Err(reason) => x509_reencoded(der@) is None && reason@ == x509_refusal(der@),
        },
{
    let cert = match Certificate::from_der(der) {
        Ok(cert) => cert,
        Err(e) => return Err(e.to_string()),
    };
    match cert.to_der() {
        Ok(canonical) => Ok(Ok(canonical)),
        Err(e) => Ok(Err(e.to_string())),
    }
}

/// The bytes under which the builder keeps the certificate given as `der`, or
/// why it does not take it.
pub open spec fn canonical_of_der(der: Seq<u8>) -> Result<Seq<u8>, BuildErrorView> {
    match x509_reencoded(der) {
        None => Err(BuildErrorView::DerEncoding(x509_refusal(der))),
        Some(None) => Err(BuildErrorView::Encoding(x509_refusal(der))),
        Some(Some(canonical)) => Ok(canonical),
    }
}

/// The bytes under which the builder keeps the certificate given as the PEM
/// document `pem`, or why it does not take it.
pub open spec fn canonical_of_pem(pem: Seq<u8>) -> Result<Seq<u8>, BuildErrorView> {
    match pem_document(pem) {
        None => Err(BuildErrorView::Pem(pem_refusal(pem))),
        Some(der) => match x509_reencoded(der) {
            None => Err(BuildErrorView::Der(x509_refusal(der))),
            Some(None) => Err(BuildErrorView::Encoding(x509_refusal(der))),
            Some(Some(canonical)) => Ok(canonical),
        },
    }
}

/// Collects certificates, in the order in which they are given, for a chain.
///
/// The certificate given first is the signer's; the caller gives the issuers
/// after it, each after the certificate it issued.
#[derive(Debug)]
pub struct Builder {
    certs: Vec<X509>,
}

impl View for Builder {
    type V = Seq<Seq<u8>>;

    closed spec fn view(&self) -> Seq<Seq<u8>> {
        der_list(self.certs@)
    }
}

impl Builder {
    /// A builder without certificates.
    pub fn new() -> (res: Self)
        ensures
            res@ == Seq::<Seq<u8>>::empty(),
    {
        let res = Builder { certs: Vec::new() };
        assert(res@ =~= Seq::<Seq<u8>>::empty());
        res
    }

    /// Takes one certificate given as DER bytes. It is read, encoded again,
    /// and kept in that encoding behind the certificates taken before.
    pub fn with_der(self, data: &[u8]) -> (res: Result<Builder, BuildError>)
        ensures
            match res {
                Ok(builder) => canonical_of_der(data@) matches Ok(canonical) && builder@ == self@.push(canonical)
                    && builder@.len() == self@.len() + 1,
                Err(e) => canonical_of_der(data@) == Err::<Seq<u8>, BuildErrorView>(e@),
            },
    {
        let bytes = match reencode_certificate(data) {
            Err(reason) => return Err(BuildError::DerEncoding(reason)),
            Ok(Err(reason)) => return Err(BuildError::Encoding(reason)),
            Ok(Ok(bytes)) => bytes,
        };
        Ok(self.with_certificate(bytes))
    }

    /// Takes one certificate given as a PEM document. The bytes in the
    /// document are read as DER, encoded again, and kept in that encoding
    /// behind the certificates taken before.
    pub fn with_pem(self, data: &[u8]) -> (res: Result<Builder, BuildError>)
        ensures
            match res {
                Ok(builder) => canonical_of_pem(data@) matches Ok(canonical) && builder@ == self@.push(canonical)
                    && builder@.len() == self@.len() + 1,
                Err(e) => canonical_of_pem(data@) == Err::<Seq<u8>, BuildErrorView>(e@),
            },
    {
        let der = match decode_pem(data) {
            Err(reason) => return Err(BuildError::Pem(reason)),
            Ok(der) => der,
        };
        let bytes = match reencode_certificate(der.as_slice()) {
            Err(reason) => return Err(BuildError::Der(reason)),
            Ok(Err(reason)) => return Err(BuildError::Encoding(reason)),
            Ok(Ok(bytes)) => bytes,
        };
        Ok(self.with_certificate(bytes))
    }

    /// The builder with the certificate `bytes` behind the certificates taken
    /// before.
    fn with_certificate(self, bytes: Vec<u8>) -> (res: Builder)
        ensures
            res@ == self@.push(bytes@),
            res@.len() == self@.len() + 1,
    {
        let mut certs = self.certs;
        certs.push(X509 { bytes });
        let res = Builder { certs };
        assert(res@ =~= self@.push(bytes@));
        res
    }

    /// The chain of the certificates taken, in the order in which they were
    /// given. Fails where none was taken.
    pub fn build(self) -> (res: Result<X5Chain, BuildError>)
        ensures
            match res {
                Ok(chain) => self@.len() >= 1 && chain@ == self@,
                Err(e) => self@.len() == 0 && e@ == BuildErrorView::Empty,
            },
    {
        match X5Chain::new(self.certs) {
            Some(chain) => Ok(chain),
            None => Err(BuildError::Empty),
        }
    }
}

impl Default for Builder {
    fn default() -> (res: Self)
        ensures
            res@ == Seq::<Seq<u8>>::empty(),
    {
        Builder::new()
    }
}

impl Clone for Builder {
    fn clone(&self) -> (res: Self)
        ensures
            res@ == self@,
    {
        Builder { certs: clone_certificates(&self.certs) }
    }
}

} // verus!
