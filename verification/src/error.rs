//! Error values.
//!
//! Two tiers are kept apart. [`BuildError`] and [`DecodeError`] end an
//! operation at once: the input cannot be read as a chain at all.
//! [`ValidationError`] is data: validation collects every defect it finds and
//! hands the whole list back.

use vstd::prelude::*;
use vstd::string::StringExecFns;

verus! {

/// Why a public key could not be taken from a certificate.
#[derive(Debug, Clone, Copy, PartialEq, Eq, Structural)]
pub enum KeyError {
    /// The bytes are not a DER-encoded X.509 certificate.
    Malformed,
    /// The subject public key is not a key of the requested curve.
    Unusable,
}

/// Why one certificate is not shown to be signed by another.
#[derive(Debug, Clone, Copy, PartialEq, Eq, Structural)]
pub enum SignatureError {
    /// The issuer's bytes are not a DER-encoded X.509 certificate.
    IssuerMalformed,
    /// The issuer's subject public key is not a P-256 key.
    IssuerKeyUnusable,
    /// The target's bytes are not a DER-encoded X.509 certificate.
    TargetMalformed,
    /// The target's signature field is not a DER-encoded ECDSA signature.
    SignatureMalformed,
    /// The signature does not verify under the issuer's key.
    Mismatch,
}

/// How a validity window fails to hold the moment of validation.
#[derive(Debug, Clone, Copy, PartialEq, Eq, Structural)]
pub enum ValidityError {
    /// The window ended before the moment of validation.
    Expired,
    /// The window begins after the moment of validation.
    NotYetValid,
}

/// One defect found while validating a chain.
///
/// An `index` is a position in the chain, the signer's certificate being at
/// position 0.
#[derive(Debug, Clone, Copy, PartialEq, Eq, Structural)]
pub enum ValidationError {
    /// The certificate at `index` is not shown to be signed by the
    /// certificate at `index + 1`.
    Signature { index: usize, cause: SignatureError },
    /// The certificate at `index` cannot be read.
    Malformed { index: usize },
    /// The validity window of the certificate at `index` excludes the moment
    /// of validation.
    Validity { index: usize, fault: ValidityError },
    /// No registry was given, or none of its anchors is named as issuer by the
    /// top of the chain.
    NoMatchingTrustAnchor,
    /// The registry entry at `anchor` cannot be read, so the lookup gave up.
    AnchorLookup { anchor: usize },
    /// The top of the chain is not shown to be signed by the matching anchor.
    AnchorSignature { cause: SignatureError },
    /// The validity window of the matching anchor excludes the moment of
    /// validation.
    AnchorValidity { fault: ValidityError },
    /// There is no certificate to validate.
    EmptyChain,
}

/// Why a wire value is not a certificate chain.
///
/// `received` is the item that was found where a byte string was expected,
/// written as its variant's name and content, as in `Integer(42)`.
#[derive(Debug, PartialEq, Eq)]
pub enum DecodeError {
    /// The value is neither a byte string nor an array.
    UnexpectedShape { received: String },
    /// The array element at `index` is not a byte string.
    NotByteString { index: usize, received: String },
    /// Two entries of the array hold the same bytes.
    DuplicateCertificate,
    /// The array has no entries.
    Empty,
}

/// [`DecodeError`] as mathematical values.
pub enum DecodeErrorView {
    UnexpectedShape { received: Seq<char> },
    NotByteString { index: usize, received: Seq<char> },
    DuplicateCertificate,
    Empty,
}

impl View for DecodeError {
    type V = DecodeErrorView;

    open spec fn view(&self) -> DecodeErrorView {
        match *self {
            DecodeError::UnexpectedShape { received } => DecodeErrorView::UnexpectedShape { received: received@ },
            DecodeError::NotByteString { index, received } => DecodeErrorView::NotByteString {
                index,
                received: received@,
            },
            DecodeError::DuplicateCertificate => DecodeErrorView::DuplicateCertificate,
            DecodeError::Empty => DecodeErrorView::Empty,
        }
    }
}

/// Why the builder could not take a certificate, or could not finish.
///
/// A `String` is the reason that the PEM or DER reader gave.
#[derive(Debug, PartialEq, Eq)]
pub enum BuildError {
    /// The input is not a PEM document.
    Pem(String),
    /// The input, given as DER, is not an X.509 certificate.
    DerEncoding(String),
    /// The bytes in the PEM document are not a DER-encoded X.509 certificate.
    Der(String),
    /// The certificate was read but could not be encoded again.
    Encoding(String),
    /// No certificate was given before finishing.
    Empty,
}

/// [`BuildError`] as mathematical values.
pub enum BuildErrorView {
    Pem(Seq<char>),
    DerEncoding(Seq<char>),
    Der(Seq<char>),
    Encoding(Seq<char>),
    Empty,
}

impl View for BuildError {
    type V = BuildErrorView;

    open spec fn view(&self) -> BuildErrorView {
        match *self {
            BuildError::Pem(reason) => BuildErrorView::Pem(reason@),
            BuildError::DerEncoding(reason) => BuildErrorView::DerEncoding(reason@),
            BuildError::Der(reason) => BuildErrorView::Der(reason@),
            BuildError::Encoding(reason) => BuildErrorView::Encoding(reason@),
            BuildError::Empty => BuildErrorView::Empty,
        }
    }
}

impl KeyError {
    /// The text of [`KeyError::message`].
    pub open spec fn message_text(self) -> Seq<char> {
        match self {
            KeyError::Malformed => "could not parse certificate"@,
            KeyError::Unusable => "could not parse public key from pkcs8 spki"@,
        }
    }

    /// A short description of the error, for display.
    pub fn message(&self) -> (text: String)
        ensures
            text@ == self.message_text(),
    {
        match self {
            KeyError::Malformed => "could not parse certificate".to_owned(),
            KeyError::Unusable => "could not parse public key from pkcs8 spki".to_owned(),
        }
    }
}

impl SignatureError {
    /// The text of [`SignatureError::message`].
    pub open spec fn message_text(self) -> Seq<char> {
        match self {
            SignatureError::IssuerMalformed => "could not parse issuer certificate"@,
            SignatureError::IssuerKeyUnusable => "could not parse public key from pkcs8 spki"@,
            SignatureError::TargetMalformed => "could not parse certificate"@,
            SignatureError::SignatureMalformed => "could not parse signature"@,
            SignatureError::Mismatch => "signature does not verify under the issuer's key"@,
        }
    }

    /// A short description of the error, for display.
    pub fn message(&self) -> (text: String)
        ensures
            text@ == self.message_text(),
    {
        match self {
            SignatureError::IssuerMalformed => "could not parse issuer certificate".to_owned(),
            SignatureError::IssuerKeyUnusable => "could not parse public key from pkcs8 spki".to_owned(),
            SignatureError::TargetMalformed => "could not parse certificate".to_owned(),
            SignatureError::SignatureMalformed => "could not parse signature".to_owned(),
            SignatureError::Mismatch => "signature does not verify under the issuer's key".to_owned(),
        }
    }
}

impl ValidationError {
    /// The text of [`ValidationError::message`].
    pub open spec fn message_text(self) -> Seq<char> {
        match self {
            ValidationError::Signature { .. } => "Certificate signature could not be verified"@,
            ValidationError::Malformed { .. } => "Certificate could not be parsed"@,
            ValidationError::Validity { fault: ValidityError::Expired, .. } => "Expired certificate"@,
            ValidationError::Validity { fault: ValidityError::NotYetValid, .. } => "Not yet valid certificate"@,
            ValidationError::NoMatchingTrustAnchor => "No matching trust anchor found"@,
            ValidationError::AnchorLookup { .. } => "Trust anchor could not be parsed"@,
            ValidationError::AnchorSignature { .. } => "Certificate is not signed by its trust anchor"@,
            ValidationError::AnchorValidity { fault: ValidityError::Expired } => "Expired trust anchor"@,
            ValidationError::AnchorValidity { fault: ValidityError::NotYetValid } => "Not yet valid trust anchor"@,
            ValidationError::EmptyChain => "Empty certificate chain"@,
        }
    }

    /// A short description of the defect, for display.
    pub fn message(&self) -> (text: String)
        ensures
            text@ == self.message_text(),
    {
        match self {
            ValidationError::Signature { .. } => "Certificate signature could not be verified".to_owned(),
            ValidationError::Malformed { .. } => "Certificate could not be parsed".to_owned(),
            ValidationError::Validity { fault: ValidityError::Expired, .. } => "Expired certificate".to_owned(),
            ValidationError::Validity { fault: ValidityError::NotYetValid, .. } => "Not yet valid certificate".to_owned(),
            ValidationError::NoMatchingTrustAnchor => "No matching trust anchor found".to_owned(),
            ValidationError::AnchorLookup { .. } => "Trust anchor could not be parsed".to_owned(),
            ValidationError::AnchorSignature { .. } => "Certificate is not signed by its trust anchor".to_owned(),
            ValidationError::AnchorValidity { fault: ValidityError::Expired } => "Expired trust anchor".to_owned(),
            ValidationError::AnchorValidity { fault: ValidityError::NotYetValid } => "Not yet valid trust anchor".to_owned(),
            ValidationError::EmptyChain => "Empty certificate chain".to_owned(),
        }
    }
}

impl Clone for DecodeError {
    fn clone(&self) -> (res: Self)
        ensures
            res@ == self@,
    {
        match self {
            DecodeError::UnexpectedShape { received } => DecodeError::UnexpectedShape { received: received.clone() },
            DecodeError::NotByteString { index, received } => DecodeError::NotByteString {
                index: *index,
                received: received.clone(),
            },
            DecodeError::DuplicateCertificate => DecodeError::DuplicateCertificate,
            DecodeError::Empty => DecodeError::Empty,
        }
    }
}

impl Clone for BuildError {
    fn clone(&self) -> (res: Self)
        ensures
            res@ == self@,
    {
        match self {
            BuildError::Pem(reason) => BuildError::Pem(reason.clone()),
            BuildError::DerEncoding(reason) => BuildError::DerEncoding(reason.clone()),
            BuildError::Der(reason) => BuildError::Der(reason.clone()),
            BuildError::Encoding(reason) => BuildError::Encoding(reason.clone()),
            BuildError::Empty => BuildError::Empty,
        }
    }
}

impl DecodeErrorView {
    /// The text of [`DecodeError::message`].
    pub open spec fn message_text(self) -> Seq<char> {
        match self {
            DecodeErrorView::UnexpectedShape { received } =>
                "Expecting x509 certificate in the x5chain to be a cbor encoded bytestring, but received: "@
                    + received,
            DecodeErrorView::NotByteString { received, .. } =>
                "Expecting x509 certificate in the x5chain to be a cbor encoded bytestring, but received: "@
                    + received,
            DecodeErrorView::DuplicateCertificate => "x5chain header contains at least one duplicate certificate"@,
            DecodeErrorView::Empty => "x5chain header contains no certificate"@,
        }
    }
}

impl DecodeError {
    /// A description of the error, for display: for an item that is no byte
    /// string, what was expected and what was received.
    pub fn message(&self) -> (text: String)
        ensures
            text@ == self@.message_text(),
    {
        match self {
            DecodeError::UnexpectedShape { received } => {
                let mut text =
                    "Expecting x509 certificate in the x5chain to be a cbor encoded bytestring, but received: ".to_owned();
                text.append(received.as_str());
                text
            },
            DecodeError::NotByteString { received, .. } => {
                let mut text =
                    "Expecting x509 certificate in the x5chain to be a cbor encoded bytestring, but received: ".to_owned();
                text.append(received.as_str());
                text
            },
            DecodeError::DuplicateCertificate => "x5chain header contains at least one duplicate certificate".to_owned(),
            DecodeError::Empty => "x5chain header contains no certificate".to_owned(),
        }
    }
}

impl BuildErrorView {
    /// The text of [`BuildError::message`].
    pub open spec fn message_text(self) -> Seq<char> {
        match self {
            BuildErrorView::Pem(reason) => "unable to parse pem: "@ + reason,
            BuildErrorView::DerEncoding(reason) => "unable to parse certificate from der encoding: "@ + reason,
            BuildErrorView::Der(reason) => "unable to parse certificate from der: "@ + reason,
            BuildErrorView::Encoding(reason) => "unable to convert certificate to bytes: "@ + reason,
            BuildErrorView::Empty => "at least one certificate must be given to the builder"@,
        }
    }
}

impl BuildError {
    /// A description of the error, for display: what could not be done, and
    /// the reason that the reader gave.
    pub fn message(&self) -> (text: String)
        ensures
            text@ == self@.message_text(),
    {
        match self {
            BuildError::Pem(reason) => {
                let mut text = "unable to parse pem: ".to_owned();
                text.append(reason.as_str());
                text
            },
            BuildError::DerEncoding(reason) => {
                let mut text = "unable to parse certificate from der encoding: ".to_owned();
                text.append(reason.as_str());
                text
            },
            BuildError::Der(reason) => {
                let mut text = "unable to parse certificate from der: ".to_owned();
                text.append(reason.as_str());
                text
            },
            BuildError::Encoding(reason) => {
                let mut text = "unable to convert certificate to bytes: ".to_owned();
                text.append(reason.as_str());
                text
            },
            BuildError::Empty => "at least one certificate must be given to the builder".to_owned(),
        }
    }
}

} // verus!
