//! Certificate chains of signed mobile credentials.
//!
//! A chain ([`X5Chain`]) is a non-empty, ordered list of DER-encoded X.509
//! certificates: the signer's certificate first, then the issuer of each
//! certificate before it. The crate builds chains from PEM or DER input,
//! carries them to and from their CBOR wire form, and validates them:
//! signatures along the chain, validity windows, and the anchoring of the top
//! certificate in a registry of trust anchors. Validation never stops at the
//! first defect; it returns every defect it found.

pub mod builder;
pub mod cbor;
pub mod certificate;
pub mod chain;
mod clock;
pub mod error;
pub mod guarantees;
pub mod signature;
pub mod trust_anchor;

pub use builder::Builder;
pub use cbor::{decode_x5chain, has_unique_elements, validate_x5chain, validate_x5chain_at, CborValue};
pub use chain::{validate_certificates, X5Chain};
pub use certificate::{CertificateFields, CertificateFieldsView, Curve, PublicKey, X509, X5CHAIN_HEADER_LABEL};
pub use error::{
    BuildError, BuildErrorView, DecodeError, DecodeErrorView, KeyError, SignatureError, ValidationError,
    ValidityError,
};
pub use signature::check_signature;
pub use trust_anchor::{
    check_validity_period, find_anchor, validate_with_trust_anchor, TrustAnchor, TrustAnchorRegistry,
};
