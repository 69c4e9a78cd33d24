//! The chain of certificates and its validation.
//!
//! Validation makes three passes and reports what each of them finds, in this
//! order: the signature of every certificate under the key of the next one,
//! the validity window of every certificate, and the anchoring of the top
//! certificate in the registry. No pass stops at a defect, and none keeps
//! another from running.

use vstd::prelude::*;
use crate::builder::Builder;
use crate::cbor::{encodes, is_byte_string, CborValue};
use crate::certificate::{clone_certificates, der_list, parse_certificate, x509_fields, X509};
use crate::clock::unix_time;
use crate::error::{ValidationError, ValidityError};
use crate::signature::{check_signature, signature_check};
use crate::trust_anchor::{
    anchor_errors, anchor_lookup, check_validity_period, find_anchor, registry_view, validate_with_trust_anchor,
    validity_faults, TrustAnchorRegistry,
};

verus! {

/// What the first pass reports for the first `pairs` adjacent pairs of
/// `chain`: for each pair, in order, the reason why the earlier certificate is
/// not shown to be signed by the later one, if there is one.
pub open spec fn signature_errors(chain: Seq<Seq<u8>>, pairs: nat) -> Seq<ValidationError>
    decreases pairs,
{
    if pairs == 0 {
        Seq::empty()
    } else {
        let index = (pairs - 1) as int;
        let before = signature_errors(chain, (pairs - 1) as nat);
        match signature_check(chain[index], chain[index + 1]) {
            Ok(_) => before,
            Err(cause) => before.push(ValidationError::Signature { index: index as usize, cause }),
        }
    }
}

/// The faults of the validity window of the certificate at `index`, as
/// validation errors.
pub open spec fn validity_errors_at(index: usize, faults: Seq<ValidityError>) -> Seq<ValidationError> {
    Seq::new(faults.len(), |j: int| ValidationError::Validity { index, fault: faults[j] })
}

/// What the second pass reports for the certificate `der` at `index`, at the
/// moment `now`: that it cannot be read, or the faults of its validity
/// window.
pub open spec fn certificate_validity_errors(der: Seq<u8>, index: usize, now: u64) -> Seq<ValidationError> {
    match x509_fields(der) {
        None => seq![ValidationError::Malformed { index }],
        Some(fields) => validity_errors_at(index, validity_faults(fields.not_before, fields.not_after, now)),
    }
}

/// What the second pass reports for the first `count` certificates of
/// `chain`, in chain order.
pub open spec fn validity_errors(chain: Seq<Seq<u8>>, now: u64, count: nat) -> Seq<ValidationError>
    decreases count,
{
    if count == 0 {
        Seq::empty()
    } else {
        let index = (count - 1) as int;
        validity_errors(chain, now, (count - 1) as nat) + certificate_validity_errors(
            chain[index],
            index as usize,
            now,
        )
    }
}

/// What the third pass reports: how the last certificate of `chain` fails to
/// be anchored in `registry` at the moment `now`.
pub open spec fn top_errors(chain: Seq<Seq<u8>>, registry: Option<Seq<Seq<u8>>>, now: u64) -> Seq<
    ValidationError,
> {
    if chain.len() == 0 {
        seq![ValidationError::EmptyChain]
    } else {
        let top = chain.last();
        match x509_fields(top) {
            None => seq![ValidationError::Malformed { index: (chain.len() - 1) as usize }],
            Some(fields) => match anchor_lookup(fields.issuer, registry) {
                Err(e) => seq![e],
                Ok(None) => seq![ValidationError::NoMatchingTrustAnchor],
                Ok(Some(anchor)) => anchor_errors(top, anchor, now),
            },
        }
    }
}

/// The number of adjacent pairs in a list of `len` certificates.
pub open spec fn adjacent_pairs(len: nat) -> nat {
    if len == 0 {
        0
    } else {
        (len - 1) as nat
    }
}

/// Every defect of `chain` against `registry` at the moment `now`: the
/// signature errors, then the validity errors, then the anchoring errors. The
/// list is empty exactly when the chain is trusted.
pub open spec fn validation_errors(chain: Seq<Seq<u8>>, registry: Option<Seq<Seq<u8>>>, now: u64) -> Seq<
    ValidationError,
> {
    signature_errors(chain, adjacent_pairs(chain.len())) + validity_errors(chain, now, chain.len()) + top_errors(
        chain,
        registry,
        now,
    )
}

/// Whether the certificate `der` can be read and its validity window holds
/// the moment `now`.
pub open spec fn within_validity(der: Seq<u8>, now: u64) -> bool {
    x509_fields(der) matches Some(fields) && fields.not_before <= now <= fields.not_after
}

/// Whether the certificate `der` can be read and its validity window has
/// the fault `fault` at the moment `now`.
pub open spec fn has_fault(der: Seq<u8>, now: u64, fault: ValidityError) -> bool {
    x509_fields(der) matches Some(fields) && validity_faults(fields.not_before, fields.not_after, now).contains(
        fault,
    )
}

/// Whether the certificate at position `i` of `chain` is signed by the key of
/// the certificate after it.
pub open spec fn signed_by_next(chain: Seq<Seq<u8>>, i: int) -> bool {
    signature_check(chain[i], chain[i + 1]) is Ok
}

/// Whether the certificate `top` is anchored in `registry` at the moment
/// `now`: the registry holds an anchor for the issuer that `top` names, the
/// anchor's key confirms the signature of `top`, and the anchor's validity
/// window holds `now`.
pub open spec fn anchored(top: Seq<u8>, registry: Option<Seq<Seq<u8>>>, now: u64) -> bool {
    &&& x509_fields(top) matches Some(fields)
    &&& anchor_lookup(fields.issuer, registry) matches Ok(Some(anchor))
    &&& signature_check(top, anchor) is Ok
    &&& within_validity(anchor, now)
}

/// Whether `chain` is trusted against `registry` at the moment `now`: it is
/// not empty, each certificate is signed by the key of the next one, each can
/// be read and is within its validity window, and the last one is anchored in
/// the registry.
pub open spec fn trusted(chain: Seq<Seq<u8>>, registry: Option<Seq<Seq<u8>>>, now: u64) -> bool {
    &&& chain.len() >= 1
    &&& forall|i: int| 0 <= i < chain.len() - 1 ==> #[trigger] signed_by_next(chain, i)
    &&& forall|i: int| 0 <= i < chain.len() ==> within_validity(#[trigger] chain[i], now)
    &&& anchored(chain.last(), registry, now)
}

/// The first pass: the signature of each certificate under the key of the
/// next one.
fn check_signatures(certs: &Vec<X509>) -> (errors: Vec<ValidationError>)
    ensures
        errors@ == signature_errors(der_list(certs@), adjacent_pairs(certs@.len())),
{
    let mut errors: Vec<ValidationError> = Vec::new();
    if certs.len() == 0 {
        return errors;
    }
    let ghost chain = der_list(certs@);
    let mut i: usize = 0;
    while i < certs.len() - 1
        invariant
            certs@.len() >= 1,
            i <= certs@.len() - 1,
            chain == der_list(certs@),
            errors@ == signature_errors(chain, i as nat),
        decreases certs@.len() - i,
    {
        match check_signature(&certs[i], &certs[i + 1]) {
            Ok(_) => {},
            Err(cause) => {
                errors.push(ValidationError::Signature { index: i, cause });
            },
        }
        i += 1;
    }
    errors
}

/// The second pass: the validity window of each certificate.
fn check_validity_periods(certs: &Vec<X509>, now: u64) -> (errors: Vec<ValidationError>)
    ensures
        errors@ == validity_errors(der_list(certs@), now, certs@.len()),
{
    let mut errors: Vec<ValidationError> = Vec::new();
    let ghost chain = der_list(certs@);
    let mut i: usize = 0;
    while i < certs.len()
        invariant
            i <= certs@.len(),
            chain == der_list(certs@),
            errors@ == validity_errors(chain, now, i as nat),
        decreases certs@.len() - i,
    {
        let ghost before = errors@;
        match parse_certificate(certs[i].bytes.as_slice()) {
            None => {
                errors.push(ValidationError::Malformed { index: i });
                assert(errors@ =~= before + certificate_validity_errors(chain[i as int], i, now));
            },
            Some(fields) => {
                let faults = check_validity_period(&fields, now);
                let mut j: usize = 0;
                while j < faults.len()
                    invariant
                        j <= faults.len(),
                        errors@ == before + validity_errors_at(i, faults@.take(j as int)),
                    decreases faults.len() - j,
                {
                    errors.push(ValidationError::Validity { index: i, fault: faults[j] });
                    assert(errors@ =~= before + validity_errors_at(i, faults@.take(j + 1)));
                    j += 1;
                }
                assert(faults@.take(faults.len() as int) =~= faults@);
            },
        }
        i += 1;
    }
    errors
}

/// The third pass: the anchoring of the last certificate.
fn check_top(certs: &Vec<X509>, registry: Option<TrustAnchorRegistry>, now: u64) -> (errors: Vec<
    ValidationError,
>)
    ensures
        errors@ == top_errors(der_list(certs@), registry_view(registry), now),
{
    let mut errors: Vec<ValidationError> = Vec::new();
    if certs.len() == 0 {
        errors.push(ValidationError::EmptyChain);
        return errors;
    }
    let last = certs.len() - 1;
    let top = &certs[last];
    assert(der_list(certs@).last() == top@);
    match parse_certificate(top.bytes.as_slice()) {
        None => {
            errors.push(ValidationError::Malformed { index: last });
        },
        Some(fields) => match find_anchor(&fields, registry) {
            Err(e) => {
                errors.push(e);
            },
            Ok(None) => {
                errors.push(ValidationError::NoMatchingTrustAnchor);
            },
            Ok(Some(anchor)) => {
                errors = validate_with_trust_anchor(top, &anchor, now);
            },
        },
    }
    errors
}

/// Validates a list of certificates, taken as a chain, against `registry` at
/// the moment `now` in seconds since the Unix epoch.
///
/// The list may be empty: that is reported, as any other defect is.
pub fn validate_certificates(certs: &Vec<X509>, registry: Option<TrustAnchorRegistry>, now: u64) -> (errors: Vec<
    ValidationError,
>)
    ensures
        errors@ == validation_errors(der_list(certs@), registry_view(registry), now),
{
    let mut errors = check_signatures(certs);
    let mut validity = check_validity_periods(certs, now);
    errors.append(&mut validity);
    let mut top = check_top(certs, registry, now);
    errors.append(&mut top);
    errors
}

/// A non-empty, ordered list of certificates.
///
/// The certificate at position 0 is the signer's; each later one is the
/// issuer of the one before it. The last one is the top of the chain: it is
/// held against the trust anchors, and need not be self-signed.
#[derive(Debug)]
pub struct X5Chain {
    certs: Vec<X509>,
}

impl View for X5Chain {
    type V = Seq<Seq<u8>>;

    closed spec fn view(&self) -> Seq<Seq<u8>> {
        der_list(self.certs@)
    }
}

impl Clone for X5Chain {
    fn clone(&self) -> (res: Self)
        ensures
            res@ == self@,
    {
        proof {
            use_type_invariant(self);
        }
        X5Chain { certs: clone_certificates(&self.certs) }
    }
}

impl X5Chain {
    #[verifier::type_invariant]
    spec fn non_empty(&self) -> bool {
        self.certs@.len() >= 1
    }

    /// A builder without certificates.
    pub fn builder() -> (res: Builder)
        ensures
            res@ == Seq::<Seq<u8>>::empty(),
    {
        Builder::new()
    }

    /// The chain of `certs`, in their order; `None` where there are none.
    pub fn new(certs: Vec<X509>) -> (res: Option<X5Chain>)
        ensures
            res is Some <==> certs@.len() >= 1,
            res matches Some(chain) ==> chain@ == der_list(certs@),
    {
        if certs.len() == 0 {
            None
        } else {
            Some(X5Chain { certs })
        }
    }

    /// The certificates, the signer's first. There is at least one.
    pub fn certificates(&self) -> (certs: &Vec<X509>)
        ensures
            certs@.len() >= 1,
            der_list(certs@) == self@,
    {
        proof {
            use_type_invariant(self);
        }
        &self.certs
    }

    /// The wire form of the chain: the one certificate of a chain of one as a
    /// byte string, the certificates of a longer chain as an array of byte
    /// strings in chain order. Each byte string holds exactly the bytes of
    /// its certificate.
    pub fn into_cbor(&self) -> (wire: CborValue)
        ensures
            encodes(wire, self@),
            wire is Bytes <==> self@.len() == 1,
    {
        proof {
            use_type_invariant(self);
        }
        if self.certs.len() == 1 {
            CborValue::Bytes(self.certs[0].bytes.clone())
        } else {
            let mut items: Vec<CborValue> = Vec::new();
            let mut i: usize = 0;
            while i < self.certs.len()
                invariant
                    i <= self.certs@.len(),
                    items@.len() == i,
                    forall|k: int| 0 <= k < i ==> #[trigger] is_byte_string(items@[k], self.certs@[k]@),
                decreases self.certs@.len() - i,
            {
                items.push(CborValue::Bytes(self.certs[i].bytes.clone()));
                i += 1;
            }
            CborValue::Array(items)
        }
    }

    /// Validates the chain against `registry` at the moment `now`, in seconds
    /// since the Unix epoch, and returns every defect found. An empty list
    /// says that the chain is trusted.
    pub fn validate_at(&self, registry: Option<TrustAnchorRegistry>, now: u64) -> (errors: Vec<ValidationError>)
        ensures
            errors@ == validation_errors(self@, registry_view(registry), now),
    {
        validate_certificates(&self.certs, registry, now)
    }

    /// Validates the chain against `registry` at the moment that the system
    /// clock shows, and returns every defect found. An empty list says that
    /// the chain is trusted.
    pub fn validate(&self, registry: Option<TrustAnchorRegistry>) -> (errors: Vec<ValidationError>)
        ensures
            exists|now: u64| errors@ == #[trigger] validation_errors(self@, registry_view(registry), now),
    {
        let now = unix_time();
        self.validate_at(registry, now)
    }
}

} // verus!
