//! Trust anchors: the issuing authorities a chain may end in.
//!
//! A registry is an ordered list of anchor certificates. The top of a chain
//! is anchored by the first registry entry whose subject is the issuer that
//! the top certificate names.

use vstd::prelude::*;
use crate::certificate::{parse_certificate, x509_fields, CertificateFields, X509};
use crate::error::{ValidationError, ValidityError};
use crate::signature::{check_signature, signature_check};

verus! {

/// A recognized issuing authority, given by its certificate.
#[derive(Debug, PartialEq, Eq)]
pub struct TrustAnchor {
    pub certificate: X509,
}

impl View for TrustAnchor {
    type V = Seq<u8>;

    open spec fn view(&self) -> Seq<u8> {
        self.certificate@
    }
}

impl Clone for TrustAnchor {
    fn clone(&self) -> (res: Self)
        ensures
            res@ == self@,
    {
        TrustAnchor { certificate: self.certificate.clone() }
    }
}

/// The recognized issuing authorities, in the order in which they are tried.
#[derive(Debug, PartialEq, Eq)]
pub struct TrustAnchorRegistry {
    pub anchors: Vec<TrustAnchor>,
}

impl View for TrustAnchorRegistry {
    type V = Seq<Seq<u8>>;

    open spec fn view(&self) -> Seq<Seq<u8>> {
        Seq::new(self.anchors@.len(), |i: int| self.anchors@[i]@)
    }
}

impl TrustAnchorRegistry {
    /// A registry without anchors.
    pub fn new() -> (res: Self)
        ensures
            res@ == Seq::<Seq<u8>>::empty(),
    {
        let res = TrustAnchorRegistry { anchors: Vec::new() };
        assert(res@ =~= Seq::<Seq<u8>>::empty());
        res
    }
}

impl Default for TrustAnchorRegistry {
    fn default() -> (res: Self)
        ensures
            res@ == Seq::<Seq<u8>>::empty(),
    {
        TrustAnchorRegistry::new()
    }
}

impl Clone for TrustAnchorRegistry {
    fn clone(&self) -> (res: Self)
        ensures
            res@ == self@,
    {
        let mut anchors: Vec<TrustAnchor> = Vec::new();
        let mut i: usize = 0;
        while i < self.anchors.len()
            invariant
                i <= self.anchors@.len(),
                anchors@.len() == i,
                forall|k: int| 0 <= k < i ==> anchors@[k]@ == self.anchors@[k]@,
            decreases self.anchors@.len() - i,
        {
            anchors.push(self.anchors[i].clone());
            i += 1;
        }
        let res = TrustAnchorRegistry { anchors };
        assert(res@ =~= self@);
        res
    }
}

/// The anchors of a registry that may be absent.
pub open spec fn registry_view(registry: Option<TrustAnchorRegistry>) -> Option<Seq<Seq<u8>>> {
    match registry {
        None => None,
        Some(registry) => Some(registry@),
    }
}

/// How a validity window from `not_before` to `not_after` fails to hold the
/// moment `now`: an ended window first, then one that has not begun. All
/// three are seconds since the Unix epoch, and both ends belong to the window.
pub open spec fn validity_faults(not_before: u64, not_after: u64, now: u64) -> Seq<ValidityError> {
    let expired = if not_after < now {
        seq![ValidityError::Expired]
    } else {
        Seq::empty()
    };
    let early = if not_before > now {
        seq![ValidityError::NotYetValid]
    } else {
        Seq::empty()
    };
    expired + early
}

/// Holds the validity window of `certificate` against the moment `now`, in
/// seconds since the Unix epoch.
pub fn check_validity_period(certificate: &CertificateFields, now: u64) -> (faults: Vec<ValidityError>)
    ensures
        faults@ == validity_faults(certificate.not_before, certificate.not_after, now),
{
    let mut faults: Vec<ValidityError> = Vec::new();
    if certificate.not_after < now {
        faults.push(ValidityError::Expired);
    }
    if certificate.not_before > now {
        faults.push(ValidityError::NotYetValid);
    }
    assert(faults@ =~= validity_faults(certificate.not_before, certificate.not_after, now));
    faults
}

/// The first of `anchors`, from position `from` on, whose subject is
/// `issuer`. An anchor that cannot be read ends the search with an error;
/// `Ok(None)` says that the search came to the end without a match.
pub open spec fn anchor_search(issuer: Seq<u8>, anchors: Seq<Seq<u8>>, from: int) -> Result<
    Option<Seq<u8>>,
    ValidationError,
>
    decreases anchors.len() - from,
{
    if from < 0 || from >= anchors.len() {
        Ok(None)
    } else {
        match x509_fields(anchors[from]) {
            None => Err(ValidationError::AnchorLookup { anchor: from as usize }),
            Some(fields) => if fields.subject == issuer {
                Ok(Some(anchors[from]))
            } else {
                anchor_search(issuer, anchors, from + 1)
            },
        }
    }
}

/// The anchor that a registry holds for `issuer`. Without a registry there is
/// none.
pub open spec fn anchor_lookup(issuer: Seq<u8>, registry: Option<Seq<Seq<u8>>>) -> Result<
    Option<Seq<u8>>,
    ValidationError,
> {
    match registry {
        None => Ok(None),
        Some(anchors) => anchor_search(issuer, anchors, 0),
    }
}

/// Looks up the anchor for the issuer that `certificate` names.
///
/// `Ok(None)` says that no registry was given or that none of its anchors
/// matches.
pub fn find_anchor(certificate: &CertificateFields, registry: Option<TrustAnchorRegistry>) -> (res: Result<
    Option<TrustAnchor>,
    ValidationError,
>)
    ensures
        match res {
            Ok(Some(anchor)) => anchor_lookup(certificate.issuer@, registry_view(registry)) == Ok::<
                Option<Seq<u8>>,
                ValidationError,
            >(Some(anchor@)),
            Ok(None) => anchor_lookup(certificate.issuer@, registry_view(registry)) == Ok::<
                Option<Seq<u8>>,
                ValidationError,
            >(None),
            Err(e) => anchor_lookup(certificate.issuer@, registry_view(registry)) == Err::<
                Option<Seq<u8>>,
                ValidationError,
            >(e),
        },
{
    let known = match registry {
        None => return Ok(None),
        Some(known) => known,
    };
    let wanted = X509 { bytes: certificate.issuer.clone() };
    let mut i: usize = 0;
    while i < known.anchors.len()
        invariant
            i <= known.anchors.len(),
            wanted@ == certificate.issuer@,
            registry_view(registry) == Some(known@),
            anchor_search(certificate.issuer@, known@, 0) == anchor_search(
                certificate.issuer@,
                known@,
                i as int,
            ),
        decreases known.anchors.len() - i,
    {
        let anchor = &known.anchors[i];
        assert(known@[i as int] == anchor@);
        match parse_certificate(anchor.certificate.bytes.as_slice()) {
            None => {
                return Err(ValidationError::AnchorLookup { anchor: i });
            },
            Some(fields) => {
                let subject = X509 { bytes: fields.subject };
                if subject.same_bytes(&wanted) {
                    return Ok(Some(anchor.clone()));
                }
            },
        }
        i += 1;
    }
    Ok(None)
}

/// The faults of an anchor's validity window, as validation errors.
pub open spec fn anchor_validity_errors(faults: Seq<ValidityError>) -> Seq<ValidationError> {
    Seq::new(faults.len(), |j: int| ValidationError::AnchorValidity { fault: faults[j] })
}

/// What holds `certificate` back from being anchored in `anchor` at the
/// moment `now`: first a signature that the anchor's key does not confirm,
/// then the faults of the anchor's own validity window.
pub open spec fn anchor_errors(certificate: Seq<u8>, anchor: Seq<u8>, now: u64) -> Seq<ValidationError> {
    let signature = match signature_check(certificate, anchor) {
        Ok(_) => Seq::empty(),
        Err(cause) => seq![ValidationError::AnchorSignature { cause }],
    };
    let validity = match x509_fields(anchor) {
        None => Seq::empty(),
        Some(fields) => anchor_validity_errors(validity_faults(fields.not_before, fields.not_after, now)),
    };
    signature + validity
}

/// Checks `certificate`, the top of a chain, against the anchor found for it,
/// at the moment `now` in seconds since the Unix epoch.
pub fn validate_with_trust_anchor(certificate: &X509, anchor: &TrustAnchor, now: u64) -> (errors: Vec<
    ValidationError,
>)
    ensures
        errors@ == anchor_errors(certificate@, anchor@, now),
{
    let mut errors: Vec<ValidationError> = Vec::new();
    match check_signature(certificate, &anchor.certificate) {
        Ok(_) => {},
        Err(cause) => {
            errors.push(ValidationError::AnchorSignature { cause });
        },
    }
    let ghost signature = errors@;
    match parse_certificate(anchor.certificate.bytes.as_slice()) {
        None => {},
        Some(fields) => {
            let faults = check_validity_period(&fields, now);
            let mut j: usize = 0;
            while j < faults.len()
                invariant
                    j <= faults.len(),
                    errors@ == signature + anchor_validity_errors(faults@.take(j as int)),
                decreases faults.len() - j,
            {
                errors.push(ValidationError::AnchorValidity { fault: faults[j] });
                assert(errors@ =~= signature + anchor_validity_errors(faults@.take(j + 1)));
                j += 1;
            }
            assert(faults@.take(faults.len() as int) =~= faults@);
        },
    }
    assert(errors@ =~= anchor_errors(certificate@, anchor@, now));
    errors
}

} // verus!
