//! What holds of every chain: theorems over the definitions that the
//! contracts of this crate are written in.

use vstd::prelude::*;
use crate::cbor::{
    decoded, encodes, first_other_item, held_bytes, holds_byte_strings, is_byte_string, wire_validation, CborValue,
};
use crate::certificate::x509_fields;
use crate::chain::{
    adjacent_pairs, anchored, certificate_validity_errors, has_fault, signature_errors, signed_by_next, top_errors,
    trusted, validation_errors, validity_errors, validity_errors_at, within_validity,
};
use crate::error::{DecodeErrorView, SignatureError, ValidationError, ValidityError};
use crate::signature::signature_check;
use crate::trust_anchor::{anchor_errors, anchor_lookup, anchor_search, validity_faults};

verus! {

/// What a list holds, it still holds with more in front of it and behind it.
proof fn lemma_contains_in_middle<T>(front: Seq<T>, middle: Seq<T>, back: Seq<T>, item: T)
    requires
        middle.contains(item),
    ensures
        (front + middle + back).contains(item),
{
    let i = choose|i: int| 0 <= i < middle.len() && middle[i] == item;
    assert((front + middle + back)[front.len() + i] == item);
}

/// A failing pair among the first `pairs` pairs is reported by the first
/// pass.
proof fn lemma_signature_errors_hold(chain: Seq<Seq<u8>>, pairs: nat, i: int)
    requires
        0 <= i < pairs,
        i <= usize::MAX,
        signature_check(chain[i], chain[i + 1]) is Err,
    ensures
        signature_errors(chain, pairs).contains(
            ValidationError::Signature { index: i as usize, cause: signature_check(chain[i], chain[i + 1])->Err_0 },
        ),
    decreases pairs,
{
    let wanted = ValidationError::Signature {
        index: i as usize,
        cause: signature_check(chain[i], chain[i + 1])->Err_0,
    };
    let before = signature_errors(chain, (pairs - 1) as nat);
    let all = signature_errors(chain, pairs);
    if i == pairs - 1 {
        assert(all == before.push(wanted));
        assert(all[before.len() as int] == wanted);
    } else {
        lemma_signature_errors_hold(chain, (pairs - 1) as nat, i);
        let k = choose|k: int| 0 <= k < before.len() && before[k] == wanted;
        assert(all[k] == wanted);
    }
}

/// A fault of the validity window of one of the first `count` certificates
/// is reported by the second pass.
proof fn lemma_validity_errors_hold(chain: Seq<Seq<u8>>, now: u64, count: nat, i: int, fault: ValidityError)
    requires
        0 <= i < count,
        i <= usize::MAX,
        has_fault(chain[i], now, fault),
    ensures
        validity_errors(chain, now, count).contains(ValidationError::Validity { index: i as usize, fault }),
    decreases count,
{
    let wanted = ValidationError::Validity { index: i as usize, fault };
    let before = validity_errors(chain, now, (count - 1) as nat);
    let last = certificate_validity_errors(chain[count - 1], (count - 1) as usize, now);
    if i == count - 1 {
        let fields = x509_fields(chain[i])->Some_0;
        let faults = validity_faults(fields.not_before, fields.not_after, now);
        let k = choose|k: int| 0 <= k < faults.len() && faults[k] == fault;
        assert(last == validity_errors_at(i as usize, faults));
        assert(last[k] == wanted);
        lemma_contains_in_middle(before, last, Seq::empty(), wanted);
        assert(before + last + Seq::<ValidationError>::empty() =~= before + last);
    } else {
        lemma_validity_errors_hold(chain, now, (count - 1) as nat, i, fault);
        lemma_contains_in_middle(Seq::empty(), before, last, wanted);
        assert(Seq::<ValidationError>::empty() + before + last =~= before + last);
    }
}

/// The first pass reports nothing for the first `pairs` pairs exactly when
/// each of them is signed.
proof fn lemma_no_signature_errors(chain: Seq<Seq<u8>>, pairs: nat)
    ensures
        signature_errors(chain, pairs).len() == 0 <==> forall|i: int|
            0 <= i < pairs ==> #[trigger] signed_by_next(chain, i),
    decreases pairs,
{
    if pairs > 0 {
        lemma_no_signature_errors(chain, (pairs - 1) as nat);
        if signature_errors(chain, pairs).len() == 0 {
            assert forall|i: int| 0 <= i < pairs implies #[trigger] signed_by_next(chain, i) by {
                if i == pairs - 1 {
                } else {
                    assert(signed_by_next(chain, i));
                }
            }
        } else {
            if signature_errors(chain, (pairs - 1) as nat).len() == 0 {
                assert(!signed_by_next(chain, pairs - 1));
            }
        }
    }
}

/// The second pass reports nothing for the first `count` certificates
/// exactly when each of them is within its validity window.
proof fn lemma_no_validity_errors(chain: Seq<Seq<u8>>, now: u64, count: nat)
    ensures
        validity_errors(chain, now, count).len() == 0 <==> forall|i: int|
            0 <= i < count ==> within_validity(#[trigger] chain[i], now),
    decreases count,
{
    if count > 0 {
        lemma_no_validity_errors(chain, now, (count - 1) as nat);
        let last = chain[count - 1];
        assert(certificate_validity_errors(last, (count - 1) as usize, now).len() == 0 <==> within_validity(
            last,
            now,
        ));
        if validity_errors(chain, now, count).len() == 0 {
            assert forall|i: int| 0 <= i < count implies within_validity(#[trigger] chain[i], now) by {
                if i < count - 1 {
                    assert(within_validity(chain[i], now));
                }
            }
        } else {
            if validity_errors(chain, now, (count - 1) as nat).len() == 0 {
                assert(!within_validity(chain[count - 1], now));
            }
        }
    }
}

/// Validation reports nothing exactly when the chain is trusted: an empty
/// result says that every certificate is signed by the next one, that every
/// certificate can be read and is within its validity window, and that the
/// top of the chain is anchored in the registry; and any defect in these
/// makes the result non-empty.
pub proof fn lemma_empty_result_means_trusted(chain: Seq<Seq<u8>>, registry: Option<Seq<Seq<u8>>>, now: u64)
    ensures
        validation_errors(chain, registry, now).len() == 0 <==> trusted(chain, registry, now),
{
    lemma_no_signature_errors(chain, adjacent_pairs(chain.len()));
    lemma_no_validity_errors(chain, now, chain.len());
    if chain.len() >= 1 {
        let top = chain.last();
        if x509_fields(top) is Some {
            let found = anchor_lookup(x509_fields(top)->Some_0.issuer, registry);
            if found is Ok && found->Ok_0 is Some {
                let anchor = found->Ok_0->Some_0;
                assert(anchor_errors(top, anchor, now).len() == 0 <==> signature_check(top, anchor) is Ok
                    && within_validity(anchor, now));
            }
        }
        assert(top_errors(chain, registry, now).len() == 0 <==> anchored(top, registry, now));
    }
}

/// A certificate whose signature does not verify under the key of the next
/// certificate is reported, at its own position and with its own cause,
/// whatever else is wrong with the chain: no other pair, and no later pass,
/// can keep the error out of the result.
pub proof fn lemma_unsigned_pair_is_reported(
    chain: Seq<Seq<u8>>,
    registry: Option<Seq<Seq<u8>>>,
    now: u64,
    i: int,
)
    requires
        chain.len() <= usize::MAX,
        0 <= i < chain.len() - 1,
        signature_check(chain[i], chain[i + 1]) is Err,
    ensures
        validation_errors(chain, registry, now).contains(
            ValidationError::Signature { index: i as usize, cause: signature_check(chain[i], chain[i + 1])->Err_0 },
        ),
{
    lemma_signature_errors_hold(chain, adjacent_pairs(chain.len()), i);
    lemma_contains_in_middle(
        Seq::empty(),
        signature_errors(chain, adjacent_pairs(chain.len())),
        validity_errors(chain, now, chain.len()) + top_errors(chain, registry, now),
        ValidationError::Signature { index: i as usize, cause: signature_check(chain[i], chain[i + 1])->Err_0 },
    );
    assert(Seq::<ValidationError>::empty() + signature_errors(chain, adjacent_pairs(chain.len())) + (
    validity_errors(chain, now, chain.len()) + top_errors(chain, registry, now)) =~= validation_errors(
        chain,
        registry,
        now,
    ));
}

/// A certificate that can be read and whose validity window does not hold
/// the moment of validation is reported at its own position, whether or not
/// the signatures of the chain verify: as expired where the window has
/// ended, as not yet valid where it has not begun.
pub proof fn lemma_closed_window_is_reported(
    chain: Seq<Seq<u8>>,
    registry: Option<Seq<Seq<u8>>>,
    now: u64,
    i: int,
)
    requires
        chain.len() <= usize::MAX,
        0 <= i < chain.len(),
        x509_fields(chain[i]) matches Some(fields) && !(fields.not_before <= now <= fields.not_after),
    ensures
        x509_fields(chain[i])->Some_0.not_after < now ==> validation_errors(chain, registry, now).contains(
            ValidationError::Validity { index: i as usize, fault: ValidityError::Expired },
        ),
        x509_fields(chain[i])->Some_0.not_before > now ==> validation_errors(chain, registry, now).contains(
            ValidationError::Validity { index: i as usize, fault: ValidityError::NotYetValid },
        ),
        exists|fault: ValidityError| #[trigger]
            validation_errors(chain, registry, now).contains(ValidationError::Validity { index: i as usize, fault }),
{
    let fields = x509_fields(chain[i])->Some_0;
    let faults = validity_faults(fields.not_before, fields.not_after, now);
    let first = signature_errors(chain, adjacent_pairs(chain.len()));
    let second = validity_errors(chain, now, chain.len());
    let third = top_errors(chain, registry, now);
    if fields.not_after < now {
        assert(faults[0] == ValidityError::Expired);
        lemma_validity_errors_hold(chain, now, chain.len(), i, ValidityError::Expired);
        lemma_contains_in_middle(
            first,
            second,
            third,
            ValidationError::Validity { index: i as usize, fault: ValidityError::Expired },
        );
        assert(validation_errors(chain, registry, now).contains(
            ValidationError::Validity { index: i as usize, fault: ValidityError::Expired },
        ));
    }
    if fields.not_before > now {
        assert(faults[faults.len() - 1] == ValidityError::NotYetValid);
        lemma_validity_errors_hold(chain, now, chain.len(), i, ValidityError::NotYetValid);
        lemma_contains_in_middle(
            first,
            second,
            third,
            ValidationError::Validity { index: i as usize, fault: ValidityError::NotYetValid },
        );
        assert(validation_errors(chain, registry, now).contains(
            ValidationError::Validity { index: i as usize, fault: ValidityError::NotYetValid },
        ));
    }
}

/// Whatever the first pass reports for the first `pairs` pairs is the
/// signature error of one of them.
proof fn lemma_signature_errors_are_genuine(chain: Seq<Seq<u8>>, pairs: nat, k: int)
    requires
        pairs <= usize::MAX,
        0 <= k < signature_errors(chain, pairs).len(),
    ensures
        signature_errors(chain, pairs)[k] matches ValidationError::Signature { index, cause } && index < pairs
            && signature_check(chain[index as int], chain[index + 1]) == Err::<(), SignatureError>(cause),
    decreases pairs,
{
    if pairs > 0 {
        let before = signature_errors(chain, (pairs - 1) as nat);
        if k < before.len() {
            lemma_signature_errors_are_genuine(chain, (pairs - 1) as nat, k);
        }
    }
}

/// Whatever the second pass reports for the first `count` certificates is
/// that one of them cannot be read, or a fault of the validity window of one
/// of them.
proof fn lemma_validity_errors_are_genuine(chain: Seq<Seq<u8>>, now: u64, count: nat, k: int)
    requires
        count <= usize::MAX,
        0 <= k < validity_errors(chain, now, count).len(),
    ensures
        match validity_errors(chain, now, count)[k] {
            ValidationError::Malformed { index } => index < count && x509_fields(chain[index as int]) is None,
            ValidationError::Validity { index, fault } => index < count && has_fault(
                chain[index as int],
                now,
                fault,
            ),
            _ => false,
        },
    decreases count,
{
    if count > 0 {
        let before = validity_errors(chain, now, (count - 1) as nat);
        if k < before.len() {
            lemma_validity_errors_are_genuine(chain, now, (count - 1) as nat, k);
        } else {
            let der = chain[count - 1];
            if x509_fields(der) is Some {
                let fields = x509_fields(der)->Some_0;
                let faults = validity_faults(fields.not_before, fields.not_after, now);
                assert(faults.contains(faults[k - before.len()]));
            }
        }
    }
}

/// A lookup fails only over a registry entry that cannot be read.
proof fn lemma_lookup_fails_over_an_entry(issuer: Seq<u8>, anchors: Seq<Seq<u8>>, from: int)
    requires
        anchor_search(issuer, anchors, from) is Err,
    ensures
        anchor_search(issuer, anchors, from)->Err_0 is AnchorLookup,
    decreases anchors.len() - from,
{
    if 0 <= from < anchors.len() && x509_fields(anchors[from]) is Some {
        if x509_fields(anchors[from])->Some_0.subject != issuer {
            lemma_lookup_fails_over_an_entry(issuer, anchors, from + 1);
        }
    }
}

/// The third pass reports neither a signature error of a pair nor a fault of
/// the validity window of a certificate of the chain.
proof fn lemma_top_errors_are_of_the_top(chain: Seq<Seq<u8>>, registry: Option<Seq<Seq<u8>>>, now: u64, k: int)
    requires
        0 <= k < top_errors(chain, registry, now).len(),
    ensures
        !(top_errors(chain, registry, now)[k] is Signature),
        !(top_errors(chain, registry, now)[k] is Validity),
{
    if chain.len() >= 1 && x509_fields(chain.last()) is Some && registry is Some {
        let issuer = x509_fields(chain.last())->Some_0.issuer;
        if anchor_search(issuer, registry->Some_0, 0) is Err {
            lemma_lookup_fails_over_an_entry(issuer, registry->Some_0, 0);
        }
    }
}

/// No signature error is reported without cause: one that names position
/// `index` says that the certificate there is not shown to be signed by the
/// next one, and gives the reason that the check of that pair gives.
pub proof fn lemma_reported_pair_is_unsigned(
    chain: Seq<Seq<u8>>,
    registry: Option<Seq<Seq<u8>>>,
    now: u64,
    index: usize,
    cause: SignatureError,
)
    requires
        chain.len() <= usize::MAX,
        validation_errors(chain, registry, now).contains(ValidationError::Signature { index, cause }),
    ensures
        index + 1 < chain.len(),
        signature_check(chain[index as int], chain[index + 1]) == Err::<(), SignatureError>(cause),
{
    let all = validation_errors(chain, registry, now);
    let first = signature_errors(chain, adjacent_pairs(chain.len()));
    let second = validity_errors(chain, now, chain.len());
    let k = choose|k: int| 0 <= k < all.len() && all[k] == (ValidationError::Signature { index, cause });
    if k < first.len() {
        lemma_signature_errors_are_genuine(chain, adjacent_pairs(chain.len()), k);
    } else if k < first.len() + second.len() {
        lemma_validity_errors_are_genuine(chain, now, chain.len(), k - first.len());
    } else {
        lemma_top_errors_are_of_the_top(chain, registry, now, k - first.len() - second.len());
    }
}

/// No validity error is reported without cause: one that names position
/// `index` says that the certificate there can be read and that its validity
/// window has that fault at the moment of validation.
pub proof fn lemma_reported_window_is_closed(
    chain: Seq<Seq<u8>>,
    registry: Option<Seq<Seq<u8>>>,
    now: u64,
    index: usize,
    fault: ValidityError,
)
    requires
        chain.len() <= usize::MAX,
        validation_errors(chain, registry, now).contains(ValidationError::Validity { index, fault }),
    ensures
        index < chain.len(),
        has_fault(chain[index as int], now, fault),
{
    let all = validation_errors(chain, registry, now);
    let first = signature_errors(chain, adjacent_pairs(chain.len()));
    let second = validity_errors(chain, now, chain.len());
    let k = choose|k: int| 0 <= k < all.len() && all[k] == (ValidationError::Validity { index, fault });
    if k < first.len() {
        lemma_signature_errors_are_genuine(chain, adjacent_pairs(chain.len()), k);
    } else if k < first.len() + second.len() {
        lemma_validity_errors_are_genuine(chain, now, chain.len(), k - first.len());
    } else {
        lemma_top_errors_are_of_the_top(chain, registry, now, k - first.len() - second.len());
    }
}

/// Without a registry, or with a registry that holds no anchor, the third
/// pass reports exactly that no trust anchor matches, provided that the top
/// of the chain can be read. The error is the last of the result.
pub proof fn lemma_unanchored_without_registry(chain: Seq<Seq<u8>>, registry: Option<Seq<Seq<u8>>>, now: u64)
    requires
        chain.len() >= 1,
        x509_fields(chain.last()) is Some,
        registry matches Some(anchors) ==> anchors.len() == 0,
    ensures
        top_errors(chain, registry, now) == seq![ValidationError::NoMatchingTrustAnchor],
        validation_errors(chain, registry, now).len() >= 1,
        validation_errors(chain, registry, now).last() == ValidationError::NoMatchingTrustAnchor,
{
}

/// The wire form of a chain stands for that chain: what encoding writes,
/// decoding reads back byte for byte. This holds of every chain of one
/// certificate, and of every longer chain in which no two certificates hold
/// the same bytes.
pub proof fn lemma_decoding_inverts_encoding(wire: CborValue, chain: Seq<Seq<u8>>)
    requires
        chain.len() >= 1,
        chain.no_duplicates(),
        encodes(wire, chain),
    ensures
        decoded(wire) == Ok::<Seq<Seq<u8>>, DecodeErrorView>(chain),
{
    if chain.len() == 1 {
        assert(seq![chain[0]] =~= chain);
    } else {
        let items = wire->Array_0@;
        lemma_all_byte_strings(items, chain, 0);
        assert(held_bytes(items) =~= chain) by {
            assert forall|i: int| 0 <= i < items.len() implies held_bytes(items)[i] == chain[i] by {
                assert(is_byte_string(items[i], chain[i]));
            }
        }
    }
}

/// Validating the wire form of a chain is validating the chain: for every
/// chain that the wire form can carry, nothing is lost or added on the way.
pub proof fn lemma_wire_form_validates_as_chain(
    wire: CborValue,
    chain: Seq<Seq<u8>>,
    registry: Option<Seq<Seq<u8>>>,
    now: u64,
)
    requires
        chain.len() >= 1,
        chain.no_duplicates(),
        encodes(wire, chain),
    ensures
        wire_validation(wire, registry, now) == Ok::<Seq<ValidationError>, DecodeErrorView>(
            validation_errors(chain, registry, now),
        ),
{
    lemma_decoding_inverts_encoding(wire, chain);
}

/// Among items that are all byte strings, none is found that is not.
proof fn lemma_all_byte_strings(items: Seq<CborValue>, strings: Seq<Seq<u8>>, from: int)
    requires
        holds_byte_strings(items, strings),
        0 <= from,
    ensures
        first_other_item(items, from) is None,
    decreases items.len() - from,
{
    if from < items.len() {
        assert(is_byte_string(items[from], strings[from]));
        lemma_all_byte_strings(items, strings, from + 1);
    }
}

/// An array in which two entries hold the same bytes stands for no chain:
/// it is refused when it is read, and nothing is validated. Where all its
/// entries are byte strings, the reason given is the duplicate.
pub proof fn lemma_duplicate_is_refused(
    wire: CborValue,
    registry: Option<Seq<Seq<u8>>>,
    now: u64,
    i: int,
    j: int,
)
    requires
        wire is Array,
        0 <= i < wire->Array_0@.len(),
        0 <= j < wire->Array_0@.len(),
        i != j,
        wire->Array_0@[i] is Bytes,
        wire->Array_0@[j] is Bytes,
        wire->Array_0@[i]->Bytes_0@ == wire->Array_0@[j]->Bytes_0@,
    ensures
        decoded(wire) is Err,
        wire_validation(wire, registry, now) is Err,
        first_other_item(wire->Array_0@, 0) is None ==> wire_validation(wire, registry, now) == Err::<
            Seq<ValidationError>,
            DecodeErrorView,
        >(DecodeErrorView::DuplicateCertificate),
{
    let items = wire->Array_0@;
    assert(held_bytes(items)[i] == held_bytes(items)[j]);
}

} // verus!
