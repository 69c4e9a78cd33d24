//! The wire form of a chain.
//!
//! On the wire a chain of one certificate is a CBOR byte string, and a longer
//! chain is a CBOR array of byte strings, in chain order. Each byte string
//! holds the DER bytes of one certificate, and no two entries of an array may
//! hold the same bytes.

use vstd::prelude::*;
use vstd::string::StringExecFns;
use crate::certificate::{der_list, X509};
use crate::chain::{validation_errors, X5Chain};
use crate::clock::unix_time;
use crate::error::{DecodeError, DecodeErrorView, ValidationError};
use crate::trust_anchor::{registry_view, TrustAnchorRegistry};

verus! {

/// A CBOR data item, as far as the wire form of a chain tells items apart.
#[derive(Debug, PartialEq, Eq)]
pub enum CborValue {
    Null,
    Bool(bool),
    Integer(i128),
    Bytes(Vec<u8>),
    Text(String),
    Array(Vec<CborValue>),
    /// Any other item (a floating-point number, a map, a tagged item), given
    /// by the text that describes it, as in `Tag(1, Integer(2))`.
    Other(String),
}

/// The text of one decimal digit.
pub open spec fn digit_text(digit: int) -> Seq<char> {
    if digit == 0 {
        "0"@
    } else if digit == 1 {
        "1"@
    } else if digit == 2 {
        "2"@
    } else if digit == 3 {
        "3"@
    } else if digit == 4 {
        "4"@
    } else if digit == 5 {
        "5"@
    } else if digit == 6 {
        "6"@
    } else if digit == 7 {
        "7"@
    } else if digit == 8 {
        "8"@
    } else {
        "9"@
    }
}

/// A natural number in decimal digits, without leading zeros.
pub open spec fn natural_text(n: nat) -> Seq<char>
    decreases n,
{
    if n < 10 {
        digit_text(n as int)
    } else {
        natural_text(n / 10) + digit_text((n % 10) as int)
    }
}

/// An integer in decimal digits, with a minus sign where it is negative.
pub open spec fn integer_text(i: int) -> Seq<char> {
    if i < 0 {
        "-"@ + natural_text((-i) as nat)
    } else {
        natural_text(i as nat)
    }
}

/// What stands before the entry at `position` of a list: nothing before the
/// first, a comma and a space before every other.
pub open spec fn separator(position: int) -> Seq<char> {
    if position == 0 {
        Seq::empty()
    } else {
        ", "@
    }
}

/// The first `count` of `bytes`, each in decimal digits, separated by a comma
/// and a space.
pub open spec fn listed_bytes(bytes: Seq<u8>, count: nat) -> Seq<char>
    decreases count,
{
    if count == 0 {
        Seq::empty()
    } else {
        listed_bytes(bytes, (count - 1) as nat) + separator(count - 1) + natural_text(bytes[count - 1] as nat)
    }
}

/// The text that `std` gives for `text` when it formats it for debugging: in
/// double quotes, with the characters escaped that `std` escapes.
pub uninterp spec fn text_debug(text: Seq<char>) -> Seq<char>;

/// How an item is written where it is named in an error: the name of its
/// variant, and its content in brackets, as in `Integer(42)`,
/// `Bytes([1, 2])` or `Array([Null, Bool(true)])`.
pub open spec fn rendering(value: CborValue) -> Seq<char>
    decreases value, 0nat,
{
    match value {
        CborValue::Null => "Null"@,
        CborValue::Bool(b) => if b {
            "Bool(true)"@
        } else {
            "Bool(false)"@
        },
        CborValue::Integer(i) => "Integer("@ + integer_text(i as int) + ")"@,
        CborValue::Bytes(bytes) => "Bytes(["@ + listed_bytes(bytes@, bytes@.len()) + "])"@,
        CborValue::Text(text) => "Text("@ + text_debug(text@) + ")"@,
        CborValue::Array(items) => "Array(["@ + listed_items(items, items@.len()) + "])"@,
        CborValue::Other(text) => text@,
    }
}

/// The first `count` of `items`, each as it is written in an error,
/// separated by a comma and a space.
pub open spec fn listed_items(items: Vec<CborValue>, count: nat) -> Seq<char>
    decreases items, count,
{
    if count == 0 || count > items@.len() {
        Seq::empty()
    } else {
        listed_items(items, (count - 1) as nat) + separator(count - 1) + rendering(items@[count - 1])
    }
}

/// Formats `text` for debugging with `std`'s `format`.
///
/// Trusted: the result is [`text_debug`] of the input.
#[verifier::external_body]
fn debug_text(text: &str) -> (res: String)
    ensures
        res@ == text_debug(text@),
{
    format!("{:?}", text)
}

/// The text of one decimal digit.
fn digit(d: u128) -> (res: &'static str)
    requires
        d < 10,
    ensures
        res@ == digit_text(d as int),
{
    if d == 0 {
        "0"
    } else if d == 1 {
        "1"
    } else if d == 2 {
        "2"
    } else if d == 3 {
        "3"
    } else if d == 4 {
        "4"
    } else if d == 5 {
        "5"
    } else if d == 6 {
        "6"
    } else if d == 7 {
        "7"
    } else if d == 8 {
        "8"
    } else {
        "9"
    }
}

/// A natural number in decimal digits.
fn natural(n: u128) -> (res: String)
    ensures
        res@ == natural_text(n as nat),
    decreases n,
{
    if n < 10 {
        digit(n).to_owned()
    } else {
        let mut text = natural(n / 10);
        text.append(digit(n % 10));
        text
    }
}

/// An integer in decimal digits.
fn integer(i: i128) -> (res: String)
    ensures
        res@ == integer_text(i as int),
{
    if i < 0 {
        let magnitude: u128 = (-(i + 1)) as u128 + 1;
        let mut text = "-".to_owned();
        text.append(natural(magnitude).as_str());
        text
    } else {
        natural(i as u128)
    }
}

impl CborValue {
    /// The item as it is written where it is named in an error.
    pub fn render(&self) -> (res: String)
        ensures
            res@ == rendering(*self),
        decreases self,
    {
        match self {
            CborValue::Null => "Null".to_owned(),
            CborValue::Bool(b) => if *b {
                "Bool(true)".to_owned()
            } else {
                "Bool(false)".to_owned()
            },
            CborValue::Integer(i) => {
                let mut text = "Integer(".to_owned();
                text.append(integer(*i).as_str());
                text.append(")");
                text
            },
            CborValue::Bytes(bytes) => {
                let mut list = String::new();
                let mut k: usize = 0;
                while k < bytes.len()
                    invariant
                        k <= bytes@.len(),
                        list@ == listed_bytes(bytes@, k as nat),
                    decreases bytes@.len() - k,
                {
                    if k > 0 {
                        list.append(", ");
                    }
                    list.append(natural(bytes[k] as u128).as_str());
                    k += 1;
                }
                let mut text = "Bytes([".to_owned();
                text.append(list.as_str());
                text.append("])");
                text
            },
            CborValue::Text(held) => {
                let mut text = "Text(".to_owned();
                text.append(debug_text(held.as_str()).as_str());
                text.append(")");
                text
            },
            CborValue::Array(items) => {
                let mut list = String::new();
                let mut k: usize = 0;
                while k < items.len()
                    invariant
                        k <= items@.len(),
                        *self == CborValue::Array(*items),
                        list@ == listed_items(*items, k as nat),
                    decreases items@.len() - k,
                {
                    if k > 0 {
                        list.append(", ");
                    }
                    proof {
                        vstd::std_specs::vec::axiom_vec_index_decreases(*items, k as int);
                        assert(decreases_to!(*self => self->Array_0));
                    }
                    list.append(items[k].render().as_str());
                    k += 1;
                }
                let mut text = "Array([".to_owned();
                text.append(list.as_str());
                text.append("])");
                text
            },
            CborValue::Other(held) => held.clone(),
        }
    }
}

/// Whether `item` is the byte string that holds `bytes`.
pub open spec fn is_byte_string(item: CborValue, bytes: Seq<u8>) -> bool {
    item matches CborValue::Bytes(held) && held@ == bytes
}

/// Whether every item of `items` is a byte string, the item at position `i`
/// holding `strings[i]`.
pub open spec fn holds_byte_strings(items: Seq<CborValue>, strings: Seq<Seq<u8>>) -> bool {
    &&& items.len() == strings.len()
    &&& forall|i: int| 0 <= i < items.len() ==> #[trigger] is_byte_string(items[i], strings[i])
}

/// Whether `wire` is the wire form of `chain`: for a chain of one, the byte
/// string of its certificate; for a longer chain, the array of the byte
/// strings of its certificates, in chain order.
pub open spec fn encodes(wire: CborValue, chain: Seq<Seq<u8>>) -> bool {
    if chain.len() == 1 {
        is_byte_string(wire, chain[0])
    } else {
        wire matches CborValue::Array(items) && holds_byte_strings(items@, chain)
    }
}

/// The position of the first of `items`, from position `from` on, that is
/// not a byte string.
pub open spec fn first_other_item(items: Seq<CborValue>, from: int) -> Option<int>
    decreases items.len() - from,
{
    if from < 0 || from >= items.len() {
        None
    } else if items[from] is Bytes {
        first_other_item(items, from + 1)
    } else {
        Some(from)
    }
}

/// What the byte strings among `items` hold, position by position.
pub open spec fn held_bytes(items: Seq<CborValue>) -> Seq<Seq<u8>> {
    Seq::new(items.len(), |i: int| items[i]->Bytes_0@)
}

/// The chain that `wire` stands for, or why it stands for none.
///
/// A byte string stands for the chain of the one certificate it holds. An
/// array stands for the chain of the certificates its byte strings hold,
/// unless one of its items is not a byte string, two of them hold the same
/// bytes, or it is empty: these are looked for in this order. Nothing else
/// stands for a chain.
pub open spec fn decoded(wire: CborValue) -> Result<Seq<Seq<u8>>, DecodeErrorView> {
    match wire {
        CborValue::Bytes(bytes) => Ok(seq![bytes@]),
        CborValue::Array(items) => match first_other_item(items@, 0) {
            Some(index) => Err(
                DecodeErrorView::NotByteString { index: index as usize, received: rendering(items@[index]) },
            ),
            None => if !held_bytes(items@).no_duplicates() {
                Err(DecodeErrorView::DuplicateCertificate)
            } else if items@.len() == 0 {
                Err(DecodeErrorView::Empty)
            } else {
                Ok(held_bytes(items@))
            },
        },
        _ => Err(DecodeErrorView::UnexpectedShape { received: rendering(wire) }),
    }
}

/// Whether no two of `certs` hold the same bytes.
pub fn has_unique_elements(certs: &Vec<X509>) -> (unique: bool)
    ensures
        unique == der_list(certs@).no_duplicates(),
{
    let ghost list = der_list(certs@);
    let mut i: usize = 0;
    while i < certs.len()
        invariant
            i <= certs@.len(),
            list == der_list(certs@),
            forall|a: int, b: int| 0 <= a < i && 0 <= b < i && a != b ==> list[a] != list[b],
        decreases certs@.len() - i,
    {
        let mut j: usize = 0;
        while j < i
            invariant
                j <= i < certs@.len(),
                list == der_list(certs@),
                forall|a: int| 0 <= a < j ==> list[a] != list[i as int],
            decreases i - j,
        {
            if certs[j].same_bytes(&certs[i]) {
                assert(list[j as int] == list[i as int]);
                return false;
            }
            j += 1;
        }
        i += 1;
    }
    true
}

/// Reads a chain from its wire form.
pub fn decode_x5chain(x5chain: CborValue) -> (res: Result<X5Chain, DecodeError>)
    ensures
        match res {
            Ok(chain) => decoded(x5chain) == Ok::<Seq<Seq<u8>>, DecodeErrorView>(chain@),
            Err(e) => decoded(x5chain) == Err::<Seq<Seq<u8>>, DecodeErrorView>(e@),
        },
{
    match x5chain {
        CborValue::Bytes(bytes) => {
            let mut certs: Vec<X509> = Vec::new();
            certs.push(X509 { bytes });
            assert(der_list(certs@) =~= seq![bytes@]);
            match X5Chain::new(certs) {
                Some(chain) => Ok(chain),
                None => Err(DecodeError::Empty),
            }
        },
        CborValue::Array(items) => {
            let mut certs: Vec<X509> = Vec::new();
            let mut i: usize = 0;
            while i < items.len()
                invariant
                    i <= items@.len(),
                    certs@.len() == i,
                    x5chain == CborValue::Array(items),
                    first_other_item(items@, 0) == first_other_item(items@, i as int),
                    forall|k: int| 0 <= k < i ==> certs@[k]@ == #[trigger] held_bytes(items@)[k],
                decreases items@.len() - i,
            {
                match &items[i] {
                    CborValue::Bytes(bytes) => {
                        certs.push(X509 { bytes: bytes.clone() });
                    },
                    other => {
                        return Err(DecodeError::NotByteString { index: i, received: other.render() });
                    },
                }
                i += 1;
            }
            assert(der_list(certs@) =~= held_bytes(items@));
            if !has_unique_elements(&certs) {
                return Err(DecodeError::DuplicateCertificate);
            }
            match X5Chain::new(certs) {
                Some(chain) => Ok(chain),
                None => Err(DecodeError::Empty),
            }
        },
        other => Err(DecodeError::UnexpectedShape { received: other.render() }),
    }
}

/// What [`validate_x5chain_at`] returns for `wire`: the reason why `wire`
/// stands for no chain, or else every defect of the chain it stands for.
pub open spec fn wire_validation(wire: CborValue, registry: Option<Seq<Seq<u8>>>, now: u64) -> Result<
    Seq<ValidationError>,
    DecodeErrorView,
> {
    match decoded(wire) {
        Err(e) => Err(e),
        Ok(chain) => Ok(validation_errors(chain, registry, now)),
    }
}

/// Reads a chain from its wire form and validates it against `registry` at
/// the moment `now`, in seconds since the Unix epoch.
///
/// A wire value that stands for no chain is an error, and nothing is
/// validated. Otherwise the result is the list of the chain's defects, which
/// is empty where the chain is trusted.
pub fn validate_x5chain_at(x5chain: CborValue, registry: Option<TrustAnchorRegistry>, now: u64) -> (res: Result<
    Vec<ValidationError>,
    DecodeError,
>)
    ensures
        match res {
            Ok(errors) => wire_validation(x5chain, registry_view(registry), now) == Ok::<
                Seq<ValidationError>,
                DecodeErrorView,
            >(errors@),
            Err(e) => wire_validation(x5chain, registry_view(registry), now) == Err::<
                Seq<ValidationError>,
                DecodeErrorView,
            >(e@),
        },
{
    match decode_x5chain(x5chain) {
        Err(e) => Err(e),
        Ok(chain) => Ok(chain.validate_at(registry, now)),
    }
}

/// Reads a chain from its wire form and validates it against `registry` at
/// the moment that the system clock shows.
///
/// A wire value that stands for no chain is an error, and nothing is
/// validated. Otherwise the result is the list of the chain's defects, which
/// is empty where the chain is trusted.
pub fn validate_x5chain(x5chain: CborValue, registry: Option<TrustAnchorRegistry>) -> (res: Result<
    Vec<ValidationError>,
    DecodeError,
>)
    ensures
        match res {
            Ok(errors) => decoded(x5chain) matches Ok(chain) && exists|now: u64|
                errors@ == #[trigger] validation_errors(chain, registry_view(registry), now),
            Err(e) => decoded(x5chain) == Err::<Seq<Seq<u8>>, DecodeErrorView>(e@),
        },
{
    let now = unix_time();
    validate_x5chain_at(x5chain, registry, now)
}

} // verus!
