//! The header fields of a message, as an `http::HeaderMap` holds them.
//!
//! The map itself stays `http`'s. What it holds is named here, so that the
//! contracts of the library can speak of it; what its methods do is stated
//! over that name and believed, not proved.

use http::header::{HeaderMap, HeaderName, HeaderValue, MaxSizeReached, ToStrError};
use vstd::prelude::*;
use vstd::string::StringSliceAdditionalSpecFns;

verus! {

/// The fewest names at which a header map may refuse one more field. A map
/// refuses only where its table would have to grow beyond the 32768 slots
/// it allows itself: at 24576 names, or, once long runs of colliding names
/// have made it wary, where the names fill a fifth of those slots.
pub const REFUSAL_THRESHOLD: usize = 6554;

/// Header fields as plain values: each name, in lower case, with the values
/// stored under it, first stored first, each value as its bytes.
pub type HeaderFields = Map<Seq<char>, Seq<Seq<u8>>>;

/// `http::HeaderMap`, carried as it is: nothing inside it is known here.
#[verifier::external_type_specification]
#[verifier::external_body]
#[verifier::reject_recursive_types(T)]
pub struct ExHeaderMap<T>(HeaderMap<T>);

/// `http::HeaderName`, carried as it is.
#[verifier::external_type_specification]
#[verifier::external_body]
pub struct ExHeaderName(HeaderName);

/// `http::HeaderValue`, carried as it is.
#[verifier::external_type_specification]
#[verifier::external_body]
pub struct ExHeaderValue(HeaderValue);

/// `http::header::MaxSizeReached`, the error with which a header map refuses
/// to grow.
#[verifier::external_type_specification]
#[verifier::external_body]
pub struct ExMaxSizeReached(MaxSizeReached);

/// `http::header::ToStrError`, the error with which a header value that is
/// no text refuses to be read as text.
#[verifier::external_type_specification]
#[verifier::external_body]
pub struct ExToStrError(ToStrError);

/// What a header map holds: each name in it, in the lower case in which the
/// map keeps it, with the values stored under that name, first stored first,
/// each value as its bytes.
pub uninterp spec fn header_fields(headers: HeaderMap<HeaderValue>) -> Map<Seq<char>, Seq<Seq<u8>>>;

/// The text of a header name, in the lower case in which `http` keeps it.
pub uninterp spec fn header_name_text(name: HeaderName) -> Seq<char>;

/// The bytes of a header value.
pub uninterp spec fn header_value_bytes(value: HeaderValue) -> Seq<u8>;

/// Whether the character needs no folding when a header map looks a name up:
/// a lower-case letter, a digit or a hyphen.
pub open spec fn is_plain_name_char(c: char) -> bool {
    ||| 'a' <= c <= 'z'
    ||| '0' <= c <= '9'
    ||| c == '-'
}

/// Whether the text is a name that a header map looks up just as written:
/// not empty, and of characters that need no folding.
pub open spec fn is_plain_name(name: Seq<char>) -> bool {
    &&& name.len() > 0
    &&& forall|i: int| 0 <= i < name.len() ==> is_plain_name_char(#[trigger] name[i])
}

/// Whether the byte is a visible ASCII character, a space or a tab.
pub open spec fn is_visible_ascii(b: u8) -> bool {
    32 <= b < 127 || b == 9
}

/// Whether the bytes are text: visible ASCII characters, spaces and tabs
/// only.
pub open spec fn is_text(bytes: Seq<u8>) -> bool {
    forall|i: int| 0 <= i < bytes.len() ==> is_visible_ascii(#[trigger] bytes[i])
}

/// The fields with one more value stored under `name`, behind those that the
/// name has already.
pub open spec fn with_field(fields: HeaderFields, name: Seq<char>, value: Seq<u8>) -> HeaderFields {
    if fields.contains_key(name) {
        fields.insert(name, fields[name].push(value))
    } else {
        fields.insert(name, seq![value])
    }
}

/// The fields that come of storing each pair of `pairs` in turn, starting
/// from no field at all.
pub open spec fn gathered(pairs: Seq<(Seq<char>, Seq<u8>)>) -> HeaderFields
    decreases pairs.len(),
{
    if pairs.len() == 0 {
        Map::empty()
    } else {
        with_field(gathered(pairs.drop_last()), pairs.last().0, pairs.last().1)
    }
}

/// The first value stored under `name`, where the fields have the name.
pub open spec fn first_field(fields: HeaderFields, name: Seq<char>) -> Option<Seq<u8>> {
    if fields.contains_key(name) {
        Some(fields[name][0])
    } else {
        None
    }
}

/// A name and a value that a header map lends, as text and bytes.
pub open spec fn pair_model(pair: (&HeaderName, &HeaderValue)) -> (Seq<char>, Seq<u8>) {
    (header_name_text(*pair.0), header_value_bytes(*pair.1))
}

/// The names and values that a header map lends, as texts and bytes.
pub open spec fn pairs_model(pairs: Seq<(&HeaderName, &HeaderValue)>) -> Seq<(Seq<char>, Seq<u8>)> {
    pairs.map_values(|pair: (&HeaderName, &HeaderValue)| pair_model(pair))
}

/// `HeaderMap::new`: a map that holds no field.
pub assume_specification[ HeaderMap::<HeaderValue>::new ]() -> (fresh: HeaderMap<HeaderValue>)
    ensures
        header_fields(fresh) == HeaderFields::empty(),
;

/// `HeaderValue::to_str`: the value as text, where its bytes are text, and
/// an error where one of them is not. The text is made of the bytes of the
/// value, unchanged.
pub assume_specification[ HeaderValue::to_str ](value: &HeaderValue) -> (text: Result<
    &str,
    ToStrError,
>)
    ensures
        text is Ok <==> is_text(header_value_bytes(*value)),
        text matches Ok(s) ==> s.spec_bytes() == header_value_bytes(*value),
;

/// `HeaderMap::get` with the name given as text. The map folds upper case to
/// lower before it looks; for a name that needs no folding it finds the name
/// exactly where it holds it, and lends the first of the values stored under
/// it.
#[verifier::external_body]
pub(crate) fn first_value<'a>(headers: &'a HeaderMap<HeaderValue>, name: &str) -> (found: Option<
    &'a HeaderValue,
>)
    requires
        is_plain_name(name@),
    ensures
        found is Some <==> header_fields(*headers).contains_key(name@),
        found matches Some(value) ==> header_value_bytes(*value) == header_fields(
            *headers,
        )[name@][0],
{
    headers.get(name)
}

/// `HeaderMap::iter`, gathered into a vector. The map lends each value once,
/// with its name; the values of one name come in the order in which they are
/// stored, so that storing the pairs again in the order lent gives the same
/// fields. In what order the names come is left open.
#[verifier::external_body]
pub(crate) fn field_pairs<'a>(headers: &'a HeaderMap<HeaderValue>) -> (pairs: Vec<
    (&'a HeaderName, &'a HeaderValue),
>)
    ensures
        gathered(pairs_model(pairs@)) == header_fields(*headers),
{
    headers.iter().collect()
}

/// `HeaderMap::try_append` with a copy of the value. Where the map takes the
/// value, it stores it under the name, behind the values that the name has
/// already, and says whether the name was there before. The map refuses
/// only where it would have to grow beyond the greatest size it allows
/// itself, which a map of fewer than `REFUSAL_THRESHOLD` names never has to;
/// of a map with more names it is left open whether it takes the value.
#[verifier::external_body]
pub(crate) fn append_field(
    headers: &mut HeaderMap<HeaderValue>,
    name: &HeaderName,
    value: &HeaderValue,
) -> (taken: Result<bool, MaxSizeReached>)
    ensures
        taken is Ok ==> header_fields(*final(headers)) == with_field(
            header_fields(*old(headers)),
            header_name_text(*name),
            header_value_bytes(*value),
        ),
        taken matches Ok(known) ==> known == header_fields(*old(headers)).contains_key(
            header_name_text(*name),
        ),
        header_fields(*old(headers)).dom().finite() && header_fields(*old(headers)).dom().len()
            < REFUSAL_THRESHOLD ==> taken is Ok,
{
    headers.try_append(name, value.clone())
}

/// The first value stored under `name`, as the bytes of its text; nothing
/// where the name is not there or its first value is no text.
pub(crate) fn field_text<'a>(headers: &'a HeaderMap<HeaderValue>, name: &str) -> (bytes: Option<
    &'a [u8],
>)
    requires
        is_plain_name(name@),
    ensures
        match first_field(header_fields(*headers), name@) {
            Some(value) => if is_text(value) {
                bytes matches Some(b) && b@ == value
            } else {
                bytes is None
            },
            None => bytes is None,
        },
{
    match first_value(headers, name) {
        Some(value) => match value.to_str() {
            Ok(text) => Some(text.as_bytes()),
            Err(_) => None,
        },
        None => None,
    }
}

/// Fields gathered from pairs have finitely many names.
pub proof fn lemma_gathered_finite(pairs: Seq<(Seq<char>, Seq<u8>)>)
    ensures
        gathered(pairs).dom().finite(),
    decreases pairs.len(),
{
    if pairs.len() > 0 {
        lemma_gathered_finite(pairs.drop_last());
    }
}

/// The fields gathered from the first `k` pairs have no name that the
/// fields gathered from all the pairs lack, and so no more names.
pub proof fn lemma_gathered_prefix(pairs: Seq<(Seq<char>, Seq<u8>)>, k: int)
    requires
        0 <= k <= pairs.len(),
    ensures
        gathered(pairs.take(k)).dom().subset_of(gathered(pairs).dom()),
        gathered(pairs.take(k)).dom().len() <= gathered(pairs).dom().len(),
    decreases pairs.len(),
{
    if k == pairs.len() {
        assert(pairs.take(k) =~= pairs);
    } else {
        assert(pairs.drop_last().take(k) =~= pairs.take(k));
        lemma_gathered_prefix(pairs.drop_last(), k);
    }
    lemma_gathered_finite(pairs);
    vstd::set_lib::lemma_len_subset(gathered(pairs.take(k)).dom(), gathered(pairs).dom());
}

} // verus!
