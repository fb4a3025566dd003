//! The header of the exchange's request, in the types of `reqwest::header`.

use reqwest::header::{HeaderMap, HeaderValue, InvalidHeaderValue};
use vstd::prelude::*;
use vstd::string::StringSliceAdditionalSpecFns;

verus! {

/// `reqwest::header::HeaderValue`, the value of one header. Its content is
/// reached through [`header_value_bytes`] only.
#[verifier::external_type_specification]
#[verifier::external_body]
pub struct ExHeaderValue(HeaderValue);

/// `reqwest::header::InvalidHeaderValue`, the refusal of a text as a header's
/// value. It holds nothing.
#[verifier::external_type_specification]
#[verifier::external_body]
pub struct ExInvalidHeaderValue(InvalidHeaderValue);

/// `reqwest::header::HeaderMap`, the headers of a request. Its content is
/// reached through [`header_fields`] only.
#[verifier::external_type_specification]
#[verifier::external_body]
#[verifier::reject_recursive_types(T)]
pub struct ExHeaderMap<T>(HeaderMap<T>);

/// The bytes that a header's value holds.
pub uninterp spec fn header_value_bytes(value: HeaderValue) -> Seq<u8>;

/// The headers that a map holds: each name, with the values under it in the
/// order in which they were added.
pub uninterp spec fn header_fields(headers: HeaderMap<HeaderValue>) -> Map<Seq<char>, Seq<Seq<u8>>>;

/// A map without a header.
pub open spec fn no_headers() -> Map<Seq<char>, Seq<Seq<u8>>> {
    Map::empty()
}

/// A byte that a header's value may hold: a tab, or anything from the space
/// upward but the delete character.
pub open spec fn is_header_value_byte(byte: u8) -> bool {
    (byte >= 32 && byte != 127) || byte == 9
}

/// Bytes that make a header's value.
pub open spec fn is_header_value_text(bytes: Seq<u8>) -> bool {
    forall|i: int| 0 <= i < bytes.len() ==> is_header_value_byte(#[trigger] bytes[i])
}

/// A character of a plain header name: a lower-case letter, a digit or a
/// hyphen.
pub open spec fn is_plain_name_char(c: char) -> bool {
    ('a' <= c && c <= 'z') || ('0' <= c && c <= '9') || c == '-'
}

/// A header name of 1 to 64 plain characters. Every such text is a valid
/// header name, and the name that a map keeps for it is the text itself.
pub open spec fn is_plain_header_name(name: Seq<char>) -> bool {
    &&& 1 <= name.len() <= 64
    &&& forall|i: int| 0 <= i < name.len() ==> is_plain_name_char(#[trigger] name[i])
}

/// `HeaderValue::from_str`.
///
/// Claimed: the text is accepted exactly when each of its bytes is one that a
/// header's value may hold, and the value then holds the bytes of the text.
#[verifier::external_body]
pub(crate) fn header_value_from_str(text: &str) -> (made: Result<HeaderValue, InvalidHeaderValue>)
    ensures
        made is Ok <==> is_header_value_text(text.spec_bytes()),
        made matches Ok(value) ==> header_value_bytes(value) == text.spec_bytes(),
{
    HeaderValue::from_str(text)
}

/// `to_string` on an `InvalidHeaderValue`: the refusal in words. Nothing is
/// claimed of the text.
#[verifier::external_body]
pub(crate) fn describe_invalid_header_value(error: &InvalidHeaderValue) -> (text: String) {
    error.to_string()
}

/// `HeaderMap::new`.
///
/// Claimed: the map that comes back holds no header.
#[verifier::external_body]
pub(crate) fn new_header_map() -> (headers: HeaderMap<HeaderValue>)
    ensures
        header_fields(headers) == no_headers(),
{
    HeaderMap::new()
}

/// `HeaderMap::insert` with a `&'static str` as the name, for the first header
/// of a map and a plain name.
///
/// The outside function panics on a text that is no header name and on a map
/// that has reached its size limit; neither can happen here. Claimed: the map
/// then holds the value, alone, under the name, and nothing comes back.
#[verifier::external_body]
pub(crate) fn insert_first_header(
    headers: &mut HeaderMap<HeaderValue>,
    name: &'static str,
    value: HeaderValue,
) -> (previous: Option<HeaderValue>)
    requires
        header_fields(*old(headers)) == no_headers(),
        is_plain_header_name(name@),
    ensures
        previous is None,
        header_fields(*final(headers)) == header_fields(*old(headers)).insert(
            name@,
            seq![header_value_bytes(value)],
        ),
{
    headers.insert(name, value)
}

} // verus!
