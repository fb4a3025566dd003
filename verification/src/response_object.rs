//! The provider's reply as a JSON object of `serde_json`, and what the
//! exchange reads of it.
//!
//! A JSON value can hold more than the exchange ever looks at. The contracts
//! speak of a value as a [`FieldView`]: its text where it is a string, its
//! value where it is a number held as a whole number from 0 to `u64::MAX`, and
//! nothing else.

use vstd::prelude::*;

verus! {

/// `serde_json::Map`, the object of a JSON document. Its content is reached
/// through [`object_fields`] only.
#[verifier::external_type_specification]
#[verifier::external_body]
#[verifier::reject_recursive_types(K)]
#[verifier::reject_recursive_types(V)]
pub struct ExObject<K, V>(serde_json::Map<K, V>);

/// `serde_json::Value`, any JSON value. Its content is not modelled.
#[verifier::external_type_specification]
#[verifier::external_body]
pub struct ExValue(serde_json::Value);

/// What the exchange reads of one JSON value.
pub enum Field {
    /// A JSON string, with its text.
    Text(String),
    /// A JSON number, with its value where it is held as a whole number from
    /// 0 to `u64::MAX`.
    Number(Option<u64>),
    /// Null, a boolean, an array or an object.
    Other,
}

/// A [`Field`] in the contracts.
pub enum FieldView {
    Text(Seq<char>),
    Number(Option<u64>),
    Other,
}

impl View for Field {
    type V = FieldView;

    open spec fn view(&self) -> FieldView {
        match self {
            Field::Text(text) => FieldView::Text(text@),
            Field::Number(number) => FieldView::Number(*number),
            Field::Other => FieldView::Other,
        }
    }
}

/// The fields of a JSON object: each key that the object holds, with what the
/// exchange reads of the value under it.
pub uninterp spec fn object_fields(object: serde_json::Map<String, serde_json::Value>) -> Map<
    Seq<char>,
    FieldView,
>;

/// The fields of the JSON object that `serde_json::from_slice` reads from
/// `body`, or `None` where it reads no object from it.
pub uninterp spec fn parsed_fields(body: Seq<u8>) -> Option<Map<Seq<char>, FieldView>>;

/// `serde_json::Map::remove`, followed by the reading of the value as a
/// [`Field`] (for a number through `serde_json::Number::as_u64`).
///
/// Claimed: the key leaves the object and the other keys stay as they are;
/// `None` comes back exactly when the object did not hold the key, else what
/// the object held under it.
#[verifier::external_body]
pub(crate) fn take_field(
    object: &mut serde_json::Map<String, serde_json::Value>,
    key: &str,
) -> (taken: Option<Field>)
    ensures
        object_fields(*final(object)) == object_fields(*old(object)).remove(key@),
        match taken {
            Some(field) => object_fields(*old(object)).contains_key(key@) && object_fields(
                *old(object),
            )[key@] == field@,
            None => !object_fields(*old(object)).contains_key(key@),
        },
{
    match object.remove(key) {
        Some(serde_json::Value::String(text)) => Some(Field::Text(text)),
        Some(serde_json::Value::Number(number)) => Some(Field::Number(number.as_u64())),
        Some(serde_json::Value::Null) => Some(Field::Other),
        Some(serde_json::Value::Bool(_)) => Some(Field::Other),
        Some(serde_json::Value::Array(_)) => Some(Field::Other),
        Some(serde_json::Value::Object(_)) => Some(Field::Other),
        None => None,
    }
}

/// The words in which the error of `serde_json::from_slice` on `body`,
/// asked for a JSON object, says through `to_string` what is wrong: they name
/// the fault and, where it has a place, the line and column where it was met.
pub uninterp spec fn parse_failure_words(body: Seq<u8>) -> Seq<char>;

/// `serde_json::from_slice`, asked for a JSON object; its error is handed on
/// in words, as `to_string` gives them.
///
/// Claimed: what comes back depends on the bytes alone. It is the object
/// whose fields [`parsed_fields`] names, or, where that is `None`, the error
/// in the words that [`parse_failure_words`] names.
#[verifier::external_body]
pub(crate) fn parse_object(body: &[u8]) -> (parsed: Result<
    serde_json::Map<String, serde_json::Value>,
    String,
>)
    ensures
        match parsed {
            Ok(object) => parsed_fields(body@) == Some(object_fields(object)),
            Err(words) => parsed_fields(body@) is None && words@ == parse_failure_words(body@),
        },
{
    match serde_json::from_slice(body) {
        Ok(object) => Ok(object),
        Err(error) => Err(error.to_string()),
    }
}

} // verus!
