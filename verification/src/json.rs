//! The boundary to `serde_json`.
//!
//! JSON values stay `serde_json::Value` at run time, and the library looks no
//! deeper into one than its outermost layer. Contracts speak of them through
//! the mathematical tree [`Json`]. Every item of this module that Verus takes
//! on trust says so in its documentation.

use vstd::prelude::*;

verus! {

/// `serde_json::Value`, carried through the library as an opaque value.
#[verifier::external_type_specification]
#[verifier::external_body]
pub struct ExJsonValue(serde_json::Value);

/// `serde_json::Map`, the collection behind a JSON object.
#[verifier::external_type_specification]
#[verifier::external_body]
#[verifier::reject_recursive_types(K)]
#[verifier::reject_recursive_types(V)]
pub struct ExJsonObject<K, V>(serde_json::Map<K, V>);

/// `serde_json::Error`, what parsing and printing fail with.
#[verifier::external_type_specification]
#[verifier::external_body]
pub struct ExJsonError(serde_json::Error);

/// A JSON document as a mathematical tree.
///
/// A number is held as the text that `serde_json` prints for it; nothing in
/// this library reads a number.
pub enum Json {
    Null,
    Bool(bool),
    Number(Seq<char>),
    Text(Seq<char>),
    Array(Seq<Json>),
    Object(Map<Seq<char>, Json>),
}

/// Trusted: the tree that a `serde_json::Value` stands for, variant by
/// variant, an object being the map from its keys to the trees of its values.
pub uninterp spec fn json_of(value: serde_json::Value) -> Json;

/// Trusted: what a `serde_json::Map` holds, each value as its tree.
pub uninterp spec fn fields_of(
    object: serde_json::Map<String, serde_json::Value>,
) -> Map<Seq<char>, Json>;

/// Trusted: what `serde_json::Error` displays as.
pub uninterp spec fn diagnostic(error: serde_json::Error) -> Seq<char>;

/// Trusted: the outcome of `serde_json::from_str` on a text, as the tree of
/// the value it yields or the diagnostic it fails with. Parsing reads nothing
/// but the text.
pub uninterp spec fn parsed(text: Seq<char>) -> Result<Json, Seq<char>>;

/// Trusted: the outcome of `serde_json::to_string_pretty` on a value with the
/// given tree. This holds of `serde_json` as it is built by default, where an
/// object prints its keys in sorted order whatever order they were inserted in.
pub uninterp spec fn printed(json: Json) -> Result<Seq<char>, Seq<char>>;

/// Trusted wrapper of `serde_json::from_str::<Value>`: the result is the
/// parse that [`parsed`] names.
#[verifier::external_body]
pub(crate) fn parse(text: &str) -> (outcome: Result<serde_json::Value, serde_json::Error>)
    ensures
        match outcome {
            Ok(value) => parsed(text@) == Ok::<Json, Seq<char>>(json_of(value)),
            Err(error) => parsed(text@) == Err::<Json, Seq<char>>(diagnostic(error)),
        },
{
    serde_json::from_str::<serde_json::Value>(text)
}

/// Trusted wrapper of `serde_json::to_string_pretty`: the result is the
/// print that [`printed`] names.
#[verifier::external_body]
pub(crate) fn print_pretty(
    value: &serde_json::Value,
) -> (outcome: Result<String, serde_json::Error>)
    ensures
        match outcome {
            Ok(text) => printed(json_of(*value)) == Ok::<Seq<char>, Seq<char>>(text@),
            Err(error) => printed(json_of(*value)) == Err::<Seq<char>, Seq<char>>(
                diagnostic(error),
            ),
        },
{
    serde_json::to_string_pretty(value)
}

/// Trusted wrapper of the `Display` impl of `serde_json::Error`.
#[verifier::external_body]
pub(crate) fn describe(error: &serde_json::Error) -> (text: String)
    ensures
        text@ == diagnostic(*error),
{
    error.to_string()
}

/// Trusted: tells the variant `Value::Object` from the others and hands its
/// map out.
#[verifier::external_body]
pub(crate) fn into_object(
    value: serde_json::Value,
) -> (object: Option<serde_json::Map<String, serde_json::Value>>)
    ensures
        match json_of(value) {
            Json::Object(fields) => object.is_some() && fields_of(object.unwrap()) == fields,
            _ => object.is_none(),
        },
{
    match value {
        serde_json::Value::Object(object) => Some(object),
        _ => None,
    }
}

/// Trusted: tells the variant `Value::String` from the others and hands its
/// text out.
#[verifier::external_body]
pub(crate) fn into_text(value: serde_json::Value) -> (text: Option<String>)
    ensures
        match json_of(value) {
            Json::Text(chars) => text.is_some() && text.unwrap()@ == chars,
            _ => text.is_none(),
        },
{
    match value {
        serde_json::Value::String(text) => Some(text),
        _ => None,
    }
}

/// Trusted: the variant `Value::Object` around a map.
#[verifier::external_body]
pub(crate) fn object_value(
    object: serde_json::Map<String, serde_json::Value>,
) -> (value: serde_json::Value)
    ensures
        json_of(value) == Json::Object(fields_of(object)),
{
    serde_json::Value::Object(object)
}

/// Trusted: the variant `Value::String` around a text.
#[verifier::external_body]
pub(crate) fn text_value(text: String) -> (value: serde_json::Value)
    ensures
        json_of(value) == Json::Text(text@),
{
    serde_json::Value::String(text)
}

/// Trusted wrapper of `serde_json::Map::new`: an object without fields.
#[verifier::external_body]
pub(crate) fn new_object() -> (object: serde_json::Map<String, serde_json::Value>)
    ensures
        fields_of(object) =~= Map::empty(),
{
    serde_json::Map::new()
}

/// Trusted wrapper of `serde_json::Map::insert`: the key holds the new value
/// afterwards, and the value it held before, if any, is returned.
#[verifier::external_body]
pub(crate) fn put_field(
    object: &mut serde_json::Map<String, serde_json::Value>,
    key: String,
    value: serde_json::Value,
) -> (previous: Option<serde_json::Value>)
    ensures
        fields_of(*final(object)) == fields_of(*old(object)).insert(key@, json_of(value)),
        match previous {
            Some(before) => fields_of(*old(object)).contains_key(key@) && json_of(before)
                == fields_of(*old(object))[key@],
            None => !fields_of(*old(object)).contains_key(key@),
        },
{
    object.insert(key, value)
}

/// Trusted wrapper of `serde_json::Map::remove`: the key is gone afterwards,
/// and the value it held, if any, is returned.
#[verifier::external_body]
pub(crate) fn take_field(
    object: &mut serde_json::Map<String, serde_json::Value>,
    key: &str,
) -> (taken: Option<serde_json::Value>)
    ensures
        fields_of(*final(object)) == fields_of(*old(object)).remove(key@),
        match taken {
            Some(value) => fields_of(*old(object)).contains_key(key@) && json_of(value)
                == fields_of(*old(object))[key@],
            None => !fields_of(*old(object)).contains_key(key@),
        },
{
    object.remove(key)
}

} // verus!
