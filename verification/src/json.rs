//! JSON values, as `serde_json` holds them, and what the library says of
//! them.
//!
//! The values themselves are opaque. Contracts speak of the JSON document
//! that a value holds, a `JsonModel`.

use vstd::prelude::*;

verus! {

/// A JSON document.
pub enum JsonModel {
    Null,
    Bool(bool),
    /// A number, by the numeral that `serde_json` writes it with.
    Number(Seq<char>),
    Text(Seq<char>),
    Array(Seq<JsonModel>),
    Object(Map<Seq<char>, JsonModel>),
}

/// A JSON value of `serde_json`.
#[verifier::external_type_specification]
#[verifier::external_body]
pub struct ExJsonValue(serde_json::Value);

/// The document that a value holds.
pub uninterp spec fn json_model(value: serde_json::Value) -> JsonModel;

/// What `serde_json` reads a numeral as: the number, by the numeral that
/// `serde_json` writes it with, or nothing where the text is no number.
pub uninterp spec fn numeral_read(text: Seq<char>) -> Option<Seq<char>>;

/// The numeral of a document that is a number.
pub open spec fn number_of(document: JsonModel) -> Seq<char> {
    match document {
        JsonModel::Number(numeral) => numeral,
        _ => Seq::empty(),
    }
}

/// The documents of a list of values.
pub open spec fn json_models(values: Seq<serde_json::Value>) -> Seq<JsonModel> {
    values.map_values(|v: serde_json::Value| json_model(v))
}

/// `Value::Null`: the null document.
#[verifier::external_body]
pub(crate) fn json_null() -> (v: serde_json::Value)
    ensures
        json_model(v) == JsonModel::Null,
{
    serde_json::Value::Null
}

/// `Value::Bool`: the document of a truth value.
#[verifier::external_body]
pub(crate) fn json_bool(b: bool) -> (v: serde_json::Value)
    ensures
        json_model(v) == JsonModel::Bool(b),
{
    serde_json::Value::Bool(b)
}

/// `Value::String`: the document of a text.
#[verifier::external_body]
pub(crate) fn json_text(s: &str) -> (v: serde_json::Value)
    ensures
        json_model(v) == JsonModel::Text(s@),
{
    serde_json::Value::String(s.to_owned())
}

/// `Value::from` on an unsigned integer: the number that the integer's
/// decimal numeral writes.
#[verifier::external_body]
pub(crate) fn json_unsigned(n: u64) -> (v: serde_json::Value)
    ensures
        json_model(v) == JsonModel::Number(crate::text::decimal(n as nat)),
{
    serde_json::Value::from(n)
}

/// Parses a numeral with `serde_json`, `Number::from_str`. Where the text
/// is a JSON number the result holds that number.
#[verifier::external_body]
pub(crate) fn json_numeral(text: &str) -> (r: Option<serde_json::Value>)
    ensures
        r is Some <==> numeral_read(text@) is Some,
        r matches Some(v) ==> numeral_read(text@) == Some(number_of(json_model(v))),
        r matches Some(v) ==> json_model(v) is Number,
{
    text.parse::<serde_json::Number>().ok().map(serde_json::Value::Number)
}

/// `Value::Array`: the array of the given values, in order.
#[verifier::external_body]
pub(crate) fn json_array(items: Vec<serde_json::Value>) -> (v: serde_json::Value)
    ensures
        json_model(v) == JsonModel::Array(json_models(items@)),
{
    serde_json::Value::Array(items)
}

/// `Value::Object` of `Map::new`: an object without members.
#[verifier::external_body]
pub(crate) fn json_object() -> (v: serde_json::Value)
    ensures
        json_model(v) == JsonModel::Object(Map::empty()),
{
    serde_json::Value::Object(serde_json::Map::new())
}

/// The members of a document that is an object.
pub open spec fn members_of(document: JsonModel) -> Map<Seq<char>, JsonModel> {
    match document {
        JsonModel::Object(members) => members,
        _ => Map::empty(),
    }
}

/// `Map::insert` on the map of an object: sets the member `key` to
/// `value`, replacing a member of that name.
#[verifier::external_body]
pub(crate) fn set_member(object: &mut serde_json::Value, key: &str, value: serde_json::Value)
    requires
        json_model(*old(object)) is Object,
    ensures
        json_model(*final(object)) == JsonModel::Object(
            members_of(json_model(*old(object))).insert(key@, json_model(value)),
        ),
{
    if let serde_json::Value::Object(members) = object {
        members.insert(key.to_owned(), value);
    }
}

/// `Value::clone`: a value that holds the same document.
#[verifier::external_body]
pub(crate) fn json_copy(value: &serde_json::Value) -> (v: serde_json::Value)
    ensures
        json_model(v) == json_model(*value),
{
    value.clone()
}

/// `Value::as_str`: the text of a text document, and nothing for any other
/// document.
#[verifier::external_body]
pub(crate) fn json_as_text(value: &serde_json::Value) -> (r: Option<String>)
    ensures
        match r {
            Some(s) => json_model(*value) == JsonModel::Text(s@),
            None => !(json_model(*value) is Text),
        },
{
    value.as_str().map(String::from)
}

/// `Value::as_bool`: the truth value of a boolean document, and nothing
/// for any other document.
#[verifier::external_body]
pub(crate) fn json_as_bool(value: &serde_json::Value) -> (r: Option<bool>)
    ensures
        match r {
            Some(b) => json_model(*value) == JsonModel::Bool(b),
            None => !(json_model(*value) is Bool),
        },
{
    value.as_bool()
}

/// `Value::get` with a member name: the member of that name where the
/// value is an object that has one, and nothing otherwise.
#[verifier::external_body]
pub(crate) fn json_member<'a>(value: &'a serde_json::Value, key: &str) -> (r: Option<
    &'a serde_json::Value,
>)
    ensures
        match r {
            Some(member) => json_model(*value) matches JsonModel::Object(members)
                && members.contains_key(key@) && members[key@] == json_model(*member),
            None => !(json_model(*value) matches JsonModel::Object(members)
                && members.contains_key(key@)),
        },
{
    value.get(key)
}

/// The member `key` of a document, where the document is an object that
/// has it.
pub open spec fn member_of(document: JsonModel, key: Seq<char>) -> Option<JsonModel> {
    match document {
        JsonModel::Object(members) => if members.contains_key(key) {
            Some(members[key])
        } else {
            None
        },
        _ => None,
    }
}

/// The text of a document that is a text.
pub open spec fn text_of(document: JsonModel) -> Option<Seq<char>> {
    match document {
        JsonModel::Text(t) => Some(t),
        _ => None,
    }
}

/// The text of the member `key`, where the document is an object whose
/// member of that name is a text.
pub open spec fn member_text(document: JsonModel, key: Seq<char>) -> Option<Seq<char>> {
    match member_of(document, key) {
        Some(member) => text_of(member),
        None => None,
    }
}

/// The text of the member `key` of `value`, if it has one.
pub fn json_member_text(value: &serde_json::Value, key: &str) -> (r: Option<String>)
    ensures
        match r {
            Some(s) => member_text(json_model(*value), key@) == Some(s@),
            None => member_text(json_model(*value), key@) is None,
        },
{
    match json_member(value, key) {
        Some(member) => json_as_text(member),
        None => None,
    }
}

/// The document of an optional text: the text, or null.
pub open spec fn optional_text(text: Option<Seq<char>>) -> JsonModel {
    match text {
        Some(t) => JsonModel::Text(t),
        None => JsonModel::Null,
    }
}

/// The value of an optional text: the text, or null.
pub fn json_optional_text(text: &Option<String>) -> (v: serde_json::Value)
    ensures
        json_model(v) == optional_text(
            match text {
                Some(t) => Some(t@),
                None => None,
            },
        ),
{
    match text {
        Some(t) => json_text(t.as_str()),
        None => json_null(),
    }
}

/// The documents of a list of texts.
pub open spec fn text_documents(texts: Seq<Seq<char>>) -> Seq<JsonModel> {
    texts.map_values(|t: Seq<char>| JsonModel::Text(t))
}

/// The array of a list of texts.
pub fn json_text_array(items: &Vec<String>) -> (v: serde_json::Value)
    ensures
        json_model(v) == JsonModel::Array(text_documents(crate::text::texts(items@))),
{
    let mut values: Vec<serde_json::Value> = Vec::new();
    let mut i: usize = 0;
    while i < items.len()
        invariant
            i <= items@.len(),
            values@.len() == i,
            forall|k: int|
                0 <= k < i ==> json_model(#[trigger] values@[k]) == JsonModel::Text(items@[k]@),
        decreases items@.len() - i,
    {
        values.push(json_text(items[i].as_str()));
        i += 1;
    }
    assert(json_models(values@) =~= text_documents(crate::text::texts(items@)));
    json_array(values)
}

} // verus!
