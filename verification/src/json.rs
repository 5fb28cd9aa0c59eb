//! JSON documents. They are read, built and written by `serde_json`; this
//! module gives them a mathematical model and states, for each operation of
//! `serde_json` that the library calls, what it does in terms of that model.
//! Those statements are taken on trust; everything built on them is proved.

use vstd::prelude::*;

verus! {

/// A JSON document as a mathematical value.
pub enum Json {
    Null,
    Bool(bool),
    /// A number, by the numeral that stands for it when it is written.
    Number(Seq<char>),
    Text(Seq<char>),
    List(Seq<Json>),
    /// An object: its members by key.
    Record(Map<Seq<char>, Json>),
}

impl Json {
    /// The member under `key`; none where the key is missing or the document
    /// is no object.
    pub open spec fn member(self, key: Seq<char>) -> Option<Json> {
        match self {
            Json::Record(members) => if members.contains_key(key) {
                Some(members[key])
            } else {
                None
            },
            _ => None,
        }
    }

    /// The characters of a string; none for any other document.
    pub open spec fn text(self) -> Option<Seq<char>> {
        match self {
            Json::Text(text) => Some(text),
            _ => None,
        }
    }

    /// The string under `key`; none where the key is missing, where it holds
    /// something other than a string, or where the document is no object.
    pub open spec fn text_member(self, key: Seq<char>) -> Option<Seq<char>> {
        match self.member(key) {
            Some(member) => member.text(),
            None => None,
        }
    }
}

/// `serde_json::Value`: a JSON document, carried without a look inside.
#[verifier::external_type_specification]
#[verifier::external_body]
pub struct ExValue(serde_json::Value);

/// `serde_json::Map`: the members of a JSON object, carried without a look
/// inside.
#[verifier::external_type_specification]
#[verifier::external_body]
#[verifier::reject_recursive_types(K)]
#[verifier::reject_recursive_types(V)]
pub struct ExMap<K, V>(serde_json::Map<K, V>);

/// `serde_json::Error`: why a text is not JSON, carried without a look
/// inside.
#[verifier::external_type_specification]
#[verifier::external_body]
pub struct ExError(serde_json::Error);

/// The members of a JSON object, as `serde_json` holds them.
pub type JsonObject = serde_json::Map<String, serde_json::Value>;

/// The document that a `serde_json::Value` holds.
pub uninterp spec fn json_of(value: serde_json::Value) -> Json;

/// The members that a `serde_json::Map` holds, by key.
pub uninterp spec fn members_of(object: serde_json::Map<String, serde_json::Value>) -> Map<
    Seq<char>,
    Json,
>;

/// The sentence with which a `serde_json::Error` describes itself.
pub uninterp spec fn error_message(error: serde_json::Error) -> Seq<char>;

/// What `serde_json` reads from a text: the document, or for a text that is
/// not JSON the sentence that says why.
pub uninterp spec fn json_parse(text: Seq<char>) -> Result<Json, Seq<char>>;

/// The text that `serde_json` writes for a document, in its compact form.
pub uninterp spec fn json_text(document: Json) -> Seq<char>;

/// `serde_json::from_str` at the type `Value`. Trusted: the outcome depends
/// on the text alone, so it is the one that `json_parse` names: the document
/// that the `Value` holds, or the sentence of the error. Nesting beyond the
/// depth that `serde_json` allows is an error like any other.
#[verifier::external_body]
pub(crate) fn value_from_str(text: &str) -> (r: Result<serde_json::Value, serde_json::Error>)
    ensures
        match r {
            Ok(value) => (json_parse(text@) matches Ok(document) && document == json_of(value)),
            Err(error) => (json_parse(text@) matches Err(message) && message == error_message(
                error,
            )),
        },
{
    serde_json::from_str::<serde_json::Value>(text)
}

/// `Display` of `serde_json::Error`, through `to_string`. Trusted: the
/// string is the sentence that `error_message` names.
#[verifier::external_body]
pub(crate) fn error_to_string(error: &serde_json::Error) -> (r: String)
    ensures
        r@ == error_message(*error),
{
    error.to_string()
}

/// `Value::get` with a string index. Trusted: it finds a member only in an
/// object, and only under a key that the object holds.
#[verifier::external_body]
pub(crate) fn value_get<'a>(value: &'a serde_json::Value, key: &str) -> (r: Option<
    &'a serde_json::Value,
>)
    ensures
        match r {
            Some(member) => json_of(*value).member(key@) == Some(json_of(*member)),
            None => json_of(*value).member(key@) is None,
        },
{
    value.get(key)
}

/// `Value::as_str`. Trusted: it gives the characters of a string and nothing
/// for any other document.
#[verifier::external_body]
pub(crate) fn value_as_str<'a>(value: &'a serde_json::Value) -> (r: Option<&'a str>)
    ensures
        match r {
            Some(text) => json_of(*value).text() == Some(text@),
            None => json_of(*value).text() is None,
        },
{
    value.as_str()
}

/// The variant `Value::Null`. Trusted: it holds the null document.
#[verifier::external_body]
pub(crate) fn value_null() -> (r: serde_json::Value)
    ensures
        json_of(r) == Json::Null,
{
    serde_json::Value::Null
}

/// The variant `Value::Bool`. Trusted: it holds the truth value given.
#[verifier::external_body]
pub(crate) fn value_bool(b: bool) -> (r: serde_json::Value)
    ensures
        json_of(r) == Json::Bool(b),
{
    serde_json::Value::Bool(b)
}

/// The variant `Value::String`. Trusted: it holds the string given.
#[verifier::external_body]
pub(crate) fn value_string(text: String) -> (r: serde_json::Value)
    ensures
        json_of(r) == Json::Text(text@),
{
    serde_json::Value::String(text)
}

/// The variant `Value::Array`. Trusted: it holds the documents of the
/// items, in their order.
#[verifier::external_body]
pub(crate) fn value_array(items: Vec<serde_json::Value>) -> (r: serde_json::Value)
    ensures
        json_of(r) == Json::List(items@.map_values(|item: serde_json::Value| json_of(item))),
{
    serde_json::Value::Array(items)
}

/// The variant `Value::Object`. Trusted: it holds the members of the map.
#[verifier::external_body]
pub(crate) fn value_object(members: JsonObject) -> (r: serde_json::Value)
    ensures
        json_of(r) == Json::Record(members_of(members)),
{
    serde_json::Value::Object(members)
}

/// `Map::new`. Trusted: the new map holds no member.
#[verifier::external_body]
pub(crate) fn object_new() -> (r: JsonObject)
    ensures
        members_of(r).dom() == Set::<Seq<char>>::empty(),
{
    serde_json::Map::new()
}

/// `Map::insert`, without the value that it hands back. Trusted: the map
/// then holds `value` under `key`, in place of what it held there, and its
/// other members as before.
#[verifier::external_body]
pub(crate) fn object_insert(object: &mut JsonObject, key: String, value: serde_json::Value)
    ensures
        members_of(*final(object)) == members_of(*old(object)).insert(key@, json_of(value)),
{
    let _ = object.insert(key, value);
}

/// `Display` of `serde_json::Value`, through `to_string`. Trusted: the
/// string depends on the document alone, so it is the one that `json_text`
/// names.
#[verifier::external_body]
pub(crate) fn value_to_string(value: &serde_json::Value) -> (r: String)
    ensures
        r@ == json_text(json_of(*value)),
{
    value.to_string()
}

/// The string that `document` holds under `key`, if it is an object and
/// holds a string there.
pub fn text_member<'a>(document: &'a serde_json::Value, key: &str) -> (r: Option<&'a str>)
    ensures
        match r {
            Some(text) => json_of(*document).text_member(key@) == Some(text@),
            None => json_of(*document).text_member(key@) is None,
        },
{
    match value_get(document, key) {
        Some(member) => value_as_str(member),
        None => None,
    }
}

} // verus!
