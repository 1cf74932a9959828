//! JSON documents, held as `serde_json::Value` and described by a mathematical model.
//!
//! Nothing in this module is proved: it states what the `serde_json` crate does,
//! over the model [`Json`], so that the rest of the library can be proved against it.
//! The statements assume `serde_json`'s default object representation (a sorted
//! map), in which an object is determined by its members alone.
use vstd::prelude::*;

verus! {

/// `serde_json::Value`, a JSON document. Its content is read through
/// [`json_view`] alone.
#[verifier::external_type_specification]
#[verifier::external_body]
pub struct ExValue(serde_json::Value);

/// `serde_json::Number`, a JSON number. It is carried and never looked into.
#[verifier::external_type_specification]
#[verifier::external_body]
pub struct ExNumber(serde_json::Number);

/// `serde_json::Error`, the reason why a text was not read. It is never looked into.
#[verifier::external_type_specification]
#[verifier::external_body]
pub struct ExError(serde_json::Error);

/// The mathematical model of a JSON document.
pub enum Json {
    Null,
    Bool(bool),
    /// A number held as an integer.
    Int(int),
    /// A number held as a floating-point value; it is carried, never inspected.
    Float(serde_json::Number),
    Text(Seq<char>),
    Array(Seq<Json>),
    Object(Map<Seq<char>, Json>),
}

/// The document that a `serde_json::Value` holds.
pub uninterp spec fn json_view(v: serde_json::Value) -> Json;

/// The compact text that `serde_json` prints for a document.
pub uninterp spec fn json_text(doc: Json) -> Seq<char>;

/// The document that `serde_json` reads from a text, or `None` where it rejects the text.
pub uninterp spec fn json_parse(text: Seq<char>) -> Option<Json>;

/// The member of `doc` under `key`, where `doc` is an object that has one.
pub open spec fn spec_member(doc: Json, key: Seq<char>) -> Option<Json> {
    match doc {
        Json::Object(members) => if members.contains_key(key) {
            Some(members[key])
        } else {
            None
        },
        _ => None,
    }
}

/// `doc` with the member under `key` set to `item`; anything but an object is left as it is.
pub open spec fn spec_with_member(doc: Json, key: Seq<char>, item: Json) -> Json {
    match doc {
        Json::Object(members) => Json::Object(members.insert(key, item)),
        _ => doc,
    }
}

/// `serde_json::Value::get` with a string key: the member under that key if the
/// value is an object that has one, and `None` in every other case.
#[verifier::external_body]
pub(crate) fn member<'a>(v: &'a serde_json::Value, key: &str) -> (found: Option<&'a serde_json::Value>)
    ensures
        match found {
            Some(item) => spec_member(json_view(*v), key@) == Some(json_view(*item)),
            None => spec_member(json_view(*v), key@) is None,
        },
{
    v.get(key)
}

/// `serde_json::Value::as_bool`: the boolean if the value is one, else `None`.
pub assume_specification[ serde_json::Value::as_bool ](v: &serde_json::Value) -> (flag: Option<bool>)
    ensures
        flag == (match json_view(*v) {
            Json::Bool(b) => Some(b),
            _ => None,
        }),
;

/// `serde_json::Value::as_str`: the string if the value is one, else `None`.
pub assume_specification<'a>[ serde_json::Value::as_str ](v: &'a serde_json::Value) -> (text: Option<&'a str>)
    ensures
        match text {
            Some(s) => json_view(*v) == Json::Text(s@),
            None => !(json_view(*v) is Text),
        },
;

/// `Clone` for `serde_json::Value`: the copy holds the same document.
pub assume_specification[ <serde_json::Value as Clone>::clone ](v: &serde_json::Value) -> (copy: serde_json::Value)
    ensures
        json_view(copy) == json_view(*v),
;

/// Assignment through `serde_json::Value`'s `IndexMut` with a string key, on an
/// object: the member under the key is replaced, or added where there was none.
/// (On a value that is neither an object nor null the outside code panics.)
#[verifier::external_body]
pub(crate) fn set_member(v: &mut serde_json::Value, key: &str, item: serde_json::Value)
    requires
        json_view(*old(v)) is Object,
    ensures
        json_view(*final(v)) == spec_with_member(json_view(*old(v)), key@, json_view(item)),
{
    v[key] = item;
}

/// `serde_json::Value::Object` of an empty `serde_json::Map`.
#[verifier::external_body]
pub(crate) fn empty_object() -> (v: serde_json::Value)
    ensures
        json_view(v) == Json::Object(Map::empty()),
{
    serde_json::Value::Object(serde_json::Map::new())
}

/// `serde_json::Value::Null`.
#[verifier::external_body]
pub(crate) fn null_value() -> (v: serde_json::Value)
    ensures
        json_view(v) == Json::Null,
{
    serde_json::Value::Null
}

/// `From<&str>` for `serde_json::Value`: a string value with the same characters.
#[verifier::external_body]
pub(crate) fn text_value(s: &str) -> (v: serde_json::Value)
    ensures
        json_view(v) == Json::Text(s@),
{
    serde_json::Value::from(s)
}

/// `From<i64>` for `serde_json::Value`: a number value that holds the integer.
#[verifier::external_body]
pub(crate) fn integer_value(n: i64) -> (v: serde_json::Value)
    ensures
        json_view(v) == Json::Int(n as int),
{
    serde_json::Value::from(n)
}

/// `ToString` for `serde_json::Value`, which prints the document compactly.
#[verifier::external_body]
pub(crate) fn to_text(v: &serde_json::Value) -> (text: String)
    ensures
        text@ == json_text(json_view(*v)),
{
    v.to_string()
}

/// `serde_json::from_str` at `serde_json::Value`: the document read from the
/// whole text, or the crate's error where the text is not one JSON document.
#[verifier::external_body]
pub(crate) fn parse(text: &str) -> (read: Result<serde_json::Value, serde_json::Error>)
    ensures
        match read {
            Ok(v) => json_parse(text@) == Some(json_view(v)),
            Err(_) => json_parse(text@) is None,
        },
{
    serde_json::from_str::<serde_json::Value>(text)
}

} // verus!
