//! JSON values: their mathematical content, and the calls into serde_json.

use vstd::prelude::*;
use vstd::utf8::{encode_utf8, valid_utf8};

verus! {

/// A number in the three forms that serde_json tells apart.
pub enum Num {
    Unsigned(u64),
    /// Below zero.
    Signed(i64),
    /// The bits of a finite double.
    Double(u64),
}

/// The content of a JSON value.
pub enum Json {
    Null,
    Bool(bool),
    Number(Num),
    Text(Seq<char>),
    Array(Seq<Json>),
    Object(Map<Seq<char>, Json>),
}

/// The content of a JSON object.
pub type Members = Map<Seq<char>, Json>;

/// Structured log fields: a JSON object.
pub type LogFields = serde_json::Map<String, serde_json::Value>;

#[verifier::external_type_specification]
#[verifier::external_body]
pub struct ExValue(serde_json::Value);

#[verifier::external_type_specification]
#[verifier::external_body]
#[verifier::reject_recursive_types(K)]
#[verifier::reject_recursive_types(V)]
pub struct ExMap<K, V>(serde_json::Map<K, V>);

#[verifier::external_type_specification]
#[verifier::external_body]
pub struct ExError(serde_json::Error);

/// What a `serde_json::Value` holds.
pub uninterp spec fn json(v: serde_json::Value) -> Json;

/// What a `serde_json::Map` holds.
pub uninterp spec fn members(m: serde_json::Map<String, serde_json::Value>) -> Map<Seq<char>, Json>;

/// What `serde_json::from_slice` makes of a document, `None` where it reports an error.
pub uninterp spec fn parsed_json(bytes: Seq<u8>) -> Option<Json>;

/// What `serde_json::to_vec` writes for a value, `None` where it reports an error.
pub uninterp spec fn json_bytes(value: Json) -> Option<Seq<u8>>;

/// What `serde_json::to_string` writes for a value, `None` where it reports an error.
pub uninterp spec fn json_string(value: Json) -> Option<Seq<char>>;

/// What the `Display` impl of `serde_json::Value` writes for a value.
pub uninterp spec fn json_display(value: Json) -> Seq<char>;

/// The characters of an optional string slice.
pub open spec fn opt_str(s: Option<&str>) -> Option<Seq<char>> {
    match s {
        Some(t) => Some(t@),
        None => None,
    }
}

/// The characters of an optional string.
pub open spec fn opt_string(s: Option<String>) -> Option<Seq<char>> {
    match s {
        Some(t) => Some(t@),
        None => None,
    }
}

/// The elements of an optional byte vector.
pub open spec fn opt_bytes(b: Option<Vec<u8>>) -> Option<Seq<u8>> {
    match b {
        Some(v) => Some(v@),
        None => None,
    }
}

/// The content of an optional JSON value.
pub open spec fn opt_json(v: Option<serde_json::Value>) -> Option<Json> {
    match v {
        Some(x) => Some(json(x)),
        None => None,
    }
}

/// The contents of a sequence of JSON values.
pub open spec fn jsons(values: Seq<serde_json::Value>) -> Seq<Json> {
    Seq::new(values.len(), |i: int| json(values[i]))
}

/// The text of a JSON string, `None` for any other value.
pub open spec fn text_in(value: Json) -> Option<Seq<char>> {
    match value {
        Json::Text(t) => Some(t),
        _ => None,
    }
}

/// The value of a member, where the object has it.
pub open spec fn member(m: Members, key: Seq<char>) -> Option<Json> {
    if m.contains_key(key) {
        Some(m[key])
    } else {
        None
    }
}

/// A document of one line: not empty, and without a line feed.
pub open spec fn one_line(bytes: Seq<u8>) -> bool {
    bytes.len() > 0 && !bytes.contains(10u8)
}

/// A value that reads back as it was written: no fractions, no member under the name that
/// serde_json keeps for raw values, and no more than `depth` arrays and objects inside each other.
pub open spec fn portable(value: Json, depth: nat) -> bool
    decreases depth,
{
    match value {
        Json::Number(n) => !(n is Double),
        Json::Array(items) => depth > 0 && forall|i: int|
            0 <= i < items.len() ==> portable(#[trigger] items[i], (depth - 1) as nat),
        Json::Object(m) => {
            &&& depth > 0
            &&& !m.contains_key("$serde_json::private::RawValue"@)
            &&& forall|k: Seq<char>|
                #[trigger] m.contains_key(k) ==> portable(m[k], (depth - 1) as nat)
        },
        _ => true,
    }
}

/// The nesting that `serde_json::from_slice` accepts.
pub open spec fn max_depth() -> nat {
    127
}

/// `serde_json::Value::as_str`: the text of a string, nothing for any other value.
pub assume_specification[ serde_json::Value::as_str ](v: &serde_json::Value) -> (r: Option<&str>)
    ensures
        opt_str(r) == text_in(json(*v)),
;

/// `serde_json::Value::as_object`: the map of an object, nothing for any other value.
pub assume_specification[ serde_json::Value::as_object ](v: &serde_json::Value) -> (r: Option<
    &serde_json::Map<String, serde_json::Value>,
>)
    ensures
        r is Some <==> json(*v) is Object,
        r is Some ==> json(*v) == Json::Object(members(*r->0)),
;

/// `serde_json::Value::is_number`: whether the value is a number.
pub assume_specification[ serde_json::Value::is_number ](v: &serde_json::Value) -> (r: bool)
    ensures
        r == (json(*v) is Number),
;

/// The `Clone` impl of `serde_json::Value`: the clone has the same content.
pub assume_specification[ <serde_json::Value as Clone>::clone ](v: &serde_json::Value) -> (r:
    serde_json::Value)
    ensures
        json(r) == json(*v),
;

/// The variant `serde_json::Value::String`: a string with these characters.
#[verifier::external_body]
pub(crate) fn string_value(text: String) -> (r: serde_json::Value)
    ensures
        json(r) == Json::Text(text@),
{
    serde_json::Value::String(text)
}

/// The variant `serde_json::Value::Bool`: this truth value.
#[verifier::external_body]
pub(crate) fn bool_value(b: bool) -> (r: serde_json::Value)
    ensures
        json(r) == Json::Bool(b),
{
    serde_json::Value::Bool(b)
}

/// `serde_json::Number::from` for `u64`: the number in its unsigned form.
#[verifier::external_body]
pub(crate) fn number_value(n: u64) -> (r: serde_json::Value)
    ensures
        json(r) == Json::Number(Num::Unsigned(n)),
{
    serde_json::Value::Number(serde_json::Number::from(n))
}

/// The variant `serde_json::Value::Object`: an object with these members.
#[verifier::external_body]
pub(crate) fn object_value(m: LogFields) -> (r: serde_json::Value)
    ensures
        json(r) == Json::Object(members(m)),
{
    serde_json::Value::Object(m)
}

/// The variant `serde_json::Value::Array`: an array of these values, in this order.
#[verifier::external_body]
pub(crate) fn array_value(items: Vec<serde_json::Value>) -> (r: serde_json::Value)
    ensures
        json(r) == Json::Array(jsons(items@)),
{
    serde_json::Value::Array(items)
}

/// A `serde_json::Value` that is taken apart at the variant `Object`: the map of an object, and
/// any other value unchanged.
#[verifier::external_body]
pub(crate) fn into_object(v: serde_json::Value) -> (r: Result<LogFields, serde_json::Value>)
    ensures
        r is Ok <==> json(v) is Object,
        r is Ok ==> json(v) == Json::Object(members(r->Ok_0)),
        r is Err ==> json(r->Err_0) == json(v),
{
    match v {
        serde_json::Value::Object(m) => Ok(m),
        other => Err(other),
    }
}

/// `serde_json::Map::new`: an object without members.
#[verifier::external_body]
pub(crate) fn new_fields() -> (r: LogFields)
    ensures
        members(r) == Members::empty(),
{
    serde_json::Map::new()
}

/// The `Clone` impl of `serde_json::Map`: the clone has the same members.
#[verifier::external_body]
pub(crate) fn clone_fields(m: &LogFields) -> (r: LogFields)
    ensures
        members(r) == members(*m),
{
    m.clone()
}

/// `serde_json::Map::get`: the value of a member, nothing where there is none.
#[verifier::external_body]
pub(crate) fn get_field<'a>(m: &'a LogFields, key: &str) -> (r: Option<&'a serde_json::Value>)
    ensures
        r is Some <==> members(*m).contains_key(key@),
        r is Some ==> json(*r->0) == members(*m)[key@],
{
    m.get(key)
}

/// `serde_json::Map::insert`: the member gets this value, and no other member changes.
#[verifier::external_body]
pub(crate) fn set_field(m: &mut LogFields, key: &str, value: serde_json::Value)
    ensures
        members(*final(m)) == members(*old(m)).insert(key@, json(value)),
{
    m.insert(key.to_string(), value);
}

/// `serde_json::Map::entry` with `or_insert`: the member gets this value where it is absent; a
/// member that is there stays.
#[verifier::external_body]
pub(crate) fn default_field(m: &mut LogFields, key: &str, value: serde_json::Value)
    ensures
        members(*final(m)) == (if members(*old(m)).contains_key(key@) {
            members(*old(m))
        } else {
            members(*old(m)).insert(key@, json(value))
        }),
{
    m.entry(key.to_string()).or_insert(value);
}

/// `serde_json::Map::get_mut` with `Value::as_object_mut`: the map of a member that is an object,
/// lent for change; nothing where the member is absent or no object.
#[verifier::external_body]
pub(crate) fn object_field<'a>(m: &'a mut LogFields, key: &str) -> (r: Option<&'a mut LogFields>)
    ensures
        match r {
            Some(inner) => {
                &&& member(members(*old(m)), key@) == Some(Json::Object(members(*inner)))
                &&& members(*final(m)) == members(*old(m)).insert(
                    key@,
                    Json::Object(members(*final(inner))),
                )
            },
            None => {
                &&& members(*final(m)) == members(*old(m))
                &&& !(member(members(*old(m)), key@) matches Some(Json::Object(_)))
            },
        },
{
    m.get_mut(key).and_then(serde_json::Value::as_object_mut)
}

/// `serde_json::from_slice` for `serde_json::Value`: the value that the document holds, nothing
/// where it is no JSON. The grammar is left to the name `parsed_json`.
#[verifier::external_body]
pub(crate) fn parse_json(bytes: &[u8]) -> (r: Option<serde_json::Value>)
    ensures
        opt_json(r) == parsed_json(bytes@),
{
    serde_json::from_slice::<serde_json::Value>(bytes).ok()
}

/// `serde_json::to_vec` for a `serde_json::Value`: it succeeds, the document is one line of text,
/// and `serde_json::from_slice` gives a portable value back, with or without a line feed behind it.
/// What the document looks like is left to the name `json_bytes`.
#[verifier::external_body]
pub(crate) fn to_json_bytes(v: &serde_json::Value) -> (r: Option<Vec<u8>>)
    ensures
        opt_bytes(r) == json_bytes(json(*v)),
        r is Some,
        one_line(r->0@),
        valid_utf8(r->0@),
        portable(json(*v), max_depth()) ==> parsed_json(r->0@) == Some(json(*v)),
        portable(json(*v), max_depth()) ==> parsed_json(r->0@.push(10u8)) == Some(json(*v)),
{
    serde_json::to_vec(v).ok()
}

/// `serde_json::to_string` for a map: it succeeds, the text is one line, and
/// `serde_json::from_slice` gives a portable object back. What the text looks like is left to the
/// name `json_string`.
#[verifier::external_body]
pub(crate) fn to_json_string(m: &LogFields) -> (r: Option<String>)
    ensures
        opt_string(r) == json_string(Json::Object(members(*m))),
        r is Some,
        one_line(encode_utf8(r->0@)),
        portable(Json::Object(members(*m)), max_depth()) ==> parsed_json(encode_utf8(r->0@)) == Some(
            Json::Object(members(*m)),
        ),
{
    serde_json::to_string(m).ok()
}

/// The `Display` impl of `serde_json::Value`: the value as JSON text. What the text looks like is
/// left to the name `json_display`.
#[verifier::external_body]
pub(crate) fn display_value(v: &serde_json::Value) -> (r: String)
    ensures
        r@ == json_display(json(*v)),
{
    v.to_string()
}

/// The `Debug` impl of `serde_json::Error`: some text, not empty. How it describes the error is not
/// specified.
#[verifier::external_body]
pub(crate) fn debug_error(err: &serde_json::Error) -> (r: String)
    ensures
        r@.len() > 0,
{
    format!("{:?}", err)
}

/// Whether a text is how serde_json describes an error: a call of `debug_error` gives it.
pub open(crate) spec fn describes_error(text: Seq<char>, err: serde_json::Error) -> bool {
    exists|given: String| #[trigger] call_ensures(debug_error, (&err,), given) && given@ == text
}

/// A description of an error comes from serde_json, for that error, and is not empty.
pub(crate) proof fn law_description_comes_from_the_error(text: Seq<char>, err: serde_json::Error)
    requires
        describes_error(text, err),
    ensures
        exists|given: String| #[trigger]
            call_ensures(debug_error, (&err,), given) && given@ == text,
        text.len() > 0,
{
}

/// A JSON string with the characters of `text`.
pub(crate) fn text_value(text: &str) -> (r: serde_json::Value)
    ensures
        json(r) == Json::Text(text@),
{
    string_value(text.to_owned())
}

/// The JSON object that `bytes` hold, and an object without members where they hold none.
pub fn object_or_empty(bytes: &[u8]) -> (r: LogFields)
    ensures
        members(r) == object_in_bytes(bytes@),
{
    match parse_json(bytes) {
        Some(v) => match into_object(v) {
            Ok(m) => m,
            Err(_) => new_fields(),
        },
        None => new_fields(),
    }
}

/// The members of the object that a document holds; none where it holds anything else.
pub open spec fn object_in_bytes(bytes: Seq<u8>) -> Members {
    match parsed_json(bytes) {
        Some(Json::Object(m)) => m,
        _ => Map::empty(),
    }
}

/// Bytes that hold a JSON object give its members, and bytes that hold another value or no JSON
/// give none.
pub proof fn law_bytes_give_the_object_they_hold(bytes: Seq<u8>, m: Members)
    ensures
        parsed_json(bytes) == Some(Json::Object(m)) ==> object_in_bytes(bytes) == m,
        !(parsed_json(bytes) matches Some(Json::Object(_))) ==> object_in_bytes(bytes)
            == Map::<Seq<char>, Json>::empty(),
{
}

/// Whether a value is the object that bytes hold, and the empty object where they hold none.
pub open spec fn is_object_held(value: Json, bytes: Seq<u8>) -> bool {
    match parsed_json(bytes) {
        Some(Json::Object(m)) => value == Json::Object(m),
        _ => value == Json::Object(Map::empty()),
    }
}

/// Whether a record has this value under a name.
pub open spec fn says(record: Members, key: Seq<char>, value: Json) -> bool {
    record.contains_key(key) && record[key] == value
}


} // verus!
