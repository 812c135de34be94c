//! JSON documents as this library reads them. Parsing is done by
//! `serde_json`; everything that inspects a parsed document is verified
//! here against the spec-level lookup functions below.

use vstd::prelude::*;

verus! {

/// A parsed JSON document, as far as this library reads one. The explorer's
/// envelopes hold only strings, arrays and objects, so null, booleans and
/// numbers are kept only as markers: nothing in the library reads their
/// values. An object is a sequence of key/value pairs; `serde_json` hands
/// the keys back deduplicated, so a first-match lookup is unambiguous.
pub enum Json {
    Null,
    Bool(bool),
    Number,
    Text(String),
    Array(Vec<Json>),
    Object(Vec<(String, Json)>),
}

/// The document that a piece of text denotes, if it is valid JSON, with
/// null, booleans and numbers reduced to their markers. Whether a text is
/// valid JSON, and what it denotes, depend on the text alone; this names
/// that result, and `parse_json` below ties it to `serde_json`.
pub uninterp spec fn json_of(s: Seq<char>) -> Option<Json>;

/// Relies on `serde_json::from_str`: parses a text as a JSON document. The
/// error string carries `serde_json`'s description of why the text was
/// rejected; nothing is promised of it.
#[verifier::external_body]
pub fn parse_json(s: &str) -> (r: Result<Json, String>)
    ensures
        r matches Ok(j) ==> json_of(s@) == Some(j),
        r matches Err(_) ==> json_of(s@) is None,
{
    match serde_json::from_str::<serde_json::Value>(s) {
        Ok(v) => Ok(json_of_value(v)),
        Err(e) => Err(e.to_string()),
    }
}

/// Declares `serde_json::Value` so that the conversion below can take
/// one; the value itself stays opaque here.
#[verifier::external_type_specification]
#[verifier::external_body]
pub struct ExValue(serde_json::Value);

/// Relies on the shape of `serde_json::Value`: carries each variant of a
/// parsed document over to [`Json`], arm by arm, keeping strings, arrays
/// and objects and reducing the other variants to their markers. Called
/// only by `parse_json`.
#[verifier::external_body]
fn json_of_value(v: serde_json::Value) -> Json {
    match v {
        serde_json::Value::Null => Json::Null,
        serde_json::Value::Bool(b) => Json::Bool(b),
        serde_json::Value::Number(_) => Json::Number,
        serde_json::Value::String(s) => Json::Text(s),
        serde_json::Value::Array(a) => Json::Array(a.into_iter().map(json_of_value).collect()),
        serde_json::Value::Object(m) => Json::Object(
            m.into_iter().map(|(k, w)| (k, json_of_value(w))).collect(),
        ),
    }
}

/// The value under `key` among the fields from index `i` on: the first
/// pair whose key matches wins.
pub open spec fn lookup_from(fields: Seq<(String, Json)>, key: Seq<char>, i: int) -> Option<Json>
    decreases fields.len() - i,
{
    if i < 0 || i >= fields.len() {
        None
    } else if fields[i].0@ == key {
        Some(fields[i].1)
    } else {
        lookup_from(fields, key, i + 1)
    }
}

/// The value under `key` in an object's fields, if any.
pub open spec fn lookup(fields: Seq<(String, Json)>, key: Seq<char>) -> Option<Json> {
    lookup_from(fields, key, 0)
}

/// The string under `key`, if the object has that key and its value is a
/// string.
pub open spec fn string_field(fields: Seq<(String, Json)>, key: Seq<char>) -> Option<Seq<char>> {
    match lookup(fields, key) {
        Some(Json::Text(s)) => Some(s@),
        _ => None,
    }
}

/// Finds the value under `key` in an object's fields.
pub fn get_field<'a>(fields: &'a Vec<(String, Json)>, key: &String) -> (r: Option<&'a Json>)
    ensures
        match r {
            Some(j) => lookup(fields@, key@) == Some(*j),
            None => lookup(fields@, key@) is None,
        },
{
    let mut i: usize = 0;
    while i < fields.len()
        invariant
            i <= fields@.len(),
            lookup(fields@, key@) == lookup_from(fields@, key@, i as int),
        decreases fields@.len() - i,
    {
        let pair = &fields[i];
        if pair.0.eq(key) {
            return Some(&pair.1);
        }
        i = i + 1;
    }
    None
}

/// Finds the string under `key` in an object's fields; `None` when the key
/// is absent or its value is not a string.
pub fn get_string_field(fields: &Vec<(String, Json)>, key: &String) -> (r: Option<String>)
    ensures
        match r {
            Some(s) => string_field(fields@, key@) == Some(s@),
            None => string_field(fields@, key@) is None,
        },
{
    match get_field(fields, key) {
        Some(Json::Text(s)) => Some(s.clone()),
        _ => None,
    }
}

} // verus!
