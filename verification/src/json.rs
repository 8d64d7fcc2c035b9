//! A mathematical model of parsed JSON documents, and the trusted boundary to
//! `serde_json`, which does the parsing.
//!
//! `JsonData` is a ghost mirror of a `serde_json::Value`: it keeps exactly the
//! shapes the library reads (strings, arrays, objects, null) and collapses the
//! scalars it never looks into (booleans and numbers) to `Scalar`. The
//! uninterpreted function `json_model` ties each `serde_json::Value` to its
//! mirror; every trusted accessor below states its result through that model.

use vstd::prelude::*;

verus! {

/// The shape of one parsed JSON value, as far as this library reads it.
///
/// An object is a sequence of key/value pairs; `serde_json` parses objects
/// into a map, so the keys of a modeled object are distinct and lookup by key
/// is unambiguous. Booleans and numbers are never inspected here and are all
/// modeled as `Scalar`.
pub enum JsonData {
    Null,
    Scalar,
    Str(Seq<char>),
    Arr(Seq<JsonData>),
    Obj(Seq<(Seq<char>, JsonData)>),
}

/// The value of the first field named `key`, if any.
pub open spec fn obj_lookup(fields: Seq<(Seq<char>, JsonData)>, key: Seq<char>) -> Option<JsonData>
    decreases fields.len(),
{
    if fields.len() == 0 {
        None
    } else if fields.first().0 == key {
        Some(fields.first().1)
    } else {
        obj_lookup(fields.drop_first(), key)
    }
}

/// Field lookup on a JSON value: a result only on objects that carry the key.
pub open spec fn field_of(j: JsonData, key: Seq<char>) -> Option<JsonData> {
    match j {
        JsonData::Obj(fields) => obj_lookup(fields, key),
        _ => None,
    }
}

/// The string held by field `key`, if the field is present and is a string.
pub open spec fn str_field_of(j: JsonData, key: Seq<char>) -> Option<Seq<char>> {
    match field_of(j, key) {
        Some(JsonData::Str(s)) => Some(s),
        _ => None,
    }
}

#[verifier::external_type_specification]
#[verifier::external_body]
pub struct ExValue(serde_json::Value);

#[verifier::external_type_specification]
#[verifier::external_body]
pub struct ExError(serde_json::Error);

/// The `JsonData` mirror of a parsed `serde_json::Value`.
pub uninterp spec fn json_model(v: serde_json::Value) -> JsonData;

/// What `serde_json` yields for a given input text: `Some` exactly on the
/// texts its parser accepts. Parsing is a function of the text alone.
pub uninterp spec fn parsed_json_of(s: Seq<char>) -> Option<JsonData>;

/// Relies on `serde_json::from_str::<serde_json::Value>`: parses one text into
/// a JSON value, deterministically, and fails on text it does not accept.
#[verifier::external_body]
pub(crate) fn parse_json(line: &str) -> (r: Result<serde_json::Value, serde_json::Error>)
    ensures
        match r {
            Ok(v) => parsed_json_of(line@) == Some(json_model(v)),
            Err(_) => parsed_json_of(line@) is None,
        },
{
    serde_json::from_str(line)
}

/// Relies on `serde_json::Value::get` with a `&str` index: on an object it
/// looks the key up in the underlying map, on every other shape it yields
/// nothing.
#[verifier::external_body]
pub(crate) fn json_get<'a>(v: &'a serde_json::Value, key: &str) -> (r: Option<
    &'a serde_json::Value,
>)
    ensures
        match r {
            Some(w) => field_of(json_model(*v), key@) == Some(json_model(*w)),
            None => field_of(json_model(*v), key@) is None,
        },
{
    v.get(key)
}

/// Relies on `serde_json::Value::as_str`: yields the string exactly when the
/// value is a JSON string.
#[verifier::external_body]
pub(crate) fn json_as_str<'a>(v: &'a serde_json::Value) -> (r: Option<&'a str>)
    ensures
        match r {
            Some(s) => json_model(*v) == JsonData::Str(s@),
            None => !(json_model(*v) is Str),
        },
{
    v.as_str()
}

/// Relies on `serde_json::Value::as_array`: yields the elements exactly when
/// the value is a JSON array.
#[verifier::external_body]
pub(crate) fn json_as_array<'a>(v: &'a serde_json::Value) -> (r: Option<
    &'a Vec<serde_json::Value>,
>)
    ensures
        match r {
            Some(a) => json_model(*v) == JsonData::Arr(
                a@.map_values(|w: serde_json::Value| json_model(w)),
            ),
            None => !(json_model(*v) is Arr),
        },
{
    v.as_array()
}

/// Relies on `serde_json::Value::is_null`: true exactly on JSON null.
#[verifier::external_body]
pub(crate) fn json_is_null(v: &serde_json::Value) -> (r: bool)
    ensures
        r <==> json_model(*v) is Null,
{
    v.is_null()
}

/// Relies on `Clone` for `serde_json::Value`: a clone is the same document.
pub assume_specification[ <serde_json::Value as Clone>::clone ](
    v: &serde_json::Value,
) -> (r: serde_json::Value)
    ensures
        json_model(r) == json_model(*v),
;

} // verus!
