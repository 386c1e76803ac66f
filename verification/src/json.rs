//! Structured-document model.
//!
//! Declarative binding-set and pipeline files are JSON. The text is parsed by
//! `serde_json` behind a single trusted boundary; everything after that point
//! works on [`JsonValue`], a value tree the rest of the library can reason
//! about exactly.

use vstd::prelude::*;

verus! {

/// A JSON number. Integers keep their exact value; any other number is kept
/// as its decimal rendering, so that the value crosses this crate unread and
/// a collaborator on the far side decides its machine representation.
#[derive(PartialEq, Debug)]
pub enum JsonNumber {
    UInt(u64),
    Int(i64),
    Decimal(String),
}

impl JsonNumber {
    /// A copy that is provably the same number.
    pub fn duplicate(&self) -> (r: JsonNumber)
        ensures
            r == *self,
    {
        match self {
            JsonNumber::UInt(u) => JsonNumber::UInt(*u),
            JsonNumber::Int(i) => JsonNumber::Int(*i),
            JsonNumber::Decimal(s) => JsonNumber::Decimal(s.clone()),
        }
    }
}

/// A JSON document tree.
#[derive(PartialEq, Debug)]
pub enum JsonValue {
    Null,
    Bool(bool),
    Num(JsonNumber),
    Str(String),
    Arr(Vec<JsonValue>),
    Obj(Vec<(String, JsonValue)>),
}

/// First value bound to `key` in an object's entry list, if any.
pub open spec fn spec_obj_entries_get(
    entries: Seq<(String, JsonValue)>,
    key: Seq<char>,
) -> Option<JsonValue>
    decreases entries.len(),
{
    if entries.len() == 0 {
        None
    } else if entries[0].0@ == key {
        Some(entries[0].1)
    } else {
        spec_obj_entries_get(entries.drop_first(), key)
    }
}

/// Field lookup: `key`'s value when `v` is an object holding it, else `None`.
pub open spec fn spec_get_field(v: JsonValue, key: Seq<char>) -> Option<JsonValue> {
    match v {
        JsonValue::Obj(entries) => spec_obj_entries_get(entries@, key),
        _ => None,
    }
}

/// Content equality of two string slices.
pub fn str_eq(a: &str, b: &str) -> (r: bool)
    ensures
        r == (a@ == b@),
{
    let owned_a: String = a.to_owned();
    let owned_b: String = b.to_owned();
    owned_a == owned_b
}

fn obj_entries_get_from<'a>(
    entries: &'a Vec<(String, JsonValue)>,
    i: usize,
    key: &str,
) -> (r: Option<&'a JsonValue>)
    requires
        i <= entries@.len(),
    ensures
        match r {
            Some(f) => spec_obj_entries_get(entries@.skip(i as int), key@) == Some(*f),
            None => spec_obj_entries_get(entries@.skip(i as int), key@) is None,
        },
    decreases entries@.len() - i,
{
    if i == entries.len() {
        None
    } else {
        proof {
            assert(entries@.skip(i as int).drop_first() =~= entries@.skip(i as int + 1));
        }
        let entry = &entries[i];
        if str_eq(entry.0.as_str(), key) {
            Some(&entry.1)
        } else {
            obj_entries_get_from(entries, i + 1, key)
        }
    }
}

/// Looks `key` up in `v`; `None` when `v` is not an object or has no such
/// field.
pub fn get_field<'a>(v: &'a JsonValue, key: &str) -> (r: Option<&'a JsonValue>)
    ensures
        match r {
            Some(f) => spec_get_field(*v, key@) == Some(*f),
            None => spec_get_field(*v, key@) is None,
        },
{
    match v {
        JsonValue::Obj(entries) => {
            proof {
                assert(entries@.skip(0) =~= entries@);
            }
            obj_entries_get_from(entries, 0, key)
        },
        _ => None,
    }
}

/// Declares `serde_json`'s opaque value type so that the trusted translation
/// below may take it; nothing inside it is visible here.
#[verifier::external_type_specification]
#[verifier::external_body]
pub struct ExSerdeJsonValue(serde_json::Value);

/// The document tree that `serde_json` yields for a text, translated into
/// [`JsonValue`]; `None` when the text is not valid JSON. The result depends
/// on the text alone.
pub uninterp spec fn json_doc_of(text: Seq<char>) -> Option<JsonValue>;

/// Relies on `serde_json::from_str::<serde_json::Value>`: parses the text as
/// JSON, deterministically in the text alone (object keys come back sorted,
/// as `serde_json`'s default map stores them).
#[verifier::external_body]
pub fn parse_document(text: &str) -> (r: Option<JsonValue>)
    ensures
        r == json_doc_of(text@),
{
    match serde_json::from_str::<serde_json::Value>(text) {
        Ok(v) => Some(json_value_to_model(v)),
        Err(_) => None,
    }
}

/// Relies on `serde_json::Value` only as a source enum: each variant is moved
/// into the matching [`JsonValue`] variant, fields carried over one for one
/// (`serde_json::Number` read through its exact `as_u64` / `as_i64` readings
/// where they apply, else kept as its decimal rendering).
#[verifier::external_body]
fn json_value_to_model(v: serde_json::Value) -> JsonValue {
    match v {
        serde_json::Value::Null => JsonValue::Null,
        serde_json::Value::Bool(b) => JsonValue::Bool(b),
        serde_json::Value::Number(n) => JsonValue::Num(if let Some(u) = n.as_u64() { JsonNumber::UInt(u) } else if let Some(i) = n.as_i64() { JsonNumber::Int(i) } else { JsonNumber::Decimal(n.to_string()) }),
        serde_json::Value::String(s) => JsonValue::Str(s),
        serde_json::Value::Array(a) => JsonValue::Arr(a.into_iter().map(json_value_to_model).collect()),
        serde_json::Value::Object(o) => JsonValue::Obj(o.into_iter().map(|(k, x)| (k, json_value_to_model(x))).collect()),
    }
}

} // verus!
