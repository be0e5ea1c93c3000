//! Trusted boundary to the JSON reader used for configuration-schema
//! documents, and the mathematical model of such a document.
//!
//! A parsed value is opaque, but what it holds is a mathematical document:
//! `spec_doc` names the document a value holds, and `spec_json_text` names
//! the parse of a text — both are functions of their argument alone, so the
//! names are sound. Every accessor's contract speaks over `spec_doc`, which
//! lets the verified schema walker in the host carry an exact contract.
use vstd::prelude::*;

verus! {

/// The mathematical image of a JSON document. Numbers are not told apart:
/// nothing in this crate reads one.
pub ghost enum JsonDoc {
    Null,
    Bool(bool),
    Number,
    Text(Seq<char>),
    Array(Seq<JsonDoc>),
    Object(Map<Seq<char>, JsonDoc>),
}

#[verifier::external_type_specification]
#[verifier::external_body]
pub struct ExJsonValue(serde_json::Value);

/// The document a parsed value holds. What a value holds depends on the
/// value alone.
pub uninterp spec fn spec_doc(v: serde_json::Value) -> JsonDoc;

/// The document a text parses to, or `None` when the text is no JSON
/// document. The parse depends on the text alone.
pub uninterp spec fn spec_json_text(text: Seq<char>) -> Option<JsonDoc>;

/// Relies on `serde_json::from_str`: builds the value tree of a JSON text —
/// the tree holds the text's document — or reports why the text is no JSON
/// document.
#[verifier::external_body]
pub fn parse_json(text: &str) -> (r: Result<serde_json::Value, String>)
    ensures
        (match r {
            Ok(v) => spec_json_text(text@) == Some(spec_doc(v)),
            Err(_) => spec_json_text(text@) is None,
        }),
{
    serde_json::from_str::<serde_json::Value>(text).map_err(|err| format!("{err:?}"))
}

/// Relies on `serde_json::Value::get`: the member of an object under the
/// key — exactly when the value is an object and has one.
#[verifier::external_body]
pub fn json_get<'a>(v: &'a serde_json::Value, key: &str) -> (r: Option<&'a serde_json::Value>)
    ensures
        (match r {
            Some(member) => spec_doc(*v) is Object && spec_doc(*v)->Object_0.contains_key(key@)
                && spec_doc(*member) == spec_doc(*v)->Object_0[key@],
            None => !(spec_doc(*v) is Object && spec_doc(*v)->Object_0.contains_key(key@)),
        }),
{
    v.get(key)
}

/// Relies on `serde_json::Value::as_array`: the elements — exactly when the
/// value is an array — holding the array's documents in order.
#[verifier::external_body]
pub fn json_as_array<'a>(v: &'a serde_json::Value) -> (r: Option<&'a Vec<serde_json::Value>>)
    ensures
        (match r {
            Some(elems) => spec_doc(*v) is Array && elems@.len() == spec_doc(*v)->Array_0.len()
                && (forall|i: int|
                0 <= i < elems@.len() ==> spec_doc(elems@[i]) == spec_doc(*v)->Array_0[i]),
            None => !(spec_doc(*v) is Array),
        }),
{
    v.as_array()
}

/// Relies on `serde_json::Value::as_str`: the text — exactly when the value
/// is a string.
#[verifier::external_body]
pub fn json_as_str<'a>(v: &'a serde_json::Value) -> (r: Option<&'a str>)
    ensures
        (match r {
            Some(s) => spec_doc(*v) == JsonDoc::Text(s@),
            None => !(spec_doc(*v) is Text),
        }),
{
    v.as_str()
}

/// Relies on `serde_json::Value::is_object`: whether the value is an object.
#[verifier::external_body]
pub fn json_is_object(v: &serde_json::Value) -> (r: bool)
    ensures
        r == (spec_doc(*v) is Object),
{
    v.is_object()
}

} // verus!
