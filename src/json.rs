//! The JSON documents that the exchanges answer with, as serde_json reads
//! them, and the few accessors that the adapters use to take them apart.
use vstd::prelude::*;

verus! {

/// A JSON document as a mathematical value.
///
/// `Number` holds the text that serde_json renders for the number, so that a
/// price sent as a bare number can be passed on as text without reformatting.
pub enum JsonView {
    Null,
    Bool(bool),
    Number(Seq<char>),
    Text(Seq<char>),
    Array(Seq<JsonView>),
    Object(Map<Seq<char>, JsonView>),
}

#[verifier::external_type_specification]
#[verifier::external_body]
pub struct ExValue(serde_json::Value);

#[verifier::external_type_specification]
#[verifier::external_body]
pub struct ExError(serde_json::Error);

/// What a `serde_json::Value` holds: its variant and, recursively, its
/// contents.
pub uninterp spec fn json_view(v: serde_json::Value) -> JsonView;

/// The document that `serde_json::from_str::<Value>` reads from a text, or
/// `None` where it rejects the text.
pub uninterp spec fn parsed_document(text: Seq<char>) -> Option<JsonView>;

/// Relies on `serde_json::from_str::<Value>`: it either reads the text as one
/// JSON value or fails, and the outcome depends on the text alone.
#[verifier::external_body]
pub(crate) fn read_document(body: &str) -> (r: Result<serde_json::Value, serde_json::Error>)
    ensures
        match r {
            Ok(v) => parsed_document(body@) == Some(json_view(v)),
            Err(_) => parsed_document(body@) is None,
        },
{
    serde_json::from_str::<serde_json::Value>(body)
}

/// Relies on `serde_json::Error`'s `Display`, for a human-readable message.
#[verifier::external_body]
pub(crate) fn error_message(e: &serde_json::Error) -> (r: String) {
    e.to_string()
}

/// Relies on `Value::as_array`: `Some` exactly on an array, with its items.
pub assume_specification[ serde_json::Value::as_array ](v: &serde_json::Value) -> (r: Option<&Vec<serde_json::Value>>)
    ensures
        match json_view(*v) {
            JsonView::Array(items) => r matches Some(a) && a@.len() == items.len()
                && forall|i: int| 0 <= i < items.len() ==> json_view(#[trigger] a@[i]) == items[i],
            _ => r is None,
        },
;

/// Relies on `Value::as_str`: `Some` exactly on a string, with its text.
pub assume_specification[ serde_json::Value::as_str ](v: &serde_json::Value) -> (r: Option<&str>)
    ensures
        match json_view(*v) {
            JsonView::Text(s) => r matches Some(t) && t@ == s,
            _ => r is None,
        },
;

/// Relies on `Value::get` with a `&str` key: on an object, the member under
/// that key if there is one; on any other value, `None`.
#[verifier::external_body]
pub(crate) fn member<'a>(v: &'a serde_json::Value, key: &str) -> (r: Option<&'a serde_json::Value>)
    ensures
        match json_view(*v) {
            JsonView::Object(m) => if m.contains_key(key@) {
                r matches Some(x) && json_view(*x) == m[key@]
            } else {
                r is None
            },
            _ => r is None,
        },
{
    v.get(key)
}

/// Relies on `Value::as_number` and `Number`'s `Display`: on a number, the
/// text serde_json renders for it; on any other value, `None`.
#[verifier::external_body]
pub(crate) fn number_text(v: &serde_json::Value) -> (r: Option<String>)
    ensures
        match json_view(*v) {
            JsonView::Number(t) => r matches Some(s) && s@ == t,
            _ => r is None,
        },
{
    v.as_number().map(ToString::to_string)
}

} // verus!
