//! The boundary with `serde_json`.
//!
//! A `serde_json::Value` is opaque to the verifier. What the rest of the crate
//! needs to know of one is given by four uninterpreted functions, and each
//! function below that calls into `serde_json` says, in its contract, how its
//! result relates to them. Those contracts are trusted, not proved.

use vstd::prelude::*;

verus! {

/// `serde_json::Value`, carried through verified code without looking inside.
#[verifier::external_type_specification]
#[verifier::external_body]
pub struct ExValue(serde_json::Value);

/// What `serde_json::from_str::<Value>` makes of a text: the document, or the
/// message of the error it reports.
pub uninterp spec fn json_parse(text: Seq<char>) -> Result<serde_json::Value, Seq<char>>;

/// The members of a JSON value by key: for an object its entries, for any
/// other kind of value the empty map. This is what `Value::get` with a string
/// index looks into.
pub uninterp spec fn json_fields(v: serde_json::Value) -> Map<Seq<char>, serde_json::Value>;

/// The keys of a JSON object in the order in which `serde_json::Map::keys`
/// yields them; `None` for a value that is not an object.
pub uninterp spec fn json_object_keys(v: serde_json::Value) -> Option<Seq<Seq<char>>>;

/// What `serde_json::to_string` makes of a value: its compact JSON text, or
/// the message of the error it reports.
pub uninterp spec fn json_text(v: serde_json::Value) -> Result<Seq<char>, Seq<char>>;

/// What `serde_json::to_string` makes of a list of strings: the text of a JSON
/// array of strings, or the message of the error it reports.
pub uninterp spec fn json_text_of_names(names: Seq<Seq<char>>) -> Result<Seq<char>, Seq<char>>;

/// Calls `serde_json::from_str` to read a text as a JSON value.
///
/// Trusted: the outcome depends on the text alone and is the one that
/// `json_parse` names. A failure is handed on as the error's message.
#[verifier::external_body]
pub(crate) fn parse_document(text: &str) -> (r: Result<serde_json::Value, String>)
    ensures
        match r {
            Ok(v) => json_parse(text@) == Ok::<serde_json::Value, Seq<char>>(v),
            Err(message) => json_parse(text@) == Err::<serde_json::Value, Seq<char>>(message@),
        },
{
    match serde_json::from_str::<serde_json::Value>(text) {
        Ok(v) => Ok(v),
        Err(e) => Err(e.to_string()),
    }
}

/// Calls `Value::get` with a string index.
///
/// Trusted: the result is the member stored under exactly that key, and
/// `None` where the value is not an object or has no such key.
#[verifier::external_body]
pub(crate) fn member<'a>(v: &'a serde_json::Value, key: &str) -> (r: Option<&'a serde_json::Value>)
    ensures
        match r {
            Some(found) => json_fields(*v).dom().contains(key@) && *found == json_fields(*v)[key@],
            None => !json_fields(*v).dom().contains(key@),
        },
{
    v.get(key)
}

/// Calls `Value::as_object` and, on an object, `Map::keys`, copying each key.
///
/// Trusted: the result is `None` exactly for a value that is not an object;
/// for an object it lists the keys in the map's own order, each key once, and
/// the keys listed are exactly those under which `Value::get` finds a member.
#[verifier::external_body]
pub(crate) fn object_keys(v: &serde_json::Value) -> (r: Option<Vec<String>>)
    ensures
        match r {
            Some(keys) => {
                &&& json_object_keys(*v) == Some(keys.deep_view())
                &&& keys.deep_view().no_duplicates()
                &&& keys.deep_view().to_set() == json_fields(*v).dom()
            },
            None => json_object_keys(*v) is None,
        },
{
    match v.as_object() {
        Some(map) => Some(map.keys().cloned().collect()),
        None => None,
    }
}

/// Calls `serde_json::to_string` on a JSON value.
///
/// Trusted: the outcome depends on the value alone and is the one that
/// `json_text` names. A failure is handed on as the error's message.
#[verifier::external_body]
pub(crate) fn value_text(v: &serde_json::Value) -> (r: Result<String, String>)
    ensures
        match r {
            Ok(text) => json_text(*v) == Ok::<Seq<char>, Seq<char>>(text@),
            Err(message) => json_text(*v) == Err::<Seq<char>, Seq<char>>(message@),
        },
{
    match serde_json::to_string(v) {
        Ok(text) => Ok(text),
        Err(e) => Err(e.to_string()),
    }
}

/// Calls `serde_json::to_string` on a list of strings.
///
/// Trusted: the outcome depends on the strings alone and is the one that
/// `json_text_of_names` names. A failure is handed on as the error's message.
#[verifier::external_body]
pub(crate) fn names_text(names: &Vec<String>) -> (r: Result<String, String>)
    ensures
        match r {
            Ok(text) => json_text_of_names(names.deep_view()) == Ok::<Seq<char>, Seq<char>>(text@),
            Err(message) => json_text_of_names(names.deep_view()) == Err::<Seq<char>, Seq<char>>(
                message@,
            ),
        },
{
    match serde_json::to_string(names) {
        Ok(text) => Ok(text),
        Err(e) => Err(e.to_string()),
    }
}

} // verus!
