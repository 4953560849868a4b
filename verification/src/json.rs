//! JSON values: parsed by serde_json, read through their string members.

use vstd::prelude::*;

verus! {

/// A parsed JSON document (`serde_json::Value`).
#[verifier::external_type_specification]
#[verifier::external_body]
pub struct ExJsonValue(serde_json::Value);

/// The string members of a JSON value: for an object, each key whose value
/// is a JSON string, mapped to that string; for any other value, none.
pub uninterp spec fn json_string_members(v: serde_json::Value) -> Map<Seq<char>, Seq<char>>;

/// What `serde_json::from_str::<Value>` makes of a text, seen through its
/// string members: `None` where the text is not a JSON document.
pub uninterp spec fn parsed_json_members(text: Seq<char>) -> Option<Map<Seq<char>, Seq<char>>>;

/// `serde_json::from_str::<serde_json::Value>`: the document, or `None`
/// where the text is not JSON. Which texts parse, and to what, is named
/// (`parsed_json_members`), not written out.
#[verifier::external_body]
pub(crate) fn parse_json(text: &str) -> (r: Option<serde_json::Value>)
    ensures
        match r {
            Some(v) => parsed_json_members(text@) == Some(json_string_members(v)),
            None => parsed_json_members(text@) is None,
        },
{
    serde_json::from_str::<serde_json::Value>(text).ok()
}

/// `Value::get` with a key, kept only where the member is a JSON string:
/// exactly the string members of the value.
#[verifier::external_body]
pub(crate) fn json_str_member(v: &serde_json::Value, key: &str) -> (r: Option<String>)
    ensures
        match r {
            Some(s) => json_string_members(*v).contains_key(key@) && json_string_members(*v)[key@]
                == s@,
            None => !json_string_members(*v).contains_key(key@),
        },
{
    match v.get(key) {
        Some(serde_json::Value::String(s)) => Some(s.clone()),
        _ => None,
    }
}

/// The string member `key` of the document `text`, if the text is JSON and
/// has one.
pub open spec fn json_text_member(text: Seq<char>, key: Seq<char>) -> Option<Seq<char>> {
    match parsed_json_members(text) {
        Some(m) => if m.contains_key(key) {
            Some(m[key])
        } else {
            None
        },
        None => None,
    }
}

/// Reads the string member `key` of a JSON text.
pub fn text_str_member(text: &str, key: &str) -> (r: Option<String>)
    ensures
        match r {
            Some(s) => json_text_member(text@, key@) == Some(s@),
            None => json_text_member(text@, key@) is None,
        },
{
    match parse_json(text) {
        Some(v) => json_str_member(&v, key),
        None => None,
    }
}

} // verus!
