//! What this library relies on from `serde_json`: the JSON value type, the
//! members of an object, and the parser.

use vstd::prelude::*;

verus! {

#[verifier::external_type_specification]
#[verifier::external_body]
pub struct ExValue(serde_json::Value);

/// The members of a JSON value, by key, when the value is an object; `None`
/// for an array, a string, a number, a boolean or null.
pub uninterp spec fn object_of(v: serde_json::Value) -> Option<Map<Seq<char>, serde_json::Value>>;

/// Relies on `serde_json::Value::is_object`: true exactly for an object.
pub assume_specification[ serde_json::Value::is_object ](v: &serde_json::Value) -> (r: bool)
    ensures
        r == object_of(*v) is Some,
;

/// The member of `v` under `key`: `None` when `v` is no object or has no such
/// member.
pub open spec fn member_of(v: serde_json::Value, key: Seq<char>) -> Option<serde_json::Value> {
    match object_of(v) {
        Some(m) => if m.contains_key(key) {
            Some(m[key])
        } else {
            None
        },
        None => None,
    }
}

/// Relies on `serde_json::Value::get` with a string index: on an object it
/// looks the key up among the members, on any other value it finds nothing.
#[verifier::external_body]
pub(crate) fn member<'a>(v: &'a serde_json::Value, key: &str) -> (r: Option<&'a serde_json::Value>)
    ensures
        r is None <==> member_of(*v, key@) is None,
        r matches Some(x) ==> member_of(*v, key@) == Some(*x),
{
    v.get(key)
}

/// The text of each string, in order.
pub open spec fn texts_of(names: Seq<String>) -> Seq<Seq<char>> {
    names.map_values(|s: String| s@)
}

/// `names` lists each member key of an object with members `m` once.
pub open spec fn lists_keys_of(names: Seq<String>, m: Map<Seq<char>, serde_json::Value>) -> bool {
    &&& texts_of(names).to_set() == m.dom()
    &&& texts_of(names).no_duplicates()
}

/// Relies on `serde_json::Value::as_object` and `serde_json::Map::keys`: an
/// object's member keys are distinct, and the iterator yields each of them
/// once; any other value is no object.
#[verifier::external_body]
pub(crate) fn object_keys(v: &serde_json::Value) -> (r: Option<Vec<String>>)
    ensures
        match object_of(*v) {
            Some(m) => r matches Some(names) && lists_keys_of(names@, m),
            None => r is None,
        },
{
    match v.as_object() {
        Some(m) => Some(m.keys().cloned().collect()),
        None => None,
    }
}

#[verifier::external_type_specification]
#[verifier::external_body]
pub struct ExError(serde_json::Error);

/// Whether serde_json accepts `s` as a JSON value: a single value, with
/// nothing but whitespace around it.
pub uninterp spec fn is_json_text(s: Seq<char>) -> bool;

/// The JSON value that serde_json reads from `s`, where it accepts `s`.
pub uninterp spec fn json_of(s: Seq<char>) -> serde_json::Value;

/// Relies on `serde_json::from_str` into a `serde_json::Value`: whether it
/// accepts the text, and the value it reads, depend on the text alone; empty
/// text ends before any value and is refused.
#[verifier::external_body]
pub(crate) fn parse_value(text: &str) -> (r: Result<serde_json::Value, serde_json::Error>)
    ensures
        r is Ok <==> is_json_text(text@),
        r matches Ok(v) ==> v == json_of(text@),
        text@.len() == 0 ==> r is Err,
{
    serde_json::from_str(text)
}

} // verus!
