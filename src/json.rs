//! Reading and writing JSON text through serde_json.
use vstd::prelude::*;
use crate::style_map::{distinct_keys, member_views, pair_views};

verus! {

/// The string member `key` of the JSON object that `text` holds, as serde_json
/// reads it; `None` where the text is no JSON, no object, or the member is
/// missing or no string.
pub uninterp spec fn json_string_member(text: Seq<char>, key: Seq<char>) -> Option<Seq<char>>;

/// The object member `key` of the JSON object that `text` holds, as serde_json
/// reads it: its entries in the order of `serde_json::Map`, each value as a
/// string where it is one; `None` where there is no such object.
pub uninterp spec fn json_object_member(text: Seq<char>, key: Seq<char>) -> Option<
    Seq<(Seq<char>, Option<Seq<char>>)>,
>;

/// Whether serde_json reads `text` as a JSON value.
pub uninterp spec fn json_parses(text: Seq<char>) -> bool;

/// The JSON object text that serde_json writes for a map from names to strings.
pub uninterp spec fn json_object_text(entries: Seq<(Seq<char>, Seq<char>)>) -> Seq<char>;

/// Relies on `serde_json::from_str::<serde_json::Value>`: whether the text
/// parses as a JSON value.
#[verifier::external_body]
pub fn parses_as_json(text: &str) -> (r: bool)
    ensures
        r == json_parses(text@),
{
    serde_json::from_str::<serde_json::Value>(text).is_ok()
}

/// Relies on `serde_json::from_str::<serde_json::Value>` and `Value::get`: the
/// member `key` of the parsed value, when the text parses and that member is a
/// string.
#[verifier::external_body]
pub fn string_member(text: &str, key: &str) -> (r: Option<String>)
    ensures
        match r {
            Some(v) => json_string_member(text@, key@) == Some(v@),
            None => json_string_member(text@, key@) is None,
        },
{
    match serde_json::from_str::<serde_json::Value>(text) {
        Ok(v) => match v.get(key) {
            Some(serde_json::Value::String(s)) => Some(s.clone()),
            _ => None,
        },
        Err(_) => None,
    }
}

/// Relies on `serde_json::from_str::<serde_json::Value>` and `Value::get`: the
/// member `key` of the parsed value, when the text parses and that member is
/// an object. A `serde_json::Map` holds each name once.
#[verifier::external_body]
pub fn object_member(text: &str, key: &str) -> (r: Option<Vec<(String, Option<String>)>>)
    ensures
        match r {
            Some(es) => json_object_member(text@, key@) == Some(member_views(es@))
                && distinct_keys(member_views(es@)),
            None => json_object_member(text@, key@) is None,
        },
{
    match serde_json::from_str::<serde_json::Value>(text) {
        Ok(v) => match v.get(key) {
            Some(serde_json::Value::Object(m)) => Some(
                m.iter().map(|(k, v)| (k.clone(), v.as_str().map(|s| s.to_string()))).collect(),
            ),
            _ => None,
        },
        Err(_) => None,
    }
}

/// Relies on `serde_json::to_string` of a `BTreeMap` from names to strings,
/// which cannot fail: a JSON object text that depends on the entries alone.
#[verifier::external_body]
pub fn object_text(entries: &Vec<(String, String)>) -> (r: String)
    ensures
        r@ == json_object_text(pair_views(entries@)),
{
    let m: std::collections::BTreeMap<&str, &str> = entries.iter().map(
        |(k, v)| (k.as_str(), v.as_str()),
    ).collect();
    serde_json::to_string(&m).unwrap_or_default()
}

} // verus!
