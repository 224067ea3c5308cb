//! Reading a JSON object out of a text, through `serde_json`.
use std::collections::BTreeMap;

use serde_json::Value;
use vstd::prelude::*;

use crate::string_map::{keys_distinct, pairs_view};

verus! {

/// The entries of the JSON object that `text` holds: each key with the compact
/// JSON text of its value. No value when `text` is not exactly one JSON
/// object.
pub uninterp spec fn json_object_entries(text: Seq<char>) -> Option<Seq<(Seq<char>, Seq<char>)>>;

/// Calls `serde_json::from_str` to read `text` as a map from strings to JSON
/// values, and renders each value with `serde_json::Value`'s `Display` (its
/// compact JSON text). The map is a `BTreeMap`, so each key comes out once.
/// The contract claims only that: the result is the named function of the
/// text, and its keys are distinct. It says nothing of JSON's grammar.
#[verifier::external_body]
fn parse_json_object(text: &str) -> (r: Option<Vec<(String, String)>>)
    ensures
        match r {
            Some(v) => json_object_entries(text@) == Some(pairs_view(v@)) && keys_distinct(
                pairs_view(v@),
            ),
            None => json_object_entries(text@) is None,
        },
{
    let parsed: Option<BTreeMap<String, Value>> = serde_json::from_str(text).ok();
    parsed.map(|m| m.into_iter().map(|(k, v)| (k, v.to_string())).collect())
}

/// The entries of the JSON object in `text`; none when `text` is not a JSON
/// object.
pub fn json_object_entries_or_empty(text: &str) -> (r: Vec<(String, String)>)
    ensures
        json_object_entries(text@) matches Some(e) ==> pairs_view(r@) == e,
        json_object_entries(text@) is None ==> r@.len() == 0,
        keys_distinct(pairs_view(r@)),
{
    match parse_json_object(text) {
        Some(v) => v,
        None => Vec::new(),
    }
}

} // verus!
