//! JSON texts, produced by `serde_json`.

use vstd::prelude::*;

verus! {

/// The compact text of the JSON object that has the one member `key` with
/// the number `value`, as `serde_json` writes it.
pub uninterp spec fn json_number_entry(key: Seq<char>, value: int) -> Seq<char>;

/// Builds a `serde_json::Map` with the one member `key`, whose value is
/// `serde_json::Value::from(value)`, and renders it as a
/// `serde_json::Value::Object` with `to_string`. The text depends on the two
/// arguments alone.
#[verifier::external_body]
pub(crate) fn number_entry(key: &str, value: i64) -> (text: String)
    ensures
        text@ == json_number_entry(key@, value as int),
{
    let mut object = serde_json::Map::new();
    object.insert(key.to_string(), serde_json::Value::from(value));
    serde_json::Value::Object(object).to_string()
}

} // verus!
