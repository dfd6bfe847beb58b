//! Settings: texts kept under keys.

use vstd::prelude::*;
use crate::text::begins_with;
use crate::error::listing_failure;
use std::collections::HashMap;
use crate::db::DbConnection;
use crate::rows::get_text;
use crate::rows::text_at;
use crate::rows::BAD_ROW;
use crate::error::listing_error;
use crate::error::written;
use crate::sqlite::execute_with;
use crate::sqlite::query_rows;
use crate::sqlite::Cell;
use crate::sqlite::SqlValue;
use crate::text::concat;

verus! {

/// One setting.
#[derive(Debug, Clone)]
pub struct Setting {
    pub key: String,
    pub value: String,
}

/// Whether a settings row can be read: key and value are texts.
pub open spec fn setting_row_readable(row: Seq<Cell>) -> bool {
    text_at(row, 0) is Some && text_at(row, 1) is Some
}

/// The settings read from `rows`, in order, or the message for the first row
/// that cannot be read.
pub fn settings_from_rows(rows: &Vec<Vec<Cell>>) -> (r: Result<Vec<Setting>, String>)
    ensures
        r matches Err(message) ==> begins_with(message@, "Row parsing error: "@),
        r is Ok <==> forall|i: int|
            0 <= i < rows@.len() ==> setting_row_readable(#[trigger] rows@[i]@),
        r matches Ok(list) ==> list@.len() == rows@.len() && forall|i: int|
            0 <= i < list@.len() ==> Some((#[trigger] list@[i]).key@) == text_at(rows@[i]@, 0)
                && Some(list@[i].value@) == text_at(rows@[i]@, 1),
{
    let mut list: Vec<Setting> = Vec::new();
    let mut i: usize = 0;
    while i < rows.len()
        invariant
            i <= rows@.len(),
            list@.len() == i,
            forall|j: int| 0 <= j < i ==> setting_row_readable(#[trigger] rows@[j]@),
            forall|j: int|
                0 <= j < i ==> Some((#[trigger] list@[j]).key@) == text_at(rows@[j]@, 0) && Some(
                    list@[j].value@,
                ) == text_at(rows@[j]@, 1),
        decreases rows@.len() - i,
    {
        match (get_text(&rows[i], 0), get_text(&rows[i], 1)) {
            (Some(key), Some(value)) => list.push(Setting { key, value }),
            _ => {
                return Err(concat("Row parsing error: ", BAD_ROW));
            },
        }
        i += 1;
    }
    Ok(list)
}

/// The map that holds the settings of `list`: each key with its value, and
/// of two settings with the same key the later one.
pub open spec fn settings_entries(list: Seq<Setting>) -> Map<String, String>
    decreases list.len(),
{
    if list.len() == 0 {
        Map::empty()
    } else {
        settings_entries(list.drop_last()).insert(list.last().key, list.last().value)
    }
}

/// The settings of `list` as a map; of two settings with the same key the
/// later one stays.
///
/// What the map holds is stated under the condition under which anything is
/// known of a `HashMap`: that its keys obey the model of hash-table keys.
pub fn settings_map(list: Vec<Setting>) -> (map: HashMap<String, String>)
    ensures
        vstd::std_specs::hash::obeys_key_model::<String>() ==> map@ == settings_entries(list@),
{
    broadcast use vstd::std_specs::hash::group_hash_axioms;

    let mut map: HashMap<String, String> = HashMap::new();
    let mut i: usize = 0;
    assert(list@.take(0) =~= Seq::empty());
    while i < list.len()
        invariant
            i <= list@.len(),
            vstd::std_specs::hash::obeys_key_model::<String>() ==> map@ == settings_entries(
                list@.take(i as int),
            ),
        decreases list@.len() - i,
    {
        proof {
            assert(list@.take(i + 1).drop_last() =~= list@.take(i as int));
            assert(list@.take(i + 1).last() == list@[i as int]);
        }
        map.insert(list[i].key.clone(), list[i].value.clone());
        i += 1;
    }
    assert(list@.take(list@.len() as int) == list@);
    map
}

/// All settings, by key.
pub fn get_settings(db: &DbConnection) -> (r: Result<HashMap<String, String>, String>)
    ensures
        r matches Err(message) ==> listing_failure(message@),
{
    let none: Vec<SqlValue> = Vec::new();
    match query_rows(&db.conn, "SELECT key, value FROM settings", &none) {
        Ok(rows) => Ok(settings_map(settings_from_rows(&rows)?)),
        Err(e) => Err(listing_error(&e)),
    }
}

/// Stores `value` under `key`, replacing what was there.
pub fn update_settings(db: &DbConnection, key: String, value: String) -> (r: Result<(), String>)
    ensures
        r matches Err(message) ==> begins_with(message@, "Failed to update setting: "@),
{
    let mut params: Vec<SqlValue> = Vec::new();
    params.push(SqlValue::Text(key));
    params.push(SqlValue::Text(value));
    written(
        execute_with(
            &db.conn,
            "INSERT OR REPLACE INTO settings (key, value) VALUES (?1, ?2)",
            &params,
        ),
        "Failed to update setting: ",
    )
}

} // verus!
