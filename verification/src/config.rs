//! Reading and writing the bot's configuration, one value per key.
use vstd::prelude::*;
use crate::models::{ConfigInsert, ConfigQuery};

verus! {

/// The configured value, from the row found under the key (if any).
pub fn get(found: Option<ConfigQuery>) -> (value: Option<String>)
    ensures
        match found {
            Some(row) => value matches Some(v) && v@ == row.value@,
            None => value is None,
        },
{
    match found {
        Some(row) => Some(row.value),
        None => None,
    }
}

/// The row that stores `v` under the key `k`, replacing any value stored
/// there before.
pub fn set<'a>(k: &'a str, v: &'a str) -> (row: ConfigInsert<'a>)
    ensures
        row.key@ == k@,
        row.value@ == v@,
{
    ConfigInsert { key: k, value: v }
}

} // verus!
