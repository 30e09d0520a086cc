//! Stored records of the local database and its schema migration plan.
//! Reading and writing the SQLite file is the host's job.
use vstd::prelude::*;

verus! {

/// A reserved-id shortcut row.
#[derive(Clone, Debug, PartialEq, Eq)]
pub struct Shortcut {
    pub id: String,
    pub label: String,
    pub url: String,
    pub sort_order: i64,
    pub enabled: bool,
}

/// One cached forecast, keyed by location and unit.
#[derive(Clone, Debug, PartialEq, Eq)]
pub struct WeatherCacheRow {
    pub location_key: String,
    pub temperature_unit: String,
    pub payload_json: String,
    pub fetched_at: i64,
}

/// The schema version this build migrates to.
pub const SCHEMA_VERSION: i64 = 3;

/// The first schema version a database at `current_version` still needs.
pub open spec fn first_pending(current_version: i64) -> int {
    if current_version < 0 { 1 } else { current_version + 1 }
}

/// The migrations to apply, in order, to a database at `current_version`:
/// every version above it up to the latest. A newer database gets none.
pub fn pending_migrations(current_version: i64) -> (r: Vec<i64>)
    ensures
        r@.len() == (if first_pending(current_version) > SCHEMA_VERSION { 0 } else { SCHEMA_VERSION - first_pending(current_version) + 1 }),
        forall|i: int| 0 <= i < r@.len() ==> #[trigger] r@[i] == first_pending(current_version) + i,
{
    let mut r: Vec<i64> = Vec::new();
    let mut v: i64 = 1;
    while v <= SCHEMA_VERSION
        invariant
            1 <= v <= SCHEMA_VERSION + 1,
            r@.len() == (if first_pending(current_version) > v - 1 { 0 } else { v - first_pending(current_version) }),
            forall|i: int| 0 <= i < r@.len() ==> #[trigger] r@[i] == first_pending(current_version) + i,
        decreases SCHEMA_VERSION + 1 - v,
    {
        if current_version < v {
            r.push(v);
        }
        v = v + 1;
    }
    r
}

} // verus!
