//! Chain-state snapshots and the SQL text that persists them. Serializing a
//! snapshot to JSON and executing the statements belong to the surrounding
//! application; what is built and checked here is the exact SQL text, so the
//! caller only supplies the JSON blob.

use vstd::prelude::*;
use vstd::string::StringExecFns;

verus! {

broadcast use vstd::string::group_string_axioms;

/// One connection of the snapshot, with the identifiers the snapshot
/// records held as plain values.
#[derive(Clone, Copy, PartialEq, Eq, Structural, Debug)]
pub struct IdentifiedConnection {
    pub connection_id: u64,
    pub client_id: u64,
    pub counterparty_connection_id: u64,
    pub counterparty_client_id: u64,
    pub delay_period: u64,
}

/// The chain data a snapshot carries.
#[derive(Clone, PartialEq, Eq, Debug)]
pub struct IbcData {
    pub connections: Vec<IdentifiedConnection>,
}

/// A snapshot of the chain's state at one height.
#[derive(Clone, PartialEq, Eq, Debug)]
pub struct IbcSnapshot {
    pub height: u64,
    pub json_data: IbcData,
}

/// The statement that creates the snapshot table when it does not exist.
pub open spec fn create_snapshot_table_sql_text() -> Seq<char> {
    "CREATE TABLE IF NOT EXISTS ibc_json (height DOUBLE PRECISION PRIMARY KEY, json_data JSON);"@
}

/// The upsert statement up to the opening quote of the JSON blob.
pub open spec fn upsert_snapshot_sql_prefix() -> Seq<char> {
    "INSERT INTO ibc_json SELECT height, json_data FROM json_populate_record(NULL::ibc_json, '"@
}

/// The upsert statement after the closing quote of the JSON blob.
pub open spec fn upsert_snapshot_sql_suffix() -> Seq<char> {
    "') ON CONFLICT (height) DO UPDATE SET json_data=EXCLUDED.json_data"@
}

/// The statement that creates the snapshot table if it is not there yet.
pub fn create_snapshot_table_sql() -> (s: &'static str)
    ensures
        s@ == create_snapshot_table_sql_text(),
{
    "CREATE TABLE IF NOT EXISTS ibc_json (height DOUBLE PRECISION PRIMARY KEY, json_data JSON);"
}

/// The statement that inserts a serialized snapshot, replacing the stored
/// one when its height is already present: exactly the upsert prefix, the
/// JSON blob, and the upsert suffix.
pub fn upsert_snapshot_sql(json_blob: &str) -> (r: String)
    ensures
        r@ == upsert_snapshot_sql_prefix() + json_blob@ + upsert_snapshot_sql_suffix(),
{
    let mut sql = String::from_str(
        "INSERT INTO ibc_json SELECT height, json_data FROM json_populate_record(NULL::ibc_json, '",
    );
    sql.append(json_blob);
    sql.append("') ON CONFLICT (height) DO UPDATE SET json_data=EXCLUDED.json_data");
    sql
}

} // verus!
