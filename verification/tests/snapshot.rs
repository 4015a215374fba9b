use ibc_relayer_core::snapshot::create_snapshot_table_sql;
use ibc_relayer_core::snapshot::upsert_snapshot_sql;
use ibc_relayer_core::snapshot::IbcData;
use ibc_relayer_core::snapshot::IbcSnapshot;
use ibc_relayer_core::snapshot::IdentifiedConnection;

#[test]
fn table_creation_statement_is_exact() {
    assert_eq!(
        create_snapshot_table_sql(),
        "CREATE TABLE IF NOT EXISTS ibc_json (height DOUBLE PRECISION PRIMARY KEY, json_data JSON);"
    );
}

#[test]
fn upsert_statement_wraps_the_json_blob_exactly() {
    let sql = upsert_snapshot_sql("{\"height\":3}");
    assert_eq!(
        sql,
        "INSERT INTO ibc_json SELECT height, json_data \
         FROM json_populate_record(NULL::ibc_json, '{\"height\":3}') \
         ON CONFLICT (height) DO UPDATE SET json_data=EXCLUDED.json_data"
    );
}

#[test]
fn upsert_statement_of_empty_blob_keeps_prefix_and_suffix() {
    let sql = upsert_snapshot_sql("");
    assert!(sql.starts_with(
        "INSERT INTO ibc_json SELECT height, json_data FROM json_populate_record(NULL::ibc_json, '"
    ));
    assert!(sql.ends_with("') ON CONFLICT (height) DO UPDATE SET json_data=EXCLUDED.json_data"));
}

#[test]
fn snapshot_records_hold_their_values() {
    let snapshot = IbcSnapshot {
        height: 42,
        json_data: IbcData {
            connections: vec![IdentifiedConnection {
                connection_id: 1,
                client_id: 2,
                counterparty_connection_id: 3,
                counterparty_client_id: 4,
                delay_period: 5,
            }],
        },
    };
    assert_eq!(snapshot.height, 42);
    assert_eq!(snapshot.json_data.connections.len(), 1);
    assert_eq!(snapshot.clone(), snapshot);
}
