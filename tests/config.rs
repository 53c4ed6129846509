use catalog_access::config::{list_configurations_query, update_configuration_query, update_outcome};
use catalog_access::query::AccessError;
use catalog_access::records::{configurations_from_rows, ConfigurationRow, DatabaseConfig};
use catalog_access::timestamp::Timestamp;

fn stamp(year: i32, month: u32, day: u32, hour: u32, minute: u32, second: u32) -> Timestamp {
    Timestamp { year, month, day, hour, minute, second }
}

#[test]
fn empty_table_lists_nothing() {
    assert!(configurations_from_rows(Vec::new()).is_empty());
}

#[test]
fn rows_become_entries_in_order() {
    let rows = vec![
        ConfigurationRow {
            id: 4,
            key: "alpha".to_string(),
            value: "1".to_string(),
            description: Some("first".to_string()),
            updated_at: stamp(2024, 2, 29, 23, 59, 59),
        },
        ConfigurationRow {
            id: 2,
            key: "beta".to_string(),
            value: "x".to_string(),
            description: None,
            updated_at: stamp(1999, 12, 31, 0, 0, 1),
        },
    ];
    let r = configurations_from_rows(rows);
    assert_eq!(r.len(), 2);
    assert_eq!(r[0].id, 4);
    assert_eq!(r[0].key, "alpha");
    assert_eq!(r[0].description.as_deref(), Some("first"));
    assert_eq!(r[0].updated_at, "2024-02-29 23:59:59");
    assert_eq!(r[1].key, "beta");
    assert_eq!(r[1].description, None);
    assert_eq!(r[1].updated_at, "1999-12-31 00:00:01");
}

#[test]
fn timestamps_are_zero_padded() {
    let row = |id: i32, t: Timestamp| ConfigurationRow {
        id,
        key: "k".to_string(),
        value: "v".to_string(),
        description: None,
        updated_at: t,
    };
    let r = configurations_from_rows(vec![row(1, stamp(5, 1, 2, 3, 4, 5)), row(2, stamp(9999, 12, 31, 23, 59, 59))]);
    assert_eq!(r[0].updated_at, "0005-01-02 03:04:05");
    assert_eq!(r[1].updated_at, "9999-12-31 23:59:59");
}

#[test]
fn list_statement_orders_by_key() {
    let q = list_configurations_query();
    assert_eq!(
        q.statement,
        "SELECT id, key, value, description, updated_at FROM configurations ORDER BY key"
    );
    assert!(q.params.is_empty());
}

#[test]
fn update_binds_value_then_key() {
    let q = update_configuration_query(&"theme".to_string(), &"dark".to_string());
    assert_eq!(
        q.statement,
        "UPDATE configurations SET value = $1, updated_at = CURRENT_TIMESTAMP WHERE key = $2"
    );
    assert_eq!(q.params, vec!["dark".to_string(), "theme".to_string()]);
}

#[test]
fn repeated_update_is_the_same_request() {
    let a = update_configuration_query(&"k".to_string(), &"v".to_string());
    let b = update_configuration_query(&"k".to_string(), &"v".to_string());
    assert_eq!(a.statement, b.statement);
    assert_eq!(a.params, b.params);
}

#[test]
fn update_of_missing_key_succeeds() {
    assert!(update_outcome(Ok(0)).is_ok());
    assert!(update_outcome(Ok(1)).is_ok());
}

#[test]
fn failed_update_is_a_query_error() {
    match update_outcome(Err("boom".to_string())) {
        Err(AccessError::Query(m)) => assert_eq!(m, "boom"),
        other => panic!("unexpected {:?}", other),
    }
}

#[test]
fn connection_string_lists_every_field() {
    let c = DatabaseConfig {
        host: "db.local".to_string(),
        port: 5432,
        user: "scout".to_string(),
        password: "pw".to_string(),
        database: "catalog".to_string(),
    };
    assert_eq!(
        c.connection_string(),
        "host=db.local port=5432 user=scout password=pw dbname=catalog"
    );
}
