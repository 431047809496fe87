use sqlmonitor::backend::BackendKind;
use sqlmonitor::cadence::Cadence;
use sqlmonitor::metadata::records::{Category, Connection, Measurement, Monitor, SchemaError};
use sqlmonitor::metadata::store::Metadata;

fn connection(id: i64) -> Connection {
    Connection {
        id,
        name: format!("db{}", id),
        kind: BackendKind::Postgres,
        connection_string: "postgres://localhost/app".to_string(),
        created_at: "2024-01-01T00:00:00Z".to_string(),
        updated_at: "2024-01-01T00:00:00Z".to_string(),
    }
}

fn category(id: i64) -> Category {
    Category {
        id,
        name: format!("group{}", id),
        created_at: "2024-01-01T00:00:00Z".to_string(),
        updated_at: "2024-01-01T00:00:00Z".to_string(),
    }
}

fn monitor(id: i64, connection_id: i64, category_id: Option<i64>) -> Monitor {
    Monitor {
        id,
        name: format!("monitor{}", id),
        connection_id,
        category_id,
        enabled: true,
        starred: false,
        cadence: Cadence::Hourly,
        query: "SELECT COUNT(*) FROM orders".to_string(),
        created_at: "2024-01-01T00:00:00Z".to_string(),
        updated_at: "2024-01-01T00:00:00Z".to_string(),
    }
}

fn measurement(id: i64, monitor_id: i64, value: f64) -> Measurement {
    Measurement {
        id,
        monitor_id,
        value_bits: value.to_bits(),
        created_at: "2024-01-01T01:00:00Z".to_string(),
    }
}

fn monitor_ids(m: &Metadata) -> Vec<i64> {
    m.monitors().iter().map(|x| x.id).collect()
}

fn measurement_ids(m: &Metadata) -> Vec<i64> {
    m.measurements().iter().map(|x| x.id).collect()
}

fn sample() -> Metadata {
    let mut m = Metadata::new();
    assert_eq!(m.insert_connection(connection(1)), Ok(()));
    assert_eq!(m.insert_connection(connection(2)), Ok(()));
    assert_eq!(m.insert_category(category(10)), Ok(()));
    assert_eq!(m.insert_category(category(11)), Ok(()));
    assert_eq!(m.insert_monitor(monitor(100, 1, Some(10))), Ok(()));
    assert_eq!(m.insert_monitor(monitor(101, 2, Some(10))), Ok(()));
    assert_eq!(m.insert_monitor(monitor(102, 1, None)), Ok(()));
    assert_eq!(m.insert_monitor(monitor(103, 2, Some(11))), Ok(()));
    assert_eq!(m.insert_measurement(measurement(1000, 100, 1.0)), Ok(()));
    assert_eq!(m.insert_measurement(measurement(1001, 101, 2.5)), Ok(()));
    assert_eq!(m.insert_measurement(measurement(1002, 100, 3.0)), Ok(()));
    assert_eq!(m.insert_measurement(measurement(1003, 102, 4.0)), Ok(()));
    assert_eq!(m.insert_measurement(measurement(1004, 103, 5.0)), Ok(()));
    m
}

#[test]
fn new_monitor_has_the_schema_defaults() {
    let m = Monitor::new(
        7,
        "orders".to_string(),
        1,
        Cadence::Daily,
        "SELECT COUNT(*) FROM orders".to_string(),
        "2024-01-01T00:00:00Z".to_string(),
        "2024-01-02T00:00:00Z".to_string(),
    );
    assert!(m.enabled);
    assert!(!m.starred);
    assert_eq!(m.category_id, None);
    assert_eq!(m.id, 7);
    assert_eq!(m.name, "orders");
    assert_eq!(m.connection_id, 1);
    assert_eq!(m.cadence, Cadence::Daily);
    assert_eq!(m.query, "SELECT COUNT(*) FROM orders");
    assert_eq!(m.created_at, "2024-01-01T00:00:00Z");
    assert_eq!(m.updated_at, "2024-01-02T00:00:00Z");
}

#[test]
fn new_metadata_is_empty() {
    let m = Metadata::new();
    assert!(m.connections().is_empty());
    assert!(m.categories().is_empty());
    assert!(m.monitors().is_empty());
    assert!(m.measurements().is_empty());
    assert!(!m.has_connection(1));
    assert!(!m.has_category(1));
    assert!(!m.has_monitor(1));
    assert!(!m.has_measurement(1));
}

#[test]
fn inserts_keep_table_order() {
    let m = sample();
    assert_eq!(m.connections().len(), 2);
    assert_eq!(m.categories().len(), 2);
    assert_eq!(monitor_ids(&m), vec![100, 101, 102, 103]);
    assert_eq!(measurement_ids(&m), vec![1000, 1001, 1002, 1003, 1004]);
    assert!(m.has_connection(2));
    assert!(m.has_category(11));
    assert!(m.has_monitor(103));
    assert!(m.has_measurement(1004));
    assert!(!m.has_monitor(1));
}

#[test]
fn measurement_value_round_trips_through_bits() {
    let m = sample();
    assert_eq!(f64::from_bits(m.measurements()[1].value_bits), 2.5);
}

#[test]
fn duplicate_identities_are_refused() {
    let mut m = sample();
    assert_eq!(m.insert_connection(connection(1)), Err(SchemaError::DuplicateId));
    assert_eq!(m.insert_category(category(10)), Err(SchemaError::DuplicateId));
    assert_eq!(m.insert_monitor(monitor(100, 1, None)), Err(SchemaError::DuplicateId));
    assert_eq!(m.insert_measurement(measurement(1000, 100, 0.0)), Err(SchemaError::DuplicateId));
    assert_eq!(m.connections().len(), 2);
    assert_eq!(m.categories().len(), 2);
    assert_eq!(m.monitors().len(), 4);
    assert_eq!(m.measurements().len(), 5);
}

#[test]
fn monitor_needs_its_connection() {
    let mut m = sample();
    assert_eq!(m.insert_monitor(monitor(104, 3, None)), Err(SchemaError::MissingConnection));
    assert_eq!(m.monitors().len(), 4);
}

#[test]
fn monitor_needs_its_category_if_it_names_one() {
    let mut m = sample();
    assert_eq!(m.insert_monitor(monitor(104, 1, Some(12))), Err(SchemaError::MissingCategory));
    assert_eq!(m.insert_monitor(monitor(104, 1, None)), Ok(()));
    assert_eq!(m.monitors().len(), 5);
}

#[test]
fn monitor_identity_is_checked_before_its_references() {
    let mut m = sample();
    assert_eq!(m.insert_monitor(monitor(100, 3, Some(12))), Err(SchemaError::DuplicateId));
    assert_eq!(m.insert_monitor(monitor(104, 3, Some(12))), Err(SchemaError::MissingConnection));
}

#[test]
fn measurement_needs_its_monitor() {
    let mut m = sample();
    assert_eq!(m.insert_measurement(measurement(1005, 999, 1.0)), Err(SchemaError::MissingMonitor));
    assert_eq!(m.insert_measurement(measurement(1000, 999, 1.0)), Err(SchemaError::DuplicateId));
    assert_eq!(m.measurements().len(), 5);
}

#[test]
fn deleting_a_connection_cascades() {
    let mut m = sample();
    m.delete_connection(1);
    assert!(!m.has_connection(1));
    assert!(m.has_connection(2));
    assert_eq!(monitor_ids(&m), vec![101, 103]);
    assert_eq!(measurement_ids(&m), vec![1001, 1004]);
    assert_eq!(m.categories().len(), 2);
}

#[test]
fn deleting_an_unknown_connection_changes_nothing() {
    let mut m = sample();
    m.delete_connection(3);
    assert_eq!(m.connections().len(), 2);
    assert_eq!(monitor_ids(&m), vec![100, 101, 102, 103]);
    assert_eq!(measurement_ids(&m), vec![1000, 1001, 1002, 1003, 1004]);
}

#[test]
fn deleting_a_category_clears_it_from_monitors() {
    let mut m = sample();
    m.delete_category(10);
    assert!(!m.has_category(10));
    assert!(m.has_category(11));
    assert_eq!(monitor_ids(&m), vec![100, 101, 102, 103]);
    let categories: Vec<Option<i64>> = m.monitors().iter().map(|x| x.category_id).collect();
    assert_eq!(categories, vec![None, None, None, Some(11)]);
    assert_eq!(m.monitors()[0].name, "monitor100");
    assert_eq!(m.monitors()[0].connection_id, 1);
    assert_eq!(measurement_ids(&m), vec![1000, 1001, 1002, 1003, 1004]);
    assert_eq!(m.connections().len(), 2);
}

#[test]
fn deleting_a_monitor_cascades() {
    let mut m = sample();
    m.delete_monitor(100);
    assert!(!m.has_monitor(100));
    assert_eq!(monitor_ids(&m), vec![101, 102, 103]);
    assert_eq!(measurement_ids(&m), vec![1001, 1003, 1004]);
    assert_eq!(m.connections().len(), 2);
    assert_eq!(m.categories().len(), 2);
}

#[test]
fn a_deleted_identity_can_be_used_again() {
    let mut m = sample();
    m.delete_connection(1);
    assert_eq!(m.insert_connection(connection(1)), Ok(()));
    assert_eq!(m.insert_monitor(monitor(100, 1, Some(10))), Ok(()));
    assert_eq!(m.insert_measurement(measurement(1000, 100, 9.0)), Ok(()));
    assert_eq!(monitor_ids(&m), vec![101, 103, 100]);
    assert_eq!(measurement_ids(&m), vec![1001, 1004, 1000]);
}
