use sqlmonitor::backend::BackendKind;

#[test]
fn parse_reads_the_two_engines() {
    assert_eq!(BackendKind::parse("postgres"), Some(BackendKind::Postgres));
    assert_eq!(BackendKind::parse("mysql"), Some(BackendKind::MySql));
}

#[test]
fn parse_is_exact() {
    assert_eq!(BackendKind::parse(""), None);
    assert_eq!(BackendKind::parse("Postgres"), None);
    assert_eq!(BackendKind::parse("MYSQL"), None);
    assert_eq!(BackendKind::parse(" postgres"), None);
    assert_eq!(BackendKind::parse("mysql "), None);
    assert_eq!(BackendKind::parse("postgresql"), None);
    assert_eq!(BackendKind::parse("sqlite"), None);
}

#[test]
fn name_gives_the_kind_string() {
    assert_eq!(BackendKind::Postgres.name(), "postgres");
    assert_eq!(BackendKind::MySql.name(), "mysql");
}

#[test]
fn parse_inverts_name() {
    assert_eq!(BackendKind::parse(BackendKind::Postgres.name()), Some(BackendKind::Postgres));
    assert_eq!(BackendKind::parse(BackendKind::MySql.name()), Some(BackendKind::MySql));
}
