use sqlmonitor::backend::BackendKind;
use sqlmonitor::executor::{QueryAction, QueryEvent, QueryRun};
use sqlmonitor::extract::ExtractError;
use sqlmonitor::outcome::{ExecutionOutcome, QueryError, RunQueryResponse};
use sqlmonitor::result_set::{Cell, ResultSet, Row};

const PG: &str = "postgres://db.example.com:5432/app";
const MY: &str = "mysql://db.example.com:3306/app";

fn grid(rows: Vec<Vec<Cell>>) -> ResultSet {
    let mut out = Vec::new();
    for cells in rows {
        out.push(Row { cells });
    }
    ResultSet { rows: out }
}

fn text(s: &str) -> Cell {
    Cell::Text(s.to_string())
}

fn finish(run: QueryRun) -> RunQueryResponse {
    assert_eq!(run.action(), QueryAction::Return);
    match run.outcome() {
        Some(outcome) => outcome.into_response(),
        None => panic!("the run is not over"),
    }
}

fn fetched(connection_string: &str, kind: &str, query: &str, rows: ResultSet) -> RunQueryResponse {
    let run = QueryRun::begin(connection_string, kind, query);
    let run = run.step(QueryEvent::Connected);
    finish(run.step(QueryEvent::Fetched(rows)))
}

#[test]
fn postgres_select_one_succeeds() {
    let run = QueryRun::begin(PG, "postgres", "SELECT 1");
    assert_eq!(
        run.action(),
        QueryAction::Connect { backend: BackendKind::Postgres, connection_string: PG }
    );
    let run = run.step(QueryEvent::Connected);
    assert_eq!(
        run.action(),
        QueryAction::Fetch { backend: BackendKind::Postgres, query: "SELECT 1" }
    );
    let run = run.step(QueryEvent::Fetched(grid(vec![vec![text("1")]])));
    let r = finish(run);
    assert!(r.success);
    assert_eq!(r.value, Some("1".to_string()));
    assert_eq!(r.error, None);
    assert_eq!(
        r.logs,
        vec![
            "Connecting to postgres database...",
            "Attempting PostgreSQL connection",
            "Connection established successfully",
            "Query execution succeeded",
        ]
    );
}

#[test]
fn mysql_run_names_its_driver() {
    let r = fetched(MY, "mysql", "SELECT COUNT(*) FROM t", grid(vec![vec![text("42")]]));
    assert!(r.success);
    assert_eq!(r.value, Some("42".to_string()));
    assert_eq!(r.error, None);
    assert_eq!(
        r.logs,
        vec![
            "Connecting to mysql database...",
            "Attempting MySQL connection",
            "Connection established successfully",
            "Query execution succeeded",
        ]
    );
}

#[test]
fn actions_hand_on_the_inputs_unchanged() {
    let odd = "  postgres://h/d?sslmode=disable ";
    let statement = "select 1 -- trailing comment\n";
    let run = QueryRun::begin(odd, "postgres", statement);
    assert_eq!(
        run.action(),
        QueryAction::Connect { backend: BackendKind::Postgres, connection_string: odd }
    );
    let run = run.step(QueryEvent::Connected);
    assert_eq!(
        run.action(),
        QueryAction::Fetch { backend: BackendKind::Postgres, query: statement }
    );
}

#[test]
fn the_log_never_holds_the_connection_string() {
    let r = fetched(PG, "postgres", "SELECT 1", grid(vec![vec![text("1")]]));
    assert!(r.logs.iter().all(|line| !line.contains("db.example.com")));
    let run = QueryRun::begin(MY, "mysql", "SELECT 1");
    let r = finish(run.step(QueryEvent::ConnectFailed("timed out".to_string())));
    assert!(r.logs.iter().all(|line| !line.contains("db.example.com")));
}

#[test]
fn unreachable_mysql_host_fails_the_run() {
    let run = QueryRun::begin("mysql://unreachable.invalid/app", "mysql", "SELECT 1");
    assert_eq!(
        run.action(),
        QueryAction::Connect {
            backend: BackendKind::MySql,
            connection_string: "mysql://unreachable.invalid/app",
        }
    );
    let run = run.step(QueryEvent::ConnectFailed("error communicating with database".to_string()));
    let r = finish(run);
    assert!(!r.success);
    assert_eq!(r.value, None);
    assert_eq!(
        r.error,
        Some("Connection failed: error communicating with database".to_string())
    );
    assert!(r.error.unwrap().starts_with("Connection failed:"));
    assert_eq!(
        r.logs,
        vec![
            "Connecting to mysql database...",
            "Attempting MySQL connection",
            "Connection failed: error communicating with database",
        ]
    );
}

#[test]
fn rejected_statement_fails_the_run() {
    let run = QueryRun::begin(PG, "postgres", "SELEC 1");
    let run = run.step(QueryEvent::Connected);
    let detail = "syntax error at or near \"SELEC\"".to_string();
    let r = finish(run.step(QueryEvent::QueryFailed(detail)));
    assert!(!r.success);
    assert_eq!(r.value, None);
    assert_eq!(
        r.error,
        Some("Query execution failed: syntax error at or near \"SELEC\"".to_string())
    );
    assert_eq!(
        r.logs,
        vec![
            "Connecting to postgres database...",
            "Attempting PostgreSQL connection",
            "Connection established successfully",
            "Query execution failed: syntax error at or near \"SELEC\"",
        ]
    );
}

#[test]
fn two_columns_fail_the_run() {
    let r = fetched(PG, "postgres", "SELECT 1, 2", grid(vec![vec![text("1"), text("2")]]));
    assert!(!r.success);
    assert_eq!(r.value, None);
    assert_eq!(
        r.error,
        Some("Query returned multiple columns, expected single column".to_string())
    );
    assert_eq!(
        r.logs,
        vec![
            "Connecting to postgres database...",
            "Attempting PostgreSQL connection",
            "Connection established successfully",
            "Query execution succeeded",
            "Query returned multiple columns, expected single column",
        ]
    );
}

#[test]
fn two_columns_fail_the_run_on_mysql_too() {
    let r = fetched(MY, "mysql", "SELECT 1, 2", grid(vec![vec![text("1"), text("2")]]));
    assert!(!r.success);
    assert_eq!(
        r.error,
        Some("Query returned multiple columns, expected single column".to_string())
    );
}

#[test]
fn zero_rows_fail_the_run() {
    let r = fetched(MY, "mysql", "SELECT 1 WHERE 1 = 0", grid(vec![]));
    assert!(!r.success);
    assert_eq!(r.value, None);
    assert_eq!(r.error, Some("Query returned no rows".to_string()));
    assert_eq!(r.logs.last(), Some(&"Query returned no rows".to_string()));
}

#[test]
fn several_rows_fail_the_run() {
    let r = fetched(
        PG,
        "postgres",
        "SELECT n FROM t",
        grid(vec![vec![text("1")], vec![text("2")], vec![text("3")]]),
    );
    assert!(!r.success);
    assert_eq!(r.value, None);
    assert_eq!(
        r.error,
        Some("Query returned multiple rows, expected single row".to_string())
    );
}

#[test]
fn a_row_without_columns_fails_the_run() {
    let r = fetched(PG, "postgres", "SELECT", grid(vec![vec![]]));
    assert!(!r.success);
    assert_eq!(r.value, None);
    assert_eq!(r.error, Some("Query returned a row with no columns".to_string()));
}

#[test]
fn null_fails_the_run() {
    let r = fetched(PG, "postgres", "SELECT NULL", grid(vec![vec![Cell::Null]]));
    assert!(!r.success);
    assert_eq!(r.value, None);
    assert_eq!(r.error, Some("Query returned NULL value".to_string()));
}

#[test]
fn every_present_value_succeeds_with_its_text() {
    for kind in ["postgres", "mysql"] {
        for value in ["1", "0", "-3", "12.50", "t", "2024-05-01 12:00:00", "", "NULL"] {
            let r = fetched(PG, kind, "SELECT v FROM t", grid(vec![vec![text(value)]]));
            assert!(r.success);
            assert_eq!(r.value, Some(value.to_string()));
            assert_eq!(r.error, None);
            assert_eq!(r.logs.len(), 4);
        }
    }
}

#[test]
fn every_error_is_of_a_known_kind() {
    let failures = vec![
        finish(QueryRun::begin(PG, "oracle", "q")),
        finish(
            QueryRun::begin(PG, "postgres", "q").step(QueryEvent::ConnectFailed("d".to_string())),
        ),
        finish(
            QueryRun::begin(PG, "postgres", "q")
                .step(QueryEvent::Connected)
                .step(QueryEvent::QueryFailed("d".to_string())),
        ),
        fetched(PG, "postgres", "q", grid(vec![])),
        fetched(PG, "postgres", "q", grid(vec![vec![], vec![]])),
        fetched(PG, "postgres", "q", grid(vec![vec![]])),
        fetched(PG, "postgres", "q", grid(vec![vec![Cell::Null, Cell::Null]])),
        fetched(PG, "postgres", "q", grid(vec![vec![Cell::Null]])),
    ];
    let expected = vec![
        "Unsupported database type: oracle",
        "Connection failed: d",
        "Query execution failed: d",
        "Query returned no rows",
        "Query returned multiple rows, expected single row",
        "Query returned a row with no columns",
        "Query returned multiple columns, expected single column",
        "Query returned NULL value",
    ];
    assert_eq!(failures.len(), expected.len());
    for (r, text) in failures.iter().zip(expected) {
        assert!(!r.success);
        assert_eq!(r.value, None);
        assert_eq!(r.error, Some(text.to_string()));
    }
}

#[test]
fn unsupported_kind_ends_the_run_at_once() {
    let run = QueryRun::begin("oracle://db", "oracle", "SELECT 1");
    assert_eq!(run.action(), QueryAction::Return);
    let r = finish(run);
    assert!(!r.success);
    assert_eq!(r.value, None);
    assert_eq!(r.error, Some("Unsupported database type: oracle".to_string()));
    assert_eq!(r.logs, vec!["Unsupported database type: oracle"]);
}

#[test]
fn unsupported_kinds_are_told_apart_exactly() {
    for kind in ["", "Postgres", "MySQL", "sqlite", "postgres ", "postgresql"] {
        let run = QueryRun::begin(PG, kind, "SELECT 1");
        assert_eq!(run.action(), QueryAction::Return);
        let r = finish(run);
        assert!(!r.success);
        assert_eq!(r.value, None);
        assert_eq!(r.error, Some(format!("Unsupported database type: {}", kind)));
        assert_eq!(r.logs, vec![format!("Unsupported database type: {}", kind)]);
    }
}

#[test]
fn a_finished_run_ignores_further_events() {
    let run = QueryRun::begin(PG, "oracle", "SELECT 1");
    let run = run.step(QueryEvent::Connected);
    let run = run.step(QueryEvent::Fetched(grid(vec![vec![text("1")]])));
    let r = finish(run);
    assert!(!r.success);
    assert_eq!(r.logs.len(), 1);

    let run = QueryRun::begin(PG, "postgres", "SELECT 1");
    let run = run.step(QueryEvent::ConnectFailed("refused".to_string()));
    let run = run.step(QueryEvent::Fetched(grid(vec![vec![text("1")]])));
    let r = finish(run);
    assert!(!r.success);
    assert_eq!(r.error, Some("Connection failed: refused".to_string()));
    assert_eq!(r.logs.len(), 3);
}

#[test]
fn an_event_that_answers_nothing_is_ignored() {
    let connect = QueryAction::Connect { backend: BackendKind::Postgres, connection_string: PG };
    let fetch = QueryAction::Fetch { backend: BackendKind::Postgres, query: "SELECT 1" };

    let run = QueryRun::begin(PG, "postgres", "SELECT 1");
    let run = run.step(QueryEvent::Fetched(grid(vec![vec![text("1")]])));
    assert_eq!(run.action(), connect);
    let run = run.step(QueryEvent::QueryFailed("early".to_string()));
    assert_eq!(run.action(), connect);
    assert!(run.outcome().is_none());

    let run = QueryRun::begin(PG, "postgres", "SELECT 1").step(QueryEvent::Connected);
    let run = run.step(QueryEvent::Connected);
    assert_eq!(run.action(), fetch);
    let run = run.step(QueryEvent::ConnectFailed("late".to_string()));
    assert_eq!(run.action(), fetch);
    let r = finish(run.step(QueryEvent::Fetched(grid(vec![vec![text("7")]]))));
    assert_eq!(r.value, Some("7".to_string()));
    assert_eq!(r.logs.len(), 4);
}

#[test]
fn outcome_keeps_the_typed_error() {
    let run = QueryRun::begin(PG, "postgres", "SELECT NULL").step(QueryEvent::Connected);
    let run = run.step(QueryEvent::Fetched(grid(vec![vec![Cell::Null]])));
    match run.outcome() {
        Some(ExecutionOutcome { result, logs }) => {
            assert_eq!(result, Err(QueryError::Extraction(ExtractError::NullValue)));
            assert_eq!(logs.last(), Some(&"Query returned NULL value".to_string()));
        }
        None => panic!("the run is not over"),
    }
}

#[test]
fn into_response_flattens_success_and_failure() {
    let ok = ExecutionOutcome::succeeded("3.5".to_string(), vec!["a".to_string()]).into_response();
    assert!(ok.success);
    assert_eq!(ok.value, Some("3.5".to_string()));
    assert_eq!(ok.error, None);
    assert_eq!(ok.logs, vec!["a"]);

    let failed = ExecutionOutcome::failed(
        QueryError::QueryFailed("boom".to_string()),
        vec!["a".to_string()],
    )
    .into_response();
    assert!(!failed.success);
    assert_eq!(failed.value, None);
    assert_eq!(failed.error, Some("Query execution failed: boom".to_string()));
    assert_eq!(failed.logs, vec!["a", "Query execution failed: boom"]);
}

#[test]
fn value_is_present_exactly_on_success() {
    let responses = vec![
        fetched(PG, "postgres", "q", grid(vec![vec![text("1")]])),
        fetched(PG, "postgres", "q", grid(vec![vec![Cell::Null]])),
        fetched(PG, "postgres", "q", grid(vec![])),
        fetched(PG, "nope", "q", grid(vec![vec![text("1")]])),
    ];
    for r in responses {
        assert_eq!(r.success, r.value.is_some());
        assert_eq!(r.success, r.error.is_none());
        if let Some(error) = &r.error {
            assert_eq!(r.logs.last(), Some(error));
        }
    }
}

#[test]
fn runs_share_no_state() {
    let first = fetched(PG, "postgres", "SELECT 1", grid(vec![vec![text("1")]]));
    let second = fetched(PG, "postgres", "SELECT 1", grid(vec![vec![text("1")]]));
    assert_eq!(first, second);
    assert_eq!(second.logs.len(), 4);
}
