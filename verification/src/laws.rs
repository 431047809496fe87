//! Laws of extraction, of the executor and of the validator, proved over
//! their specifications.

use vstd::prelude::*;
use crate::backend::BackendKind;
use crate::executor::{QueryActionView, QueryEventView, QueryRunView};
use crate::extract::{spec_extract, ExtractError};
use crate::messages::{
    attempting_line, connecting_line, connection_failed_text, established_line,
    multiple_columns_text, multiple_rows_text, no_columns_text, no_rows_text, null_value_text,
    query_failed_text, query_succeeded_line, test_completed_line, unsupported_text,
};
use crate::outcome::{QueryErrorView, TestConnectionResponseView};
use crate::result_set::CellView;
use crate::validator::{ConnectActionView, ConnectEventView, ConnectionTestView};

verus! {

/// Extraction succeeds exactly on one row of one column whose value is not
/// `NULL`, and then it returns the text of that value.
pub proof fn lemma_extraction_succeeds_on_single_value(rows: Seq<Seq<CellView>>)
    ensures
        spec_extract(rows) is Ok <==> (rows.len() == 1 && rows[0].len() == 1 && rows[0][0]
            !is Null),
        spec_extract(rows) matches Ok(value) ==> rows[0][0] == CellView::Text(value),
{
}

/// An extraction fails with a shape violation exactly when the result is
/// not one row of one column; the counts alone decide which one.
pub proof fn lemma_shape_violations(rows: Seq<Seq<CellView>>)
    ensures
        (spec_extract(rows) matches Err(e) && e.shape_violation()) <==> !(rows.len() == 1
            && rows[0].len() == 1),
        rows.len() == 0 ==> spec_extract(rows) == Err::<Seq<char>, _>(ExtractError::NoRows),
        rows.len() > 1 ==> spec_extract(rows) == Err::<Seq<char>, _>(
            ExtractError::MultipleRows,
        ),
        rows.len() == 1 && rows[0].len() == 0 ==> spec_extract(rows) == Err::<Seq<char>, _>(
            ExtractError::NoColumns,
        ),
        rows.len() == 1 && rows[0].len() > 1 ==> spec_extract(rows) == Err::<Seq<char>, _>(
            ExtractError::MultipleColumns,
        ),
{
}

/// Extraction is the same for every engine: what a run makes of a result
/// set does not depend on the engine that produced it.
pub proof fn lemma_extraction_ignores_backend(
    a: BackendKind,
    b: BackendKind,
    query: Seq<char>,
    logs: Seq<Seq<char>>,
    rows: Seq<Seq<CellView>>,
)
    ensures
        (QueryRunView::AwaitingRows { backend: a, query, logs }).step(
            QueryEventView::Fetched(rows),
        ) == (QueryRunView::AwaitingRows { backend: b, query, logs }).step(
            QueryEventView::Fetched(rows),
        ),
{
}

/// A query run for a kind that selects no engine is over as soon as it
/// starts: it asks for no connection, it fails with the unsupported-kind
/// error and no value, and its log is the single line that names the kind.
pub proof fn lemma_unsupported_kind_ends_query_run(
    connection_string: Seq<char>,
    kind: Seq<char>,
    query: Seq<char>,
)
    requires
        BackendKind::spec_parse(kind) is None,
    ensures
        ({
            let run = QueryRunView::begin(connection_string, kind, query);
            &&& run.action() == QueryActionView::Return
            &&& run matches QueryRunView::Done(outcome)
            &&& outcome.result == Err::<Seq<char>, _>(QueryErrorView::UnsupportedBackend(kind))
            &&& !outcome.response().success
            &&& outcome.response().value is None
            &&& outcome.response().error == Some(unsupported_text(kind))
            &&& outcome.logs == seq![unsupported_text(kind)]
        }),
{
}

/// A connection test for a kind that selects no engine is over as soon as
/// it starts: it asks for no connection, it fails, and its log is the
/// single line that names the kind.
pub proof fn lemma_unsupported_kind_ends_connection_test(
    connection_string: Seq<char>,
    kind: Seq<char>,
)
    requires
        BackendKind::spec_parse(kind) is None,
    ensures
        ({
            let test = ConnectionTestView::begin(connection_string, kind);
            &&& test.action() == ConnectActionView::Return
            &&& test matches ConnectionTestView::Done(response)
            &&& !response.success
            &&& response.logs == seq![unsupported_text(kind)]
        }),
{
}

/// The executor's first phase is the validator: for every kind both ask for
/// a connection to the same engine with the same connection string, or both
/// end at once; and up to the opened connection both log the same lines.
pub proof fn lemma_first_phase_is_the_validator(
    connection_string: Seq<char>,
    kind: Seq<char>,
    query: Seq<char>,
)
    ensures
        ({
            let run = QueryRunView::begin(connection_string, kind, query);
            let test = ConnectionTestView::begin(connection_string, kind);
            &&& run.action() == match test.action() {
                ConnectActionView::Connect {
                    backend,
                    connection_string,
                } => QueryActionView::Connect { backend, connection_string },
                ConnectActionView::Return => QueryActionView::Return,
            }
            &&& run.logs() == test.logs()
            &&& BackendKind::spec_parse(kind) is Some ==> run.step(
                QueryEventView::Connected,
            ).logs().push(test_completed_line()) == test.step(ConnectEventView::Connected).logs()
        }),
{
}

/// What a run asks the caller to do carries the caller's own inputs: the
/// connection is opened with the connection string as supplied and, once
/// it is open, the statement is run as supplied.
pub proof fn lemma_actions_hand_on_inputs(
    connection_string: Seq<char>,
    kind: Seq<char>,
    query: Seq<char>,
)
    requires
        BackendKind::spec_parse(kind) is Some,
    ensures
        ({
            let backend = BackendKind::spec_parse(kind)->0;
            let run = QueryRunView::begin(connection_string, kind, query);
            &&& run.action() == QueryActionView::Connect { backend, connection_string }
            &&& run.step(QueryEventView::Connected).action() == QueryActionView::Fetch {
                backend,
                query,
            }
        }),
{
}

/// A connection that cannot be opened fails the run with the driver's
/// diagnostic kept verbatim behind a fixed prefix, and with no value; the
/// statement is never run, so whatever is reported about it changes nothing.
pub proof fn lemma_connection_failure(
    connection_string: Seq<char>,
    kind: Seq<char>,
    query: Seq<char>,
    detail: Seq<char>,
    statement: QueryEventView,
)
    requires
        BackendKind::spec_parse(kind) is Some,
    ensures
        ({
            let failed = QueryRunView::begin(connection_string, kind, query).step(
                QueryEventView::ConnectFailed(detail),
            );
            &&& failed.action() == QueryActionView::Return
            &&& failed.step(statement) == failed
            &&& failed matches QueryRunView::Done(outcome)
            &&& !outcome.response().success
            &&& outcome.response().value is None
            &&& outcome.response().error == Some(connection_failed_text(detail))
            &&& "Connection failed: "@.is_prefix_of(connection_failed_text(detail))
        }),
{
}

/// A statement that the engine rejects fails the run with the driver's
/// diagnostic kept verbatim behind a fixed prefix, and with no value.
pub proof fn lemma_statement_failure(
    connection_string: Seq<char>,
    kind: Seq<char>,
    query: Seq<char>,
    detail: Seq<char>,
)
    requires
        BackendKind::spec_parse(kind) is Some,
    ensures
        ({
            let run = QueryRunView::to_end(
                connection_string,
                kind,
                query,
                QueryEventView::Connected,
                QueryEventView::QueryFailed(detail),
            );
            &&& run matches QueryRunView::Done(outcome)
            &&& !outcome.response().success
            &&& outcome.response().value is None
            &&& outcome.response().error == Some(query_failed_text(detail))
            &&& "Query execution failed: "@.is_prefix_of(query_failed_text(detail))
        }),
{
}

/// A statement that returns no row, or more than one, fails the run with
/// the matching description and no value.
pub proof fn lemma_row_count_violation(
    connection_string: Seq<char>,
    kind: Seq<char>,
    query: Seq<char>,
    rows: Seq<Seq<CellView>>,
)
    requires
        BackendKind::spec_parse(kind) is Some,
        rows.len() != 1,
    ensures
        ({
            let run = QueryRunView::to_end(
                connection_string,
                kind,
                query,
                QueryEventView::Connected,
                QueryEventView::Fetched(rows),
            );
            &&& run matches QueryRunView::Done(outcome)
            &&& !outcome.response().success
            &&& outcome.response().value is None
            &&& outcome.response().error == Some(
                if rows.len() == 0 {
                    no_rows_text()
                } else {
                    multiple_rows_text()
                },
            )
        }),
{
}

/// A statement that returns one row with no column, or with more than one,
/// fails the run with the matching description and no value.
pub proof fn lemma_column_count_violation(
    connection_string: Seq<char>,
    kind: Seq<char>,
    query: Seq<char>,
    rows: Seq<Seq<CellView>>,
)
    requires
        BackendKind::spec_parse(kind) is Some,
        rows.len() == 1,
        rows[0].len() != 1,
    ensures
        ({
            let run = QueryRunView::to_end(
                connection_string,
                kind,
                query,
                QueryEventView::Connected,
                QueryEventView::Fetched(rows),
            );
            &&& run matches QueryRunView::Done(outcome)
            &&& !outcome.response().success
            &&& outcome.response().value is None
            &&& outcome.response().error == Some(
                if rows[0].len() == 0 {
                    no_columns_text()
                } else {
                    multiple_columns_text()
                },
            )
        }),
{
}

/// A statement that returns one row with one column holding a value that
/// is not `NULL` succeeds, whatever the value: the response carries the
/// value's text and no error.
pub proof fn lemma_single_value_succeeds(
    connection_string: Seq<char>,
    kind: Seq<char>,
    query: Seq<char>,
    rows: Seq<Seq<CellView>>,
)
    requires
        BackendKind::spec_parse(kind) is Some,
        rows.len() == 1,
        rows[0].len() == 1,
        rows[0][0] !is Null,
    ensures
        ({
            let run = QueryRunView::to_end(
                connection_string,
                kind,
                query,
                QueryEventView::Connected,
                QueryEventView::Fetched(rows),
            );
            &&& run matches QueryRunView::Done(outcome)
            &&& outcome.response().success
            &&& outcome.response().value == Some(rows[0][0]->Text_0)
            &&& outcome.response().error is None
        }),
{
}

/// A statement that returns one row with one column holding `NULL` fails
/// the run with the null-value description and no value.
pub proof fn lemma_null_value_fails(
    connection_string: Seq<char>,
    kind: Seq<char>,
    query: Seq<char>,
    rows: Seq<Seq<CellView>>,
)
    requires
        BackendKind::spec_parse(kind) is Some,
        rows.len() == 1,
        rows[0].len() == 1,
        rows[0][0] == CellView::Null,
    ensures
        ({
            let run = QueryRunView::to_end(
                connection_string,
                kind,
                query,
                QueryEventView::Connected,
                QueryEventView::Fetched(rows),
            );
            &&& run matches QueryRunView::Done(outcome)
            &&& !outcome.response().success
            &&& outcome.response().value is None
            &&& outcome.response().error == Some(null_value_text())
        }),
{
}

/// A run succeeds exactly when the connection opened, the statement ran,
/// and its result is one row of one column whose value is not `NULL`.
pub proof fn lemma_success_means_extracted(
    connection_string: Seq<char>,
    kind: Seq<char>,
    query: Seq<char>,
    connection: QueryEventView,
    statement: QueryEventView,
)
    ensures
        ({
            let run = QueryRunView::to_end(connection_string, kind, query, connection, statement);
            (run matches QueryRunView::Done(outcome) && outcome.response().success) <==> {
                &&& BackendKind::spec_parse(kind) is Some
                &&& connection is Connected
                &&& statement matches QueryEventView::Fetched(rows)
                &&& rows.len() == 1
                &&& rows[0].len() == 1
                &&& rows[0][0] !is Null
            }
        }),
{
}

/// Every error is of one of the known kinds, and its description says
/// which: it names an unsupported kind, or it keeps a driver's diagnostic
/// behind the prefix of a failed connection or of a failed statement, or it
/// is one of the five fixed descriptions of a result that holds no single
/// value.
pub proof fn lemma_error_descriptions(e: QueryErrorView)
    ensures
        ({
            let text = e.text();
            ||| e matches QueryErrorView::UnsupportedBackend(kind) && text == unsupported_text(kind)
                && "Unsupported database type: "@.is_prefix_of(text)
            ||| e matches QueryErrorView::ConnectionFailed(detail) && text
                == connection_failed_text(detail) && "Connection failed: "@.is_prefix_of(text)
            ||| e matches QueryErrorView::QueryFailed(detail) && text == query_failed_text(detail)
                && "Query execution failed: "@.is_prefix_of(text)
            ||| e is Extraction && (text == no_rows_text() || text == multiple_rows_text() || text
                == no_columns_text() || text == multiple_columns_text() || text
                == null_value_text())
        }),
{
}

/// The error of a run is decided by the first thing that went wrong: the
/// kind that selects no engine, else the connection that did not open, else
/// the statement that failed, else the result that holds no single value.
/// No other error exists. The reports are those that answer what the run
/// asked for.
pub proof fn lemma_run_errors_are_classified(
    connection_string: Seq<char>,
    kind: Seq<char>,
    query: Seq<char>,
    connection: QueryEventView,
    statement: QueryEventView,
)
    requires
        connection is Connected || connection is ConnectFailed,
        statement is Fetched || statement is QueryFailed,
    ensures
        ({
            let run = QueryRunView::to_end(connection_string, kind, query, connection, statement);
            run matches QueryRunView::Done(outcome) && (outcome.result matches Err(e) ==> {
                if BackendKind::spec_parse(kind) is None {
                    e == QueryErrorView::UnsupportedBackend(kind)
                } else if connection is ConnectFailed {
                    e == QueryErrorView::ConnectionFailed(connection->ConnectFailed_0)
                } else if statement is QueryFailed {
                    e == QueryErrorView::QueryFailed(statement->QueryFailed_0)
                } else {
                    &&& connection is Connected
                    &&& statement matches QueryEventView::Fetched(rows)
                    &&& spec_extract(rows) == Err::<Seq<char>, _>(e->Extraction_0)
                    &&& e is Extraction
                }
            })
        }),
{
}

/// Once the caller has reported on the connection attempt and, where it
/// opened, on the statement, the run is over.
pub proof fn lemma_run_ends(
    connection_string: Seq<char>,
    kind: Seq<char>,
    query: Seq<char>,
    connection: QueryEventView,
    statement: QueryEventView,
)
    requires
        connection is Connected || connection is ConnectFailed,
        statement is Fetched || statement is QueryFailed,
    ensures
        QueryRunView::to_end(connection_string, kind, query, connection, statement) is Done,
{
}

/// A step never rewrites the log: what was logged before an event is a
/// prefix of what is logged after it.
pub proof fn lemma_query_step_extends_log(run: QueryRunView, event: QueryEventView)
    ensures
        run.logs().is_prefix_of(run.step(event).logs()),
{
}

/// Every failed run ends its log with the description of its error: at the
/// start, and after every step.
pub proof fn lemma_failures_are_narrated(
    connection_string: Seq<char>,
    kind: Seq<char>,
    query: Seq<char>,
    run: QueryRunView,
    event: QueryEventView,
)
    ensures
        QueryRunView::begin(connection_string, kind, query).narrated(),
        run.narrated() ==> run.step(event).narrated(),
{
}

/// The log of a successful run, line for line.
pub proof fn lemma_successful_run_log(
    connection_string: Seq<char>,
    kind: Seq<char>,
    query: Seq<char>,
    rows: Seq<Seq<CellView>>,
)
    requires
        BackendKind::spec_parse(kind) is Some,
        spec_extract(rows) is Ok,
    ensures
        QueryRunView::to_end(
            connection_string,
            kind,
            query,
            QueryEventView::Connected,
            QueryEventView::Fetched(rows),
        ).logs() == seq![
            connecting_line(kind),
            attempting_line(BackendKind::spec_parse(kind)->0),
            established_line(),
            query_succeeded_line(),
        ],
{
}

/// A successful connection test depends on the kind alone: whatever ran
/// before it, its response is a success with the same four lines.
pub proof fn lemma_connection_test_is_repeatable(connection_string: Seq<char>, kind: Seq<char>)
    requires
        BackendKind::spec_parse(kind) is Some,
    ensures
        ConnectionTestView::begin(connection_string, kind).step(ConnectEventView::Connected)
            == ConnectionTestView::Done(
            TestConnectionResponseView {
                success: true,
                logs: seq![
                    connecting_line(kind),
                    attempting_line(BackendKind::spec_parse(kind)->0),
                    established_line(),
                    test_completed_line(),
                ],
            },
        ),
{
    let backend = BackendKind::spec_parse(kind)->0;
    assert(seq![connecting_line(kind), attempting_line(backend)].push(established_line()).push(
        test_completed_line(),
    ) =~= seq![
        connecting_line(kind),
        attempting_line(backend),
        established_line(),
        test_completed_line(),
    ]);
}

/// A connection test succeeds exactly when the kind selects an engine and
/// the connection opened; one report ends it either way.
pub proof fn lemma_connection_test_outcome(
    connection_string: Seq<char>,
    kind: Seq<char>,
    event: ConnectEventView,
)
    ensures
        ({
            let test = ConnectionTestView::begin(connection_string, kind).step(event);
            &&& test matches ConnectionTestView::Done(response)
            &&& response.success <==> (BackendKind::spec_parse(kind) is Some && event is Connected)
        }),
{
}

/// A step of a connection test never rewrites the log.
pub proof fn lemma_test_step_extends_log(test: ConnectionTestView, event: ConnectEventView)
    ensures
        test.logs().is_prefix_of(test.step(event).logs()),
{
}

} // verus!
