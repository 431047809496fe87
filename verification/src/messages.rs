//! The wording of every log line and error description.
//!
//! Each text has a specification function that fixes it character for
//! character, and an executable function that builds it.

use vstd::prelude::*;
use vstd::string::*;
use crate::backend::BackendKind;

verus! {

/// The line that announces the target of a run.
pub open spec fn connecting_line(kind: Seq<char>) -> Seq<char> {
    "Connecting to "@ + kind + " database..."@
}

/// The line that records which driver is about to be tried.
pub open spec fn attempting_line(backend: BackendKind) -> Seq<char> {
    match backend {
        BackendKind::Postgres => "Attempting PostgreSQL connection"@,
        BackendKind::MySql => "Attempting MySQL connection"@,
    }
}

/// The line that confirms an opened connection.
pub open spec fn established_line() -> Seq<char> {
    "Connection established successfully"@
}

/// The line that closes a successful connection test.
pub open spec fn test_completed_line() -> Seq<char> {
    "Connection test completed"@
}

/// The line that confirms that the statement ran and its rows were fetched.
pub open spec fn query_succeeded_line() -> Seq<char> {
    "Query execution succeeded"@
}

/// The description of a kind string that selects no engine.
pub open spec fn unsupported_text(kind: Seq<char>) -> Seq<char> {
    "Unsupported database type: "@ + kind
}

/// The description of a failed connection attempt, with the driver's
/// diagnostic kept verbatim.
pub open spec fn connection_failed_text(detail: Seq<char>) -> Seq<char> {
    "Connection failed: "@ + detail
}

/// The description of a statement that the engine rejected or failed to
/// run, with the driver's diagnostic kept verbatim.
pub open spec fn query_failed_text(detail: Seq<char>) -> Seq<char> {
    "Query execution failed: "@ + detail
}

/// The description of a result without rows.
pub open spec fn no_rows_text() -> Seq<char> {
    "Query returned no rows"@
}

/// The description of a result with more than one row.
pub open spec fn multiple_rows_text() -> Seq<char> {
    "Query returned multiple rows, expected single row"@
}

/// The description of a single row without columns.
pub open spec fn no_columns_text() -> Seq<char> {
    "Query returned a row with no columns"@
}

/// The description of a single row with more than one column.
pub open spec fn multiple_columns_text() -> Seq<char> {
    "Query returned multiple columns, expected single column"@
}

/// The description of a single value that is `NULL`.
pub open spec fn null_value_text() -> Seq<char> {
    "Query returned NULL value"@
}

/// Builds the line that announces the target of a run.
pub fn connecting(kind: &str) -> (s: String)
    ensures
        s@ == connecting_line(kind@),
{
    String::from_str("Connecting to ").concat(kind).concat(" database...")
}

/// Builds the line that records which driver is about to be tried.
pub fn attempting(backend: BackendKind) -> (s: String)
    ensures
        s@ == attempting_line(backend),
{
    match backend {
        BackendKind::Postgres => String::from_str("Attempting PostgreSQL connection"),
        BackendKind::MySql => String::from_str("Attempting MySQL connection"),
    }
}

/// Builds the line that confirms an opened connection.
pub fn established() -> (s: String)
    ensures
        s@ == established_line(),
{
    String::from_str("Connection established successfully")
}

/// Builds the line that closes a successful connection test.
pub fn test_completed() -> (s: String)
    ensures
        s@ == test_completed_line(),
{
    String::from_str("Connection test completed")
}

/// Builds the line that confirms that the statement ran.
pub fn query_succeeded() -> (s: String)
    ensures
        s@ == query_succeeded_line(),
{
    String::from_str("Query execution succeeded")
}

/// Builds the description of a kind string that selects no engine.
pub fn unsupported(kind: &str) -> (s: String)
    ensures
        s@ == unsupported_text(kind@),
{
    String::from_str("Unsupported database type: ").concat(kind)
}

/// Builds the description of a failed connection attempt.
pub fn connection_failed(detail: &str) -> (s: String)
    ensures
        s@ == connection_failed_text(detail@),
{
    String::from_str("Connection failed: ").concat(detail)
}

/// Builds the description of a failed statement.
pub fn query_failed(detail: &str) -> (s: String)
    ensures
        s@ == query_failed_text(detail@),
{
    String::from_str("Query execution failed: ").concat(detail)
}

/// Builds the description of a result without rows.
pub fn no_rows() -> (s: String)
    ensures
        s@ == no_rows_text(),
{
    String::from_str("Query returned no rows")
}

/// Builds the description of a result with more than one row.
pub fn multiple_rows() -> (s: String)
    ensures
        s@ == multiple_rows_text(),
{
    String::from_str("Query returned multiple rows, expected single row")
}

/// Builds the description of a single row without columns.
pub fn no_columns() -> (s: String)
    ensures
        s@ == no_columns_text(),
{
    String::from_str("Query returned a row with no columns")
}

/// Builds the description of a single row with more than one column.
pub fn multiple_columns() -> (s: String)
    ensures
        s@ == multiple_columns_text(),
{
    String::from_str("Query returned multiple columns, expected single column")
}

/// Builds the description of a single value that is `NULL`.
pub fn null_value() -> (s: String)
    ensures
        s@ == null_value_text(),
{
    String::from_str("Query returned NULL value")
}

} // verus!
