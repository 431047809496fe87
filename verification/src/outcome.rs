//! What a run hands back: the typed outcome, and the flat responses that
//! callers present or persist.

use vstd::prelude::*;
use crate::extract::ExtractError;
use crate::messages::{
    connection_failed, connection_failed_text, query_failed, query_failed_text, unsupported,
    unsupported_text,
};
use crate::text::{lines, push_line, text};

verus! {

/// Why a run did not yield a value.
#[derive(Debug, PartialEq, Eq)]
pub enum QueryError {
    /// The kind string selects no engine; the field holds it.
    UnsupportedBackend(String),
    /// The connection could not be opened; the field holds the driver's
    /// diagnostic.
    ConnectionFailed(String),
    /// The engine rejected or failed to run the statement; the field holds
    /// the driver's diagnostic.
    QueryFailed(String),
    /// The statement ran, but its result is not a single value.
    Extraction(ExtractError),
}

/// The mathematical view of a [`QueryError`].
pub enum QueryErrorView {
    UnsupportedBackend(Seq<char>),
    ConnectionFailed(Seq<char>),
    QueryFailed(Seq<char>),
    Extraction(ExtractError),
}

impl QueryErrorView {
    /// The description shown to the operator.
    pub open spec fn text(self) -> Seq<char> {
        match self {
            QueryErrorView::UnsupportedBackend(kind) => unsupported_text(kind),
            QueryErrorView::ConnectionFailed(detail) => connection_failed_text(detail),
            QueryErrorView::QueryFailed(detail) => query_failed_text(detail),
            QueryErrorView::Extraction(e) => e.text(),
        }
    }
}

impl View for QueryError {
    type V = QueryErrorView;

    open spec fn view(&self) -> QueryErrorView {
        match *self {
            QueryError::UnsupportedBackend(kind) => QueryErrorView::UnsupportedBackend(kind@),
            QueryError::ConnectionFailed(detail) => QueryErrorView::ConnectionFailed(detail@),
            QueryError::QueryFailed(detail) => QueryErrorView::QueryFailed(detail@),
            QueryError::Extraction(e) => QueryErrorView::Extraction(e),
        }
    }
}

impl QueryError {
    /// The description shown to the operator.
    pub fn message(&self) -> (s: String)
        ensures
            s@ == self@.text(),
    {
        match self {
            QueryError::UnsupportedBackend(kind) => unsupported(kind.as_str()),
            QueryError::ConnectionFailed(detail) => connection_failed(detail.as_str()),
            QueryError::QueryFailed(detail) => query_failed(detail.as_str()),
            QueryError::Extraction(e) => e.message(),
        }
    }
}

/// The typed outcome of a query run: the value or the error, and the log of
/// the steps taken, oldest first.
#[derive(Debug, PartialEq, Eq)]
pub struct ExecutionOutcome {
    pub result: Result<String, QueryError>,
    pub logs: Vec<String>,
}

/// The mathematical view of an [`ExecutionOutcome`].
pub struct ExecutionOutcomeView {
    pub result: Result<Seq<char>, QueryErrorView>,
    pub logs: Seq<Seq<char>>,
}

impl View for ExecutionOutcome {
    type V = ExecutionOutcomeView;

    open spec fn view(&self) -> ExecutionOutcomeView {
        ExecutionOutcomeView {
            result: match self.result {
                Ok(value) => Ok(value@),
                Err(e) => Err(e@),
            },
            logs: lines(self.logs@),
        }
    }
}

impl ExecutionOutcomeView {
    /// The outcome of a run that extracted `value` after logging `logs`.
    pub open spec fn succeeded(value: Seq<char>, logs: Seq<Seq<char>>) -> ExecutionOutcomeView {
        ExecutionOutcomeView { result: Ok(value), logs }
    }

    /// The outcome of a run that stopped on `error` after logging `logs`:
    /// the error's description becomes the last log line.
    pub open spec fn failed(error: QueryErrorView, logs: Seq<Seq<char>>) -> ExecutionOutcomeView {
        ExecutionOutcomeView { result: Err(error), logs: logs.push(error.text()) }
    }

    /// The flat response for this outcome.
    pub open spec fn response(self) -> RunQueryResponseView {
        match self.result {
            Ok(value) => RunQueryResponseView {
                success: true,
                error: None,
                value: Some(value),
                logs: self.logs,
            },
            Err(e) => RunQueryResponseView {
                success: false,
                error: Some(e.text()),
                value: None,
                logs: self.logs,
            },
        }
    }
}

impl ExecutionOutcome {
    /// The outcome of a run that extracted `value` after logging `logs`.
    pub fn succeeded(value: String, logs: Vec<String>) -> (o: ExecutionOutcome)
        ensures
            o@ == ExecutionOutcomeView::succeeded(value@, lines(logs@)),
    {
        ExecutionOutcome { result: Ok(value), logs }
    }

    /// The outcome of a run that stopped on `error` after logging `logs`.
    pub fn failed(error: QueryError, logs: Vec<String>) -> (o: ExecutionOutcome)
        ensures
            o@ == ExecutionOutcomeView::failed(error@, lines(logs@)),
    {
        let mut logs = logs;
        let line = error.message();
        push_line(&mut logs, line);
        ExecutionOutcome { result: Err(error), logs }
    }

    /// Flattens the outcome into the response that callers present.
    pub fn into_response(self) -> (r: RunQueryResponse)
        ensures
            r@ == self@.response(),
            r@.wf(),
    {
        match self.result {
            Ok(value) => RunQueryResponse {
                success: true,
                error: None,
                value: Some(value),
                logs: self.logs,
            },
            Err(e) => RunQueryResponse {
                success: false,
                error: Some(e.message()),
                value: None,
                logs: self.logs,
            },
        }
    }
}

/// The response to a query run.
#[derive(Debug, PartialEq, Eq)]
pub struct RunQueryResponse {
    pub success: bool,
    pub error: Option<String>,
    pub value: Option<String>,
    pub logs: Vec<String>,
}

/// The mathematical view of a [`RunQueryResponse`].
pub struct RunQueryResponseView {
    pub success: bool,
    pub error: Option<Seq<char>>,
    pub value: Option<Seq<char>>,
    pub logs: Seq<Seq<char>>,
}

impl RunQueryResponseView {
    /// A value is present exactly on success, an error exactly on failure.
    pub open spec fn wf(self) -> bool {
        &&& self.success <==> self.value is Some
        &&& self.success <==> self.error is None
    }
}

impl View for RunQueryResponse {
    type V = RunQueryResponseView;

    open spec fn view(&self) -> RunQueryResponseView {
        RunQueryResponseView {
            success: self.success,
            error: text(self.error),
            value: text(self.value),
            logs: lines(self.logs@),
        }
    }
}

/// The response to a connection test.
#[derive(Debug, PartialEq, Eq)]
pub struct TestConnectionResponse {
    pub success: bool,
    pub logs: Vec<String>,
}

/// The mathematical view of a [`TestConnectionResponse`].
pub struct TestConnectionResponseView {
    pub success: bool,
    pub logs: Seq<Seq<char>>,
}

impl View for TestConnectionResponse {
    type V = TestConnectionResponseView;

    open spec fn view(&self) -> TestConnectionResponseView {
        TestConnectionResponseView { success: self.success, logs: lines(self.logs@) }
    }
}

} // verus!
