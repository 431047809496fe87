//! The query executor: what a monitoring run does next, and what it logs
//! and returns, given what the database answered so far.
//!
//! The executor never touches the network. It is a state machine: the caller
//! performs the action that a state asks for and reports back with an event.

use vstd::prelude::*;
use crate::backend::BackendKind;
use crate::extract::{extract_single_scalar, spec_extract};
use crate::messages::{
    attempting, attempting_line, connecting, connecting_line, established, established_line,
    query_succeeded, query_succeeded_line,
};
use crate::outcome::{ExecutionOutcome, ExecutionOutcomeView, QueryError, QueryErrorView};
use crate::result_set::{CellView, ResultSet};
use crate::text::{lines, push_line};

verus! {

/// What the caller must do for a run to proceed.
#[derive(Clone, Copy, Debug, PartialEq, Eq)]
pub enum QueryAction<'a> {
    /// Open one connection to this engine with this connection string, with
    /// no retry.
    Connect { backend: BackendKind, connection_string: &'a str },
    /// Run this statement on the open connection and fetch every row.
    Fetch { backend: BackendKind, query: &'a str },
    /// Nothing: the run is over and its outcome can be taken.
    Return,
}

/// The mathematical view of a [`QueryAction`].
pub enum QueryActionView {
    Connect { backend: BackendKind, connection_string: Seq<char> },
    Fetch { backend: BackendKind, query: Seq<char> },
    Return,
}

impl<'a> View for QueryAction<'a> {
    type V = QueryActionView;

    open spec fn view(&self) -> QueryActionView {
        match *self {
            QueryAction::Connect { backend, connection_string } => QueryActionView::Connect {
                backend,
                connection_string: connection_string@,
            },
            QueryAction::Fetch { backend, query } => QueryActionView::Fetch {
                backend,
                query: query@,
            },
            QueryAction::Return => QueryActionView::Return,
        }
    }
}

/// What the caller reports after performing an action.
#[derive(Debug, PartialEq, Eq)]
pub enum QueryEvent {
    /// The connection is open.
    Connected,
    /// The connection could not be opened; the field holds the driver's
    /// diagnostic.
    ConnectFailed(String),
    /// The statement ran; the field holds all its rows.
    Fetched(ResultSet),
    /// The statement failed; the field holds the driver's diagnostic.
    QueryFailed(String),
}

/// The mathematical view of a [`QueryEvent`].
pub enum QueryEventView {
    Connected,
    ConnectFailed(Seq<char>),
    Fetched(Seq<Seq<CellView>>),
    QueryFailed(Seq<char>),
}

impl View for QueryEvent {
    type V = QueryEventView;

    open spec fn view(&self) -> QueryEventView {
        match *self {
            QueryEvent::Connected => QueryEventView::Connected,
            QueryEvent::ConnectFailed(detail) => QueryEventView::ConnectFailed(detail@),
            QueryEvent::Fetched(rows) => QueryEventView::Fetched(rows@),
            QueryEvent::QueryFailed(detail) => QueryEventView::QueryFailed(detail@),
        }
    }
}

/// A query run in progress or finished.
#[derive(Debug, PartialEq, Eq)]
pub enum QueryRun {
    /// Waiting to hear whether the connection opened.
    AwaitingConnection {
        backend: BackendKind,
        connection_string: String,
        query: String,
        logs: Vec<String>,
    },
    /// Connected; waiting for the statement's rows.
    AwaitingRows { backend: BackendKind, query: String, logs: Vec<String> },
    /// Over.
    Done(ExecutionOutcome),
}

/// The mathematical view of a [`QueryRun`].
pub enum QueryRunView {
    AwaitingConnection {
        backend: BackendKind,
        connection_string: Seq<char>,
        query: Seq<char>,
        logs: Seq<Seq<char>>,
    },
    AwaitingRows { backend: BackendKind, query: Seq<char>, logs: Seq<Seq<char>> },
    Done(ExecutionOutcomeView),
}

impl View for QueryRun {
    type V = QueryRunView;

    open spec fn view(&self) -> QueryRunView {
        match *self {
            QueryRun::AwaitingConnection {
                backend,
                connection_string,
                query,
                logs,
            } => QueryRunView::AwaitingConnection {
                backend,
                connection_string: connection_string@,
                query: query@,
                logs: lines(logs@),
            },
            QueryRun::AwaitingRows { backend, query, logs } => QueryRunView::AwaitingRows {
                backend,
                query: query@,
                logs: lines(logs@),
            },
            QueryRun::Done(outcome) => QueryRunView::Done(outcome@),
        }
    }
}

impl QueryRunView {
    /// The log accumulated so far, oldest line first.
    pub open spec fn logs(self) -> Seq<Seq<char>> {
        match self {
            QueryRunView::AwaitingConnection { logs, .. } => logs,
            QueryRunView::AwaitingRows { logs, .. } => logs,
            QueryRunView::Done(outcome) => outcome.logs,
        }
    }

    /// What the caller must do next. The connection string and the
    /// statement are handed on exactly as they were supplied.
    pub open spec fn action(self) -> QueryActionView {
        match self {
            QueryRunView::AwaitingConnection {
                backend,
                connection_string,
                ..
            } => QueryActionView::Connect { backend, connection_string },
            QueryRunView::AwaitingRows { backend, query, .. } => QueryActionView::Fetch {
                backend,
                query,
            },
            QueryRunView::Done(_) => QueryActionView::Return,
        }
    }

    /// The state in which a run starts. A kind that selects an engine is
    /// announced and leads to a connection attempt; any other ends the run
    /// at once, with a single log line.
    pub open spec fn begin(
        connection_string: Seq<char>,
        kind: Seq<char>,
        query: Seq<char>,
    ) -> QueryRunView {
        match BackendKind::spec_parse(kind) {
            Some(backend) => QueryRunView::AwaitingConnection {
                backend,
                connection_string,
                query,
                logs: seq![connecting_line(kind), attempting_line(backend)],
            },
            None => QueryRunView::Done(
                ExecutionOutcomeView::failed(
                    QueryErrorView::UnsupportedBackend(kind),
                    Seq::empty(),
                ),
            ),
        }
    }

    /// The state after an event. An event that does not answer the pending
    /// action leaves the state as it is; a finished run stays finished.
    pub open spec fn step(self, event: QueryEventView) -> QueryRunView {
        match self {
            QueryRunView::AwaitingConnection { backend, query, logs, .. } => match event {
                QueryEventView::Connected => QueryRunView::AwaitingRows {
                    backend,
                    query,
                    logs: logs.push(established_line()),
                },
                QueryEventView::ConnectFailed(detail) => QueryRunView::Done(
                    ExecutionOutcomeView::failed(QueryErrorView::ConnectionFailed(detail), logs),
                ),
                _ => self,
            },
            QueryRunView::AwaitingRows { logs, .. } => match event {
                QueryEventView::Fetched(rows) => {
                    let logs = logs.push(query_succeeded_line());
                    match spec_extract(rows) {
                        Ok(value) => QueryRunView::Done(
                            ExecutionOutcomeView::succeeded(value, logs),
                        ),
                        Err(e) => QueryRunView::Done(
                            ExecutionOutcomeView::failed(QueryErrorView::Extraction(e), logs),
                        ),
                    }
                },
                QueryEventView::QueryFailed(detail) => QueryRunView::Done(
                    ExecutionOutcomeView::failed(QueryErrorView::QueryFailed(detail), logs),
                ),
                _ => self,
            },
            QueryRunView::Done(_) => self,
        }
    }

    /// The state of a run once the caller has reported on the connection
    /// attempt and then on the statement. Where the run ended earlier, the
    /// later reports change nothing.
    pub open spec fn to_end(
        connection_string: Seq<char>,
        kind: Seq<char>,
        query: Seq<char>,
        connection: QueryEventView,
        statement: QueryEventView,
    ) -> QueryRunView {
        QueryRunView::begin(connection_string, kind, query).step(connection).step(statement)
    }

    /// Whether a finished, failed run ends its log with the description of
    /// its error.
    pub open spec fn narrated(self) -> bool {
        self matches QueryRunView::Done(outcome) ==> (outcome.result matches Err(e) ==> {
            &&& outcome.logs.len() > 0
            &&& outcome.logs.last() == e.text()
        })
    }
}

impl QueryRun {
    /// Starts a run of `query` against the engine of kind `connection_type`
    /// that `connection_string` locates.
    pub fn begin(connection_string: &str, connection_type: &str, query: &str) -> (run: QueryRun)
        ensures
            run@ == QueryRunView::begin(connection_string@, connection_type@, query@),
    {
        let mut logs: Vec<String> = Vec::new();
        match BackendKind::parse(connection_type) {
            Some(backend) => {
                push_line(&mut logs, connecting(connection_type));
                push_line(&mut logs, attempting(backend));
                assert(lines(logs@) =~= seq![
                    connecting_line(connection_type@),
                    attempting_line(backend),
                ]);
                QueryRun::AwaitingConnection {
                    backend,
                    connection_string: connection_string.to_owned(),
                    query: query.to_owned(),
                    logs,
                }
            },
            None => {
                assert(lines(logs@) =~= Seq::<Seq<char>>::empty());
                let kind = connection_type.to_owned();
                QueryRun::Done(ExecutionOutcome::failed(QueryError::UnsupportedBackend(kind), logs))
            },
        }
    }

    /// What the caller must do next.
    pub fn action(&self) -> (a: QueryAction<'_>)
        ensures
            a@ == self@.action(),
    {
        match self {
            QueryRun::AwaitingConnection {
                backend,
                connection_string,
                ..
            } => QueryAction::Connect {
                backend: *backend,
                connection_string: connection_string.as_str(),
            },
            QueryRun::AwaitingRows { backend, query, .. } => QueryAction::Fetch {
                backend: *backend,
                query: query.as_str(),
            },
            QueryRun::Done(_) => QueryAction::Return,
        }
    }

    /// Advances the run by one event.
    pub fn step(self, event: QueryEvent) -> (run: QueryRun)
        ensures
            run@ == self@.step(event@),
    {
        match self {
            QueryRun::AwaitingConnection {
                backend,
                connection_string,
                query,
                logs,
            } => match event {
                QueryEvent::Connected => {
                    let mut logs = logs;
                    push_line(&mut logs, established());
                    QueryRun::AwaitingRows { backend, query, logs }
                },
                QueryEvent::ConnectFailed(detail) => QueryRun::Done(
                    ExecutionOutcome::failed(QueryError::ConnectionFailed(detail), logs),
                ),
                _ => QueryRun::AwaitingConnection { backend, connection_string, query, logs },
            },
            QueryRun::AwaitingRows { backend, query, logs } => match event {
                QueryEvent::Fetched(rows) => {
                    let mut logs = logs;
                    push_line(&mut logs, query_succeeded());
                    match extract_single_scalar(rows) {
                        Ok(value) => QueryRun::Done(ExecutionOutcome::succeeded(value, logs)),
                        Err(e) => QueryRun::Done(
                            ExecutionOutcome::failed(QueryError::Extraction(e), logs),
                        ),
                    }
                },
                QueryEvent::QueryFailed(detail) => QueryRun::Done(
                    ExecutionOutcome::failed(QueryError::QueryFailed(detail), logs),
                ),
                _ => QueryRun::AwaitingRows { backend, query, logs },
            },
            QueryRun::Done(outcome) => QueryRun::Done(outcome),
        }
    }

    /// The outcome of a finished run; `None` while the run is in progress.
    pub fn outcome(self) -> (o: Option<ExecutionOutcome>)
        ensures
            match self@ {
                QueryRunView::Done(outcome) => o matches Some(out) && out@ == outcome,
                _ => o is None,
            },
    {
        match self {
            QueryRun::Done(outcome) => Some(outcome),
            _ => None,
        }
    }
}

} // verus!
