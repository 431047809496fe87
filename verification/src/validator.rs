//! The connection validator: the executor's first phase on its own. It
//! decides whether a connection test succeeded and what it logged, given
//! what the connection attempt reported.

use vstd::prelude::*;
use crate::backend::BackendKind;
use crate::messages::{
    attempting, attempting_line, connecting, connecting_line, connection_failed,
    connection_failed_text, established, established_line, test_completed, test_completed_line,
    unsupported, unsupported_text,
};
use crate::outcome::{TestConnectionResponse, TestConnectionResponseView};
use crate::text::{lines, push_line};

verus! {

/// What the caller must do for a test to proceed.
#[derive(Clone, Copy, Debug, PartialEq, Eq)]
pub enum ConnectAction<'a> {
    /// Open one connection to this engine with this connection string, with
    /// no retry.
    Connect { backend: BackendKind, connection_string: &'a str },
    /// Nothing: the test is over and its response can be taken.
    Return,
}

/// The mathematical view of a [`ConnectAction`].
pub enum ConnectActionView {
    Connect { backend: BackendKind, connection_string: Seq<char> },
    Return,
}

impl<'a> View for ConnectAction<'a> {
    type V = ConnectActionView;

    open spec fn view(&self) -> ConnectActionView {
        match *self {
            ConnectAction::Connect { backend, connection_string } => ConnectActionView::Connect {
                backend,
                connection_string: connection_string@,
            },
            ConnectAction::Return => ConnectActionView::Return,
        }
    }
}

/// What the caller reports after a connection attempt.
#[derive(Debug, PartialEq, Eq)]
pub enum ConnectEvent {
    /// The connection is open.
    Connected,
    /// The connection could not be opened; the field holds the driver's
    /// diagnostic.
    ConnectFailed(String),
}

/// The mathematical view of a [`ConnectEvent`].
pub enum ConnectEventView {
    Connected,
    ConnectFailed(Seq<char>),
}

impl View for ConnectEvent {
    type V = ConnectEventView;

    open spec fn view(&self) -> ConnectEventView {
        match *self {
            ConnectEvent::Connected => ConnectEventView::Connected,
            ConnectEvent::ConnectFailed(detail) => ConnectEventView::ConnectFailed(detail@),
        }
    }
}

/// A connection test in progress or finished.
#[derive(Debug, PartialEq, Eq)]
pub enum ConnectionTest {
    /// Waiting to hear whether the connection opened.
    AwaitingConnection { backend: BackendKind, connection_string: String, logs: Vec<String> },
    /// Over.
    Done(TestConnectionResponse),
}

/// The mathematical view of a [`ConnectionTest`].
pub enum ConnectionTestView {
    AwaitingConnection { backend: BackendKind, connection_string: Seq<char>, logs: Seq<Seq<char>> },
    Done(TestConnectionResponseView),
}

impl View for ConnectionTest {
    type V = ConnectionTestView;

    open spec fn view(&self) -> ConnectionTestView {
        match *self {
            ConnectionTest::AwaitingConnection { backend, connection_string, logs } => {
                ConnectionTestView::AwaitingConnection {
                    backend,
                    connection_string: connection_string@,
                    logs: lines(logs@),
                }
            },
            ConnectionTest::Done(response) => ConnectionTestView::Done(response@),
        }
    }
}

impl ConnectionTestView {
    /// The log accumulated so far, oldest line first.
    pub open spec fn logs(self) -> Seq<Seq<char>> {
        match self {
            ConnectionTestView::AwaitingConnection { logs, .. } => logs,
            ConnectionTestView::Done(response) => response.logs,
        }
    }

    /// What the caller must do next. The connection string is handed on
    /// exactly as it was supplied.
    pub open spec fn action(self) -> ConnectActionView {
        match self {
            ConnectionTestView::AwaitingConnection {
                backend,
                connection_string,
                ..
            } => ConnectActionView::Connect { backend, connection_string },
            ConnectionTestView::Done(_) => ConnectActionView::Return,
        }
    }

    /// The state in which a test starts. A kind that selects an engine is
    /// announced and leads to a connection attempt; any other ends the test
    /// at once, as a failure with a single log line.
    pub open spec fn begin(connection_string: Seq<char>, kind: Seq<char>) -> ConnectionTestView {
        match BackendKind::spec_parse(kind) {
            Some(backend) => ConnectionTestView::AwaitingConnection {
                backend,
                connection_string,
                logs: seq![connecting_line(kind), attempting_line(backend)],
            },
            None => ConnectionTestView::Done(
                TestConnectionResponseView { success: false, logs: seq![unsupported_text(kind)] },
            ),
        }
    }

    /// The state after an event. A finished test stays finished.
    pub open spec fn step(self, event: ConnectEventView) -> ConnectionTestView {
        match self {
            ConnectionTestView::AwaitingConnection { logs, .. } => match event {
                ConnectEventView::Connected => ConnectionTestView::Done(
                    TestConnectionResponseView {
                        success: true,
                        logs: logs.push(established_line()).push(test_completed_line()),
                    },
                ),
                ConnectEventView::ConnectFailed(detail) => ConnectionTestView::Done(
                    TestConnectionResponseView {
                        success: false,
                        logs: logs.push(connection_failed_text(detail)),
                    },
                ),
            },
            ConnectionTestView::Done(_) => self,
        }
    }
}

impl ConnectionTest {
    /// Starts a test of the connection to the engine of kind
    /// `connection_type` that `connection_string` locates.
    pub fn begin(connection_string: &str, connection_type: &str) -> (test: ConnectionTest)
        ensures
            test@ == ConnectionTestView::begin(connection_string@, connection_type@),
    {
        let mut logs: Vec<String> = Vec::new();
        match BackendKind::parse(connection_type) {
            Some(backend) => {
                push_line(&mut logs, connecting(connection_type));
                push_line(&mut logs, attempting(backend));
                assert(lines(logs@) =~= seq![
                    connecting_line(connection_type@),
                    attempting_line(backend),
                ]);
                ConnectionTest::AwaitingConnection {
                    backend,
                    connection_string: connection_string.to_owned(),
                    logs,
                }
            },
            None => {
                push_line(&mut logs, unsupported(connection_type));
                assert(lines(logs@) =~= seq![unsupported_text(connection_type@)]);
                ConnectionTest::Done(TestConnectionResponse { success: false, logs })
            },
        }
    }

    /// What the caller must do next.
    pub fn action(&self) -> (a: ConnectAction<'_>)
        ensures
            a@ == self@.action(),
    {
        match self {
            ConnectionTest::AwaitingConnection {
                backend,
                connection_string,
                ..
            } => ConnectAction::Connect {
                backend: *backend,
                connection_string: connection_string.as_str(),
            },
            ConnectionTest::Done(_) => ConnectAction::Return,
        }
    }

    /// Advances the test by one event.
    pub fn step(self, event: ConnectEvent) -> (test: ConnectionTest)
        ensures
            test@ == self@.step(event@),
    {
        match self {
            ConnectionTest::AwaitingConnection { logs, .. } => {
                let mut logs = logs;
                match event {
                    ConnectEvent::Connected => {
                        push_line(&mut logs, established());
                        push_line(&mut logs, test_completed());
                        ConnectionTest::Done(TestConnectionResponse { success: true, logs })
                    },
                    ConnectEvent::ConnectFailed(detail) => {
                        push_line(&mut logs, connection_failed(detail.as_str()));
                        ConnectionTest::Done(TestConnectionResponse { success: false, logs })
                    },
                }
            },
            ConnectionTest::Done(response) => ConnectionTest::Done(response),
        }
    }

    /// The response of a finished test; `None` while the test is in progress.
    pub fn response(self) -> (r: Option<TestConnectionResponse>)
        ensures
            match self@ {
                ConnectionTestView::Done(response) => r matches Some(res) && res@ == response,
                _ => r is None,
            },
    {
        match self {
            ConnectionTest::Done(response) => Some(response),
            _ => None,
        }
    }
}

} // verus!
