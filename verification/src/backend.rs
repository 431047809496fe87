//! The database engines a connection can target.

use vstd::prelude::*;
use vstd::string::*;

verus! {

/// A supported database engine.
#[derive(Clone, Copy, Debug, PartialEq, Eq, Structural)]
pub enum BackendKind {
    Postgres,
    MySql,
}

impl BackendKind {
    /// The engine that a kind string selects, if any. Matching is exact:
    /// there is no trimming and no case folding.
    pub open spec fn spec_parse(kind: Seq<char>) -> Option<BackendKind> {
        if kind == "postgres"@ {
            Some(BackendKind::Postgres)
        } else if kind == "mysql"@ {
            Some(BackendKind::MySql)
        } else {
            None
        }
    }

    /// The kind string of an engine.
    pub open spec fn spec_name(self) -> Seq<char> {
        match self {
            BackendKind::Postgres => "postgres"@,
            BackendKind::MySql => "mysql"@,
        }
    }

    /// Reads a kind string.
    pub fn parse(kind: &str) -> (r: Option<BackendKind>)
        ensures
            r == Self::spec_parse(kind@),
    {
        let k = String::from_str(kind);
        if k == String::from_str("postgres") {
            Some(BackendKind::Postgres)
        } else if k == String::from_str("mysql") {
            Some(BackendKind::MySql)
        } else {
            None
        }
    }

    /// The kind string of an engine.
    pub fn name(self) -> (s: &'static str)
        ensures
            s@ == self.spec_name(),
    {
        match self {
            BackendKind::Postgres => "postgres",
            BackendKind::MySql => "mysql",
        }
    }

    /// Reading an engine's kind string gives the engine back, and a kind
    /// string that selects an engine is that engine's kind string.
    pub proof fn lemma_parse_inverts_name(backend: BackendKind, kind: Seq<char>)
        ensures
            Self::spec_parse(backend.spec_name()) == Some(backend),
            Self::spec_parse(kind) matches Some(b) ==> b.spec_name() == kind,
    {
        reveal_strlit("postgres");
        reveal_strlit("mysql");
        assert("mysql"@.len() == 5);
    }
}

} // verus!
