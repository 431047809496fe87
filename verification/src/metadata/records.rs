//! The four kinds of record.

use vstd::prelude::*;
use crate::backend::BackendKind;
use crate::cadence::Cadence;

verus! {

/// A registered database connection.
#[derive(Debug, PartialEq, Eq)]
pub struct Connection {
    pub id: i64,
    pub name: String,
    pub kind: BackendKind,
    pub connection_string: String,
    pub created_at: String,
    pub updated_at: String,
}

/// A grouping label for monitors.
#[derive(Debug, PartialEq, Eq)]
pub struct Category {
    pub id: i64,
    pub name: String,
    pub created_at: String,
    pub updated_at: String,
}

/// A named, scheduled query against a connection.
#[derive(Debug, PartialEq, Eq)]
pub struct Monitor {
    pub id: i64,
    pub name: String,
    pub connection_id: i64,
    pub category_id: Option<i64>,
    pub enabled: bool,
    pub starred: bool,
    pub cadence: Cadence,
    pub query: String,
    pub created_at: String,
    pub updated_at: String,
}

impl Monitor {
    /// A monitor with the defaults of the schema: enabled, not starred, and
    /// without a category.
    pub fn new(
        id: i64,
        name: String,
        connection_id: i64,
        cadence: Cadence,
        query: String,
        created_at: String,
        updated_at: String,
    ) -> (m: Monitor)
        ensures
            m == (Monitor {
                id,
                name,
                connection_id,
                category_id: None,
                enabled: true,
                starred: false,
                cadence,
                query,
                created_at,
                updated_at,
            }),
    {
        Monitor {
            id,
            name,
            connection_id,
            category_id: None,
            enabled: true,
            starred: false,
            cadence,
            query,
            created_at,
            updated_at,
        }
    }
}

/// One recorded value of a monitor. The value is kept as the bit pattern of
/// a double-precision number; nothing here computes with it.
#[derive(Debug, PartialEq, Eq)]
pub struct Measurement {
    pub id: i64,
    pub monitor_id: i64,
    pub value_bits: u64,
    pub created_at: String,
}

/// Why a write was refused.
#[derive(Clone, Copy, Debug, PartialEq, Eq, Structural)]
pub enum SchemaError {
    /// A record of the same kind already has this identity.
    DuplicateId,
    /// The monitor names a connection that does not exist.
    MissingConnection,
    /// The monitor names a category that does not exist.
    MissingCategory,
    /// The measurement names a monitor that does not exist.
    MissingMonitor,
}

} // verus!
