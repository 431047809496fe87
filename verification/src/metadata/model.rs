//! The tables as mathematical sequences, their invariant, and what each
//! write does to them.

use vstd::prelude::*;
use crate::metadata::records::{Category, Connection, Measurement, Monitor, SchemaError};

verus! {

/// The four tables, each in insertion order.
pub struct MetadataView {
    pub connections: Seq<Connection>,
    pub categories: Seq<Category>,
    pub monitors: Seq<Monitor>,
    pub measurements: Seq<Measurement>,
}

impl MetadataView {
    /// The identities of the connections, in table order.
    pub open spec fn connection_ids(self) -> Seq<i64> {
        self.connections.map_values(|c: Connection| c.id)
    }

    /// The identities of the categories, in table order.
    pub open spec fn category_ids(self) -> Seq<i64> {
        self.categories.map_values(|c: Category| c.id)
    }

    /// The identities of the monitors, in table order.
    pub open spec fn monitor_ids(self) -> Seq<i64> {
        self.monitors.map_values(|m: Monitor| m.id)
    }

    /// The identities of the measurements, in table order.
    pub open spec fn measurement_ids(self) -> Seq<i64> {
        self.measurements.map_values(|m: Measurement| m.id)
    }

    /// Whether a connection with this identity exists.
    pub open spec fn has_connection(self, id: i64) -> bool {
        self.connection_ids().contains(id)
    }

    /// Whether a category with this identity exists.
    pub open spec fn has_category(self, id: i64) -> bool {
        self.category_ids().contains(id)
    }

    /// Whether a monitor with this identity exists.
    pub open spec fn has_monitor(self, id: i64) -> bool {
        self.monitor_ids().contains(id)
    }

    /// Whether a measurement with this identity exists.
    pub open spec fn has_measurement(self, id: i64) -> bool {
        self.measurement_ids().contains(id)
    }

    /// Identities are unique within each table.
    pub open spec fn unique_ids(self) -> bool {
        &&& self.connection_ids().no_duplicates()
        &&& self.category_ids().no_duplicates()
        &&& self.monitor_ids().no_duplicates()
        &&& self.measurement_ids().no_duplicates()
    }

    /// Whether a monitor's references name records that exist.
    pub open spec fn monitor_resolves(self, monitor: Monitor) -> bool {
        &&& self.has_connection(monitor.connection_id)
        &&& monitor.category_id matches Some(c) ==> self.has_category(c)
    }

    /// Whether a measurement's reference names a monitor that exists.
    pub open spec fn measurement_resolves(self, measurement: Measurement) -> bool {
        self.has_monitor(measurement.monitor_id)
    }

    /// Every reference names a record that exists.
    pub open spec fn references_resolve(self) -> bool {
        &&& forall|i: int|
            0 <= i < self.monitors.len() ==> self.monitor_resolves(#[trigger] self.monitors[i])
        &&& forall|i: int|
            0 <= i < self.measurements.len() ==> self.measurement_resolves(
                #[trigger] self.measurements[i],
            )
    }

    /// The invariant of the model: identities are unique within each
    /// table, every monitor's connection exists, every category that a
    /// monitor carries exists, and every measurement's monitor exists.
    pub open spec fn wf(self) -> bool {
        self.unique_ids() && self.references_resolve()
    }

    /// Whether a connection may be inserted.
    pub open spec fn check_connection(self, connection: Connection) -> Result<(), SchemaError> {
        if self.has_connection(connection.id) {
            Err(SchemaError::DuplicateId)
        } else {
            Ok(())
        }
    }

    /// Whether a category may be inserted.
    pub open spec fn check_category(self, category: Category) -> Result<(), SchemaError> {
        if self.has_category(category.id) {
            Err(SchemaError::DuplicateId)
        } else {
            Ok(())
        }
    }

    /// Whether a monitor may be inserted. Its identity is checked first,
    /// then its connection, then its category.
    pub open spec fn check_monitor(self, monitor: Monitor) -> Result<(), SchemaError> {
        if self.has_monitor(monitor.id) {
            Err(SchemaError::DuplicateId)
        } else if !self.has_connection(monitor.connection_id) {
            Err(SchemaError::MissingConnection)
        } else if monitor.category_id matches Some(c) && !self.has_category(c) {
            Err(SchemaError::MissingCategory)
        } else {
            Ok(())
        }
    }

    /// Whether a measurement may be inserted. Its identity is checked
    /// first, then its monitor.
    pub open spec fn check_measurement(self, measurement: Measurement) -> Result<(), SchemaError> {
        if self.has_measurement(measurement.id) {
            Err(SchemaError::DuplicateId)
        } else if !self.has_monitor(measurement.monitor_id) {
            Err(SchemaError::MissingMonitor)
        } else {
            Ok(())
        }
    }

    /// The tables after a connection was inserted.
    pub open spec fn with_connection(self, connection: Connection) -> MetadataView {
        MetadataView { connections: self.connections.push(connection), ..self }
    }

    /// The tables after a category was inserted.
    pub open spec fn with_category(self, category: Category) -> MetadataView {
        MetadataView { categories: self.categories.push(category), ..self }
    }

    /// The tables after a monitor was inserted.
    pub open spec fn with_monitor(self, monitor: Monitor) -> MetadataView {
        MetadataView { monitors: self.monitors.push(monitor), ..self }
    }

    /// The tables after a measurement was appended.
    pub open spec fn with_measurement(self, measurement: Measurement) -> MetadataView {
        MetadataView { measurements: self.measurements.push(measurement), ..self }
    }

    /// The tables after a monitor was deleted: the monitor is gone, and so
    /// are its measurements.
    pub open spec fn without_monitor(self, id: i64) -> MetadataView {
        MetadataView {
            monitors: self.monitors.filter(|m: Monitor| m.id != id),
            measurements: self.measurements.filter(|x: Measurement| x.monitor_id != id),
            ..self
        }
    }

    /// The tables after a category was deleted: the category is gone, and
    /// the monitors that carried it carry none.
    pub open spec fn without_category(self, id: i64) -> MetadataView {
        MetadataView {
            categories: self.categories.filter(|c: Category| c.id != id),
            monitors: self.monitors.map_values(|m: Monitor| uncategorized(m, id)),
            ..self
        }
    }

    /// The tables after a connection was deleted: the connection is gone,
    /// and so are its monitors and their measurements.
    pub open spec fn without_connection(self, id: i64) -> MetadataView {
        MetadataView {
            connections: self.connections.filter(|c: Connection| c.id != id),
            monitors: self.monitors.filter(|m: Monitor| m.connection_id != id),
            measurements: self.measurements.filter(
                |x: Measurement| !on_connection(self.monitors, x.monitor_id, id),
            ),
            ..self
        }
    }
}

/// Whether some monitor of `monitors` has this identity and belongs to this
/// connection.
pub open spec fn on_connection(
    monitors: Seq<Monitor>,
    monitor_id: i64,
    connection_id: i64,
) -> bool {
    exists|i: int|
        0 <= i < monitors.len() && monitor_is(#[trigger] monitors[i], monitor_id, connection_id)
}

/// Whether a monitor has this identity and belongs to this connection.
pub open spec fn monitor_is(monitor: Monitor, monitor_id: i64, connection_id: i64) -> bool {
    monitor.id == monitor_id && monitor.connection_id == connection_id
}

/// A monitor with its category cleared if it is `category_id`.
pub open spec fn uncategorized(monitor: Monitor, category_id: i64) -> Monitor {
    if monitor.category_id == Some(category_id) {
        Monitor { category_id: None, ..monitor }
    } else {
        monitor
    }
}

} // verus!
