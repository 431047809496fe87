//! The executable tables and their write operations.

use vstd::prelude::*;
use crate::metadata::model::{monitor_is, on_connection, uncategorized, MetadataView};
use crate::metadata::records::{Category, Connection, Measurement, Monitor, SchemaError};

verus! {

/// The metadata of an installation.
pub struct Metadata {
    connections: Vec<Connection>,
    categories: Vec<Category>,
    monitors: Vec<Monitor>,
    measurements: Vec<Measurement>,
}

impl View for Metadata {
    type V = MetadataView;

    closed spec fn view(&self) -> MetadataView {
        MetadataView {
            connections: self.connections@,
            categories: self.categories@,
            monitors: self.monitors@,
            measurements: self.measurements@,
        }
    }
}

impl Metadata {
    /// Metadata without any record.
    pub fn new() -> (m: Metadata)
        ensures
            m@.wf(),
            m@.connections.len() == 0,
            m@.categories.len() == 0,
            m@.monitors.len() == 0,
            m@.measurements.len() == 0,
    {
        Metadata {
            connections: Vec::new(),
            categories: Vec::new(),
            monitors: Vec::new(),
            measurements: Vec::new(),
        }
    }

    /// The connections, in insertion order.
    pub fn connections(&self) -> (v: &Vec<Connection>)
        ensures
            v@ == self@.connections,
    {
        &self.connections
    }

    /// The categories, in insertion order.
    pub fn categories(&self) -> (v: &Vec<Category>)
        ensures
            v@ == self@.categories,
    {
        &self.categories
    }

    /// The monitors, in insertion order.
    pub fn monitors(&self) -> (v: &Vec<Monitor>)
        ensures
            v@ == self@.monitors,
    {
        &self.monitors
    }

    /// The measurements, in insertion order.
    pub fn measurements(&self) -> (v: &Vec<Measurement>)
        ensures
            v@ == self@.measurements,
    {
        &self.measurements
    }

    /// Whether a connection with this identity exists.
    pub fn has_connection(&self, id: i64) -> (b: bool)
        ensures
            b == self@.has_connection(id),
    {
        let ghost ids = self@.connection_ids();
        let mut i: usize = 0;
        while i < self.connections.len()
            invariant
                i <= self.connections.len(),
                ids == self@.connection_ids(),
                forall|k: int| 0 <= k < i ==> ids[k] != id,
            decreases self.connections.len() - i,
        {
            if self.connections[i].id == id {
                assert(ids[i as int] == id);
                return true;
            }
            i += 1;
        }
        false
    }

    /// Whether a category with this identity exists.
    pub fn has_category(&self, id: i64) -> (b: bool)
        ensures
            b == self@.has_category(id),
    {
        let ghost ids = self@.category_ids();
        let mut i: usize = 0;
        while i < self.categories.len()
            invariant
                i <= self.categories.len(),
                ids == self@.category_ids(),
                forall|k: int| 0 <= k < i ==> ids[k] != id,
            decreases self.categories.len() - i,
        {
            if self.categories[i].id == id {
                assert(ids[i as int] == id);
                return true;
            }
            i += 1;
        }
        false
    }

    /// Whether a monitor with this identity exists.
    pub fn has_monitor(&self, id: i64) -> (b: bool)
        ensures
            b == self@.has_monitor(id),
    {
        let ghost ids = self@.monitor_ids();
        let mut i: usize = 0;
        while i < self.monitors.len()
            invariant
                i <= self.monitors.len(),
                ids == self@.monitor_ids(),
                forall|k: int| 0 <= k < i ==> ids[k] != id,
            decreases self.monitors.len() - i,
        {
            if self.monitors[i].id == id {
                assert(ids[i as int] == id);
                return true;
            }
            i += 1;
        }
        false
    }

    /// Whether a measurement with this identity exists.
    pub fn has_measurement(&self, id: i64) -> (b: bool)
        ensures
            b == self@.has_measurement(id),
    {
        let ghost ids = self@.measurement_ids();
        let mut i: usize = 0;
        while i < self.measurements.len()
            invariant
                i <= self.measurements.len(),
                ids == self@.measurement_ids(),
                forall|k: int| 0 <= k < i ==> ids[k] != id,
            decreases self.measurements.len() - i,
        {
            if self.measurements[i].id == id {
                assert(ids[i as int] == id);
                return true;
            }
            i += 1;
        }
        false
    }

    /// Inserts a connection, unless its identity is taken.
    pub fn insert_connection(&mut self, connection: Connection) -> (r: Result<(), SchemaError>)
        requires
            old(self)@.wf(),
        ensures
            final(self)@.wf(),
            r == old(self)@.check_connection(connection),
            r is Ok ==> final(self)@ == old(self)@.with_connection(connection),
            r is Err ==> final(self)@ == old(self)@,
    {
        if self.has_connection(connection.id) {
            return Err(SchemaError::DuplicateId);
        }
        proof {
            self@.lemma_with_connection_wf(connection);
        }
        self.connections.push(connection);
        Ok(())
    }

    /// Inserts a category, unless its identity is taken.
    pub fn insert_category(&mut self, category: Category) -> (r: Result<(), SchemaError>)
        requires
            old(self)@.wf(),
        ensures
            final(self)@.wf(),
            r == old(self)@.check_category(category),
            r is Ok ==> final(self)@ == old(self)@.with_category(category),
            r is Err ==> final(self)@ == old(self)@,
    {
        if self.has_category(category.id) {
            return Err(SchemaError::DuplicateId);
        }
        proof {
            self@.lemma_with_category_wf(category);
        }
        self.categories.push(category);
        Ok(())
    }

    /// Inserts a monitor, unless its identity is taken or it names a
    /// connection or a category that does not exist.
    pub fn insert_monitor(&mut self, monitor: Monitor) -> (r: Result<(), SchemaError>)
        requires
            old(self)@.wf(),
        ensures
            final(self)@.wf(),
            r == old(self)@.check_monitor(monitor),
            r is Ok ==> final(self)@ == old(self)@.with_monitor(monitor),
            r is Err ==> final(self)@ == old(self)@,
    {
        if self.has_monitor(monitor.id) {
            return Err(SchemaError::DuplicateId);
        }
        if !self.has_connection(monitor.connection_id) {
            return Err(SchemaError::MissingConnection);
        }
        match monitor.category_id {
            Some(c) => {
                if !self.has_category(c) {
                    return Err(SchemaError::MissingCategory);
                }
            },
            None => {},
        }
        proof {
            self@.lemma_with_monitor_wf(monitor);
        }
        self.monitors.push(monitor);
        Ok(())
    }

    /// Appends a measurement, unless its identity is taken or it names a
    /// monitor that does not exist.
    pub fn insert_measurement(&mut self, measurement: Measurement) -> (r: Result<(), SchemaError>)
        requires
            old(self)@.wf(),
        ensures
            final(self)@.wf(),
            r == old(self)@.check_measurement(measurement),
            r is Ok ==> final(self)@ == old(self)@.with_measurement(measurement),
            r is Err ==> final(self)@ == old(self)@,
    {
        if self.has_measurement(measurement.id) {
            return Err(SchemaError::DuplicateId);
        }
        if !self.has_monitor(measurement.monitor_id) {
            return Err(SchemaError::MissingMonitor);
        }
        proof {
            self@.lemma_with_measurement_wf(measurement);
        }
        self.measurements.push(measurement);
        Ok(())
    }

    /// Deletes a monitor and, with it, its measurements.
    pub fn delete_monitor(&mut self, id: i64)
        requires
            old(self)@.wf(),
        ensures
            final(self)@ == old(self)@.without_monitor(id),
            final(self)@.wf(),
    {
        proof {
            self@.lemma_without_monitor_wf(id);
        }
        let mut monitors: Vec<Monitor> = Vec::new();
        core::mem::swap(&mut self.monitors, &mut monitors);
        let keep = |m: &Monitor| -> (b: bool)
            ensures
                b == (m.id != id),
        {
            m.id != id
        };
        self.monitors = retain(monitors, keep, Ghost(|m: Monitor| m.id != id));
        let mut measurements: Vec<Measurement> = Vec::new();
        core::mem::swap(&mut self.measurements, &mut measurements);
        let keep = |x: &Measurement| -> (b: bool)
            ensures
                b == (x.monitor_id != id),
        {
            x.monitor_id != id
        };
        self.measurements = retain(measurements, keep, Ghost(|x: Measurement| x.monitor_id != id));
    }

    /// Deletes a category and clears it from the monitors that carried it.
    pub fn delete_category(&mut self, id: i64)
        requires
            old(self)@.wf(),
        ensures
            final(self)@ == old(self)@.without_category(id),
            final(self)@.wf(),
    {
        proof {
            self@.lemma_without_category_wf(id);
        }
        let mut categories: Vec<Category> = Vec::new();
        core::mem::swap(&mut self.categories, &mut categories);
        let keep = |c: &Category| -> (b: bool)
            ensures
                b == (c.id != id),
        {
            c.id != id
        };
        self.categories = retain(categories, keep, Ghost(|c: Category| c.id != id));
        let mut monitors: Vec<Monitor> = Vec::new();
        core::mem::swap(&mut self.monitors, &mut monitors);
        self.monitors = clear_category(monitors, id);
    }

    /// Deletes a connection and, with it, its monitors and their
    /// measurements.
    pub fn delete_connection(&mut self, id: i64)
        requires
            old(self)@.wf(),
        ensures
            final(self)@ == old(self)@.without_connection(id),
            final(self)@.wf(),
    {
        proof {
            self@.lemma_without_connection_wf(id);
        }
        let mut connections: Vec<Connection> = Vec::new();
        core::mem::swap(&mut self.connections, &mut connections);
        let keep = |c: &Connection| -> (b: bool)
            ensures
                b == (c.id != id),
        {
            c.id != id
        };
        self.connections = retain(connections, keep, Ghost(|c: Connection| c.id != id));
        let mut monitors: Vec<Monitor> = Vec::new();
        core::mem::swap(&mut self.monitors, &mut monitors);
        let mut measurements: Vec<Measurement> = Vec::new();
        core::mem::swap(&mut self.measurements, &mut measurements);
        let owned = &monitors;
        let keep = |x: &Measurement| -> (b: bool)
            ensures
                b == !on_connection(owned@, x.monitor_id, id),
        {
            !any_monitor_is(owned, x.monitor_id, id)
        };
        self.measurements = retain(
            measurements,
            keep,
            Ghost(|x: Measurement| !on_connection(owned@, x.monitor_id, id)),
        );
        let keep = |m: &Monitor| -> (b: bool)
            ensures
                b == (m.connection_id != id),
        {
            m.connection_id != id
        };
        self.monitors = retain(monitors, keep, Ghost(|m: Monitor| m.connection_id != id));
    }
}

/// The elements of `v` that `keep` accepts, in their order.
fn retain<T, F: Fn(&T) -> bool>(
    v: Vec<T>,
    keep: F,
    Ghost(pred): Ghost<spec_fn(T) -> bool>,
) -> (out: Vec<T>)
    requires
        forall|x: T| #[trigger] keep.requires((&x,)),
        forall|x: T, b: bool| #[trigger] keep.ensures((&x,), b) ==> b == pred(x),
    ensures
        out@ == v@.filter(pred),
{
    let mut out: Vec<T> = Vec::new();
    let ghost src = v@;
    proof {
        reveal(Seq::filter);
    }
    for x in it: v
        invariant
            it.seq() == src,
            out@ == src.take(it.index() as int).filter(pred),
            forall|x: T| #[trigger] keep.requires((&x,)),
            forall|x: T, b: bool| #[trigger] keep.ensures((&x,), b) ==> b == pred(x),
    {
        proof {
            let i = it.index() as int;
            reveal(Seq::filter);
            assert(src.take(i + 1).drop_last() =~= src.take(i));
        }
        if keep(&x) {
            out.push(x);
        }
    }
    assert(src.take(src.len() as int) =~= src);
    out
}

/// Whether some monitor of `monitors` has this identity and belongs to this
/// connection.
fn any_monitor_is(monitors: &Vec<Monitor>, monitor_id: i64, connection_id: i64) -> (b: bool)
    ensures
        b == on_connection(monitors@, monitor_id, connection_id),
{
    let mut i: usize = 0;
    while i < monitors.len()
        invariant
            i <= monitors.len(),
            forall|k: int|
                0 <= k < i ==> !monitor_is(#[trigger] monitors@[k], monitor_id, connection_id),
        decreases monitors.len() - i,
    {
        if monitors[i].id == monitor_id && monitors[i].connection_id == connection_id {
            return true;
        }
        i += 1;
    }
    false
}

/// The monitors of `v`, each without its category if that is `category_id`.
fn clear_category(v: Vec<Monitor>, category_id: i64) -> (out: Vec<Monitor>)
    ensures
        out@ == v@.map_values(|m: Monitor| uncategorized(m, category_id)),
{
    let mut out: Vec<Monitor> = Vec::new();
    let ghost src = v@;
    for m in it: v
        invariant
            it.seq() == src,
            out@.len() == it.index(),
            forall|k: int| 0 <= k < out@.len() ==> out@[k] == uncategorized(src[k], category_id),
    {
        let mut m = m;
        let clear = match m.category_id {
            Some(c) => c == category_id,
            None => false,
        };
        if clear {
            m.category_id = None;
        }
        out.push(m);
    }
    out
}

} // verus!
