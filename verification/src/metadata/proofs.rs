//! Proofs that every write keeps the invariant, and the laws of deletion.

use vstd::prelude::*;
use crate::metadata::model::{monitor_is, on_connection, uncategorized, MetadataView};
use crate::metadata::records::{Category, Connection, Measurement, Monitor};

verus! {

impl MetadataView {
    /// Inserting a connection with a fresh identity keeps the invariant.
    pub proof fn lemma_with_connection_wf(self, connection: Connection)
        requires
            self.wf(),
            self.check_connection(connection) is Ok,
        ensures
            self.with_connection(connection).wf(),
    {
        let after = self.with_connection(connection);
        assert(after.connection_ids() =~= self.connection_ids().push(connection.id));
        lemma_push_keeps_unique(self.connection_ids(), connection.id);
        assert forall|i: int| 0 <= i < after.monitors.len() implies after.monitor_resolves(
            #[trigger] after.monitors[i],
        ) by {
            lemma_push_keeps_member(
                self.connection_ids(),
                connection.id,
                self.monitors[i].connection_id,
            );
        }
    }

    /// Inserting a category with a fresh identity keeps the invariant.
    pub proof fn lemma_with_category_wf(self, category: Category)
        requires
            self.wf(),
            self.check_category(category) is Ok,
        ensures
            self.with_category(category).wf(),
    {
        let after = self.with_category(category);
        assert(after.category_ids() =~= self.category_ids().push(category.id));
        lemma_push_keeps_unique(self.category_ids(), category.id);
        assert forall|i: int| 0 <= i < after.monitors.len() implies after.monitor_resolves(
            #[trigger] after.monitors[i],
        ) by {
            if let Some(c) = self.monitors[i].category_id {
                lemma_push_keeps_member(self.category_ids(), category.id, c);
            }
        }
    }

    /// Inserting a monitor with a fresh identity, whose connection exists
    /// and whose category, if it has one, exists, keeps the invariant.
    pub proof fn lemma_with_monitor_wf(self, monitor: Monitor)
        requires
            self.wf(),
            self.check_monitor(monitor) is Ok,
        ensures
            self.with_monitor(monitor).wf(),
    {
        let after = self.with_monitor(monitor);
        assert(after.monitor_ids() =~= self.monitor_ids().push(monitor.id));
        lemma_push_keeps_unique(self.monitor_ids(), monitor.id);
        assert forall|i: int| 0 <= i < after.measurements.len() implies after.measurement_resolves(
            #[trigger] after.measurements[i],
        ) by {
            lemma_push_keeps_member(
                self.monitor_ids(),
                monitor.id,
                self.measurements[i].monitor_id,
            );
        }
    }

    /// Appending a measurement with a fresh identity, whose monitor exists,
    /// keeps the invariant.
    pub proof fn lemma_with_measurement_wf(self, measurement: Measurement)
        requires
            self.wf(),
            self.check_measurement(measurement) is Ok,
        ensures
            self.with_measurement(measurement).wf(),
    {
        let after = self.with_measurement(measurement);
        assert(after.measurement_ids() =~= self.measurement_ids().push(measurement.id));
        lemma_push_keeps_unique(self.measurement_ids(), measurement.id);
    }

    /// Deleting a monitor keeps the invariant.
    pub proof fn lemma_without_monitor_wf(self, id: i64)
        requires
            self.wf(),
        ensures
            self.without_monitor(id).wf(),
    {
        let after = self.without_monitor(id);
        let keep_monitor = |m: Monitor| m.id != id;
        let keep_measurement = |x: Measurement| x.monitor_id != id;
        lemma_filter_keeps_unique(self.monitors, |m: Monitor| m.id, keep_monitor);
        lemma_filter_keeps_unique(self.measurements, |m: Measurement| m.id, keep_measurement);
        assert forall|k: int| 0 <= k < after.monitors.len() implies after.monitor_resolves(
            #[trigger] after.monitors[k],
        ) by {
            lemma_filter_origin(self.monitors, keep_monitor, k);
        }
        assert forall|k: int| 0 <= k < after.measurements.len() implies after.measurement_resolves(
            #[trigger] after.measurements[k],
        ) by {
            let i = lemma_filter_origin(self.measurements, keep_measurement, k);
            let x = self.measurements[i];
            let j = choose|j: int|
                0 <= j < self.monitor_ids().len() && self.monitor_ids()[j] == x.monitor_id;
            lemma_filter_keeps_member(self.monitors, |m: Monitor| m.id, keep_monitor, j);
        }
    }

    /// Deleting a category keeps the invariant.
    pub proof fn lemma_without_category_wf(self, id: i64)
        requires
            self.wf(),
        ensures
            self.without_category(id).wf(),
    {
        let after = self.without_category(id);
        let keep = |c: Category| c.id != id;
        lemma_filter_keeps_unique(self.categories, |c: Category| c.id, keep);
        assert(after.monitor_ids() =~= self.monitor_ids());
        assert forall|k: int| 0 <= k < after.monitors.len() implies after.monitor_resolves(
            #[trigger] after.monitors[k],
        ) by {
            if let Some(c) = after.monitors[k].category_id {
                let j = choose|j: int|
                    0 <= j < self.category_ids().len() && self.category_ids()[j] == c;
                lemma_filter_keeps_member(self.categories, |c: Category| c.id, keep, j);
            }
        }
    }

    /// Deleting a connection keeps the invariant.
    pub proof fn lemma_without_connection_wf(self, id: i64)
        requires
            self.wf(),
        ensures
            self.without_connection(id).wf(),
    {
        let after = self.without_connection(id);
        let keep_connection = |c: Connection| c.id != id;
        let keep_monitor = |m: Monitor| m.connection_id != id;
        let keep_measurement = |x: Measurement| !on_connection(self.monitors, x.monitor_id, id);
        lemma_filter_keeps_unique(self.connections, |c: Connection| c.id, keep_connection);
        lemma_filter_keeps_unique(self.monitors, |m: Monitor| m.id, keep_monitor);
        lemma_filter_keeps_unique(self.measurements, |m: Measurement| m.id, keep_measurement);
        assert forall|k: int| 0 <= k < after.monitors.len() implies after.monitor_resolves(
            #[trigger] after.monitors[k],
        ) by {
            let i = lemma_filter_origin(self.monitors, keep_monitor, k);
            let m = self.monitors[i];
            let j = choose|j: int|
                0 <= j < self.connection_ids().len() && self.connection_ids()[j] == m.connection_id;
            lemma_filter_keeps_member(self.connections, |c: Connection| c.id, keep_connection, j);
        }
        assert forall|k: int| 0 <= k < after.measurements.len() implies after.measurement_resolves(
            #[trigger] after.measurements[k],
        ) by {
            let i = lemma_filter_origin(self.measurements, keep_measurement, k);
            let x = self.measurements[i];
            let j = choose|j: int|
                0 <= j < self.monitor_ids().len() && self.monitor_ids()[j] == x.monitor_id;
            lemma_filter_keeps_member(self.monitors, |m: Monitor| m.id, keep_monitor, j);
        }
    }

    /// Deleting a monitor takes its measurements with it and touches
    /// nothing else: afterwards the monitor does not exist, no measurement
    /// names it, and every other monitor and measurement is still there.
    pub proof fn lemma_without_monitor_cascades(self, id: i64)
        ensures
            ({
                let after = self.without_monitor(id);
                &&& !after.has_monitor(id)
                &&& forall|k: int|
                    0 <= k < after.measurements.len() ==> (
                    #[trigger] after.measurements[k]).monitor_id != id
                &&& forall|i: int|
                    0 <= i < self.monitors.len() && (#[trigger] self.monitors[i]).id != id
                        ==> after.monitors.contains(self.monitors[i])
                &&& forall|i: int|
                    0 <= i < self.measurements.len() && (#[trigger] self.measurements[i]).monitor_id
                        != id ==> after.measurements.contains(self.measurements[i])
                &&& after.connections == self.connections
                &&& after.categories == self.categories
            }),
    {
        let after = self.without_monitor(id);
        let keep_monitor = |m: Monitor| m.id != id;
        let keep_measurement = |x: Measurement| x.monitor_id != id;
        if after.has_monitor(id) {
            let k = choose|k: int|
                0 <= k < after.monitor_ids().len() && after.monitor_ids()[k] == id;
            lemma_filter_origin(self.monitors, keep_monitor, k);
        }
        assert forall|k: int| 0 <= k < after.measurements.len() implies (
        #[trigger] after.measurements[k]).monitor_id != id by {
            lemma_filter_origin(self.measurements, keep_measurement, k);
        }
        assert forall|i: int|
            0 <= i < self.monitors.len() && (#[trigger] self.monitors[i]).id
                != id implies after.monitors.contains(self.monitors[i]) by {
            self.monitors.lemma_filter_contains(keep_monitor, i);
        }
        assert forall|i: int|
            0 <= i < self.measurements.len() && (#[trigger] self.measurements[i]).monitor_id
                != id implies after.measurements.contains(self.measurements[i]) by {
            self.measurements.lemma_filter_contains(keep_measurement, i);
        }
    }

    /// Deleting a category deletes no monitor: afterwards the category does
    /// not exist, each monitor that carried it carries none, and every
    /// monitor is otherwise as it was. Connections and measurements are
    /// untouched.
    pub proof fn lemma_without_category_nullifies(self, id: i64)
        ensures
            ({
                let after = self.without_category(id);
                &&& !after.has_category(id)
                &&& after.monitors.len() == self.monitors.len()
                &&& forall|k: int|
                    0 <= k < after.monitors.len() ==> {
                        let old = self.monitors[k];
                        let new = #[trigger] after.monitors[k];
                        &&& new.category_id != Some(id)
                        &&& new.category_id == if old.category_id == Some(id) {
                            None
                        } else {
                            old.category_id
                        }
                        &&& new == Monitor { category_id: new.category_id, ..old }
                    }
                &&& after.connections == self.connections
                &&& after.measurements == self.measurements
            }),
    {
        let after = self.without_category(id);
        let keep = |c: Category| c.id != id;
        if after.has_category(id) {
            let k = choose|k: int|
                0 <= k < after.category_ids().len() && after.category_ids()[k] == id;
            lemma_filter_origin(self.categories, keep, k);
        }
    }

    /// Deleting a connection takes its monitors and their measurements with
    /// it and touches nothing else: afterwards the connection does not
    /// exist, no monitor belongs to it, none of its monitors exists, and
    /// every monitor of another connection is still there, with its
    /// measurements. Categories are untouched.
    pub proof fn lemma_without_connection_cascades(self, id: i64)
        requires
            self.wf(),
        ensures
            ({
                let after = self.without_connection(id);
                &&& !after.has_connection(id)
                &&& forall|k: int|
                    0 <= k < after.monitors.len() ==> (#[trigger] after.monitors[k]).connection_id
                        != id
                &&& forall|i: int|
                    0 <= i < self.monitors.len() && (#[trigger] self.monitors[i]).connection_id
                        == id ==> !after.has_monitor(self.monitors[i].id)
                &&& forall|i: int|
                    0 <= i < self.monitors.len() && (#[trigger] self.monitors[i]).connection_id
                        != id ==> after.monitors.contains(self.monitors[i])
                &&& forall|i: int|
                    0 <= i < self.measurements.len() ==> (after.measurements.contains(
                        #[trigger] self.measurements[i],
                    ) <==> after.has_monitor(self.measurements[i].monitor_id))
                &&& after.categories == self.categories
            }),
    {
        let after = self.without_connection(id);
        let keep_connection = |c: Connection| c.id != id;
        let keep_monitor = |m: Monitor| m.connection_id != id;
        let keep_measurement = |x: Measurement| !on_connection(self.monitors, x.monitor_id, id);
        if after.has_connection(id) {
            let k = choose|k: int|
                0 <= k < after.connection_ids().len() && after.connection_ids()[k] == id;
            lemma_filter_origin(self.connections, keep_connection, k);
        }
        assert forall|k: int| 0 <= k < after.monitors.len() implies (
        #[trigger] after.monitors[k]).connection_id != id by {
            lemma_filter_origin(self.monitors, keep_monitor, k);
        }
        assert forall|i: int|
            0 <= i < self.monitors.len() && (#[trigger] self.monitors[i]).connection_id
                == id implies !after.has_monitor(self.monitors[i].id) by {
            if after.has_monitor(self.monitors[i].id) {
                let k = choose|k: int|
                    0 <= k < after.monitor_ids().len() && after.monitor_ids()[k]
                        == self.monitors[i].id;
                let j = lemma_filter_origin(self.monitors, keep_monitor, k);
                assert(self.monitor_ids()[j] == self.monitor_ids()[i]);
            }
        }
        assert forall|i: int|
            0 <= i < self.monitors.len() && (#[trigger] self.monitors[i]).connection_id
                != id implies after.monitors.contains(self.monitors[i]) by {
            self.monitors.lemma_filter_contains(keep_monitor, i);
        }
        assert forall|i: int| 0 <= i < self.measurements.len() implies (after.measurements.contains(
            #[trigger] self.measurements[i],
        ) <==> after.has_monitor(self.measurements[i].monitor_id)) by {
            let x = self.measurements[i];
            let j = choose|j: int|
                0 <= j < self.monitor_ids().len() && self.monitor_ids()[j] == x.monitor_id;
            if keep_measurement(x) {
                self.measurements.lemma_filter_contains(keep_measurement, i);
                lemma_filter_keeps_member(self.monitors, |m: Monitor| m.id, keep_monitor, j);
            } else {
                if after.measurements.contains(x) {
                    let k = choose|k: int|
                        0 <= k < after.measurements.len() && after.measurements[k] == x;
                    self.measurements.lemma_filter_pred(keep_measurement, k);
                }
                if after.has_monitor(x.monitor_id) {
                    let k = choose|k: int|
                        0 <= k < after.monitor_ids().len() && after.monitor_ids()[k]
                            == x.monitor_id;
                    lemma_filter_origin(self.monitors, keep_monitor, k);
                }
            }
        }
    }
}

/// Appending an identity that does not occur keeps identities unique.
proof fn lemma_push_keeps_unique(ids: Seq<i64>, id: i64)
    requires
        ids.no_duplicates(),
        !ids.contains(id),
    ensures
        ids.push(id).no_duplicates(),
{
}

/// Appending an identity keeps every identity that occurred.
proof fn lemma_push_keeps_member(ids: Seq<i64>, id: i64, x: i64)
    requires
        ids.contains(x),
    ensures
        ids.push(id).contains(x),
{
    let k = choose|k: int| 0 <= k < ids.len() && ids[k] == x;
    assert(ids.push(id)[k] == x);
}

/// Filtering keeps identities unique.
proof fn lemma_filter_keeps_unique<T>(s: Seq<T>, key: spec_fn(T) -> i64, pred: spec_fn(T) -> bool)
    requires
        s.map_values(key).no_duplicates(),
    ensures
        s.filter(pred).map_values(key).no_duplicates(),
    decreases s.len(),
{
    reveal(Seq::filter);
    if s.len() > 0 {
        let front = s.drop_last();
        assert forall|i: int, j: int|
            0 <= i < front.len() && 0 <= j < front.len() && i != j implies front.map_values(key)[i]
            != front.map_values(key)[j] by {
            assert(s.map_values(key)[i] != s.map_values(key)[j]);
        }
        lemma_filter_keeps_unique(front, key, pred);
        let kept = front.filter(pred);
        if pred(s.last()) {
            let all = kept.push(s.last());
            assert forall|i: int, j: int|
                0 <= i < all.len() && 0 <= j < all.len() && i != j implies all.map_values(key)[i]
                != all.map_values(key)[j] by {
                if i < kept.len() && j < kept.len() {
                    assert(kept.map_values(key)[i] != kept.map_values(key)[j]);
                } else {
                    let inner = if i < kept.len() {
                        i
                    } else {
                        j
                    };
                    front.lemma_filter_contains_rev(pred, kept[inner]);
                    let k = choose|k: int| 0 <= k < front.len() && front[k] == kept[inner];
                    assert(s.map_values(key)[k] != s.map_values(key)[s.len() - 1]);
                }
            }
        }
    }
}

/// An identity that passes the filter's test still occurs after filtering.
proof fn lemma_filter_keeps_member<T>(
    s: Seq<T>,
    key: spec_fn(T) -> i64,
    pred: spec_fn(T) -> bool,
    i: int,
)
    requires
        0 <= i < s.len(),
        pred(s[i]),
    ensures
        s.filter(pred).map_values(key).contains(key(s[i])),
{
    s.lemma_filter_contains(pred, i);
    let kept = s.filter(pred);
    let k = choose|k: int| 0 <= k < kept.len() && kept[k] == s[i];
    assert(kept.map_values(key)[k] == key(s[i]));
}

/// Every element after filtering is an element from before that passes the
/// filter's test.
proof fn lemma_filter_origin<T>(s: Seq<T>, pred: spec_fn(T) -> bool, k: int) -> (i: int)
    requires
        0 <= k < s.filter(pred).len(),
    ensures
        0 <= i < s.len(),
        s[i] == s.filter(pred)[k],
        pred(s[i]),
{
    let kept = s.filter(pred);
    s.lemma_filter_pred(pred, k);
    s.lemma_filter_contains_rev(pred, kept[k]);
    choose|i: int| 0 <= i < s.len() && s[i] == kept[k]
}

} // verus!
