//! In-memory store of QoS metrics, violations and discovery events, each
//! kept as the last JSON document seen under its key, in concurrent maps
//! hashed with `ahash`.

use vstd::prelude::*;

verus! {

#[verifier::external_type_specification]
#[verifier::external_body]
pub struct ExJsonValue(serde_json::Value);

#[verifier::external_type_specification]
#[verifier::external_body]
pub struct ExAhashState(ahash::RandomState);

/// A concurrent table of JSON documents by key.
pub type JsonTable = dashmap::DashMap<String, serde_json::Value, ahash::RandomState>;

/// The documents a table holds, by key.
pub uninterp spec fn documents(m: JsonTable) -> Map<Seq<char>, serde_json::Value>;

/// No document at all.
pub open spec fn no_documents() -> Map<Seq<char>, serde_json::Value> {
    Map::empty()
}

/// `r` lists the documents of `m`, one per key.
pub open spec fn lists_documents(r: Seq<serde_json::Value>, m: Map<Seq<char>, serde_json::Value>) -> bool {
    exists|keys: Seq<Seq<char>>| #[trigger] keys.len() == r.len() && {
        &&& forall|i: int| 0 <= i < keys.len() ==> m.dom().contains(#[trigger] keys[i]) && r[i] == m[keys[i]]
        &&& forall|i: int, j: int| 0 <= i < j < keys.len() ==> keys[i] != keys[j]
        &&& forall|k: Seq<char>| #[trigger] m.dom().contains(k) ==> keys.contains(k)
    }
}

/// An empty table (`DashMap::default`, with a fresh `ahash` state).
#[verifier::external_body]
fn table_new() -> (m: JsonTable)
    ensures
        documents(m) == no_documents(),
{
    dashmap::DashMap::default()
}

/// Stores `value` under `key`, replacing what was there (`insert`).
#[verifier::external_body]
fn table_insert(m: &mut JsonTable, key: String, value: serde_json::Value)
    ensures
        documents(*final(m)) == documents(*old(m)).insert(key@, value),
{
    m.insert(key, value);
}

/// A copy of every document held, once per key, in the table's own order
/// (`iter()` values cloned).
#[verifier::external_body]
fn table_values(m: &JsonTable) -> (r: Vec<serde_json::Value>)
    ensures
        lists_documents(r@, documents(*m)),
{
    m.iter().map(|e| e.value().clone()).collect()
}

/// Number of keys held (`len`).
#[verifier::external_body]
fn table_len(m: &JsonTable) -> (r: usize)
    ensures
        r == documents(*m).dom().len(),
{
    m.len()
}

/// Drops every key (`clear`).
#[verifier::external_body]
fn table_clear(m: &mut JsonTable)
    ensures
        documents(*final(m)) == no_documents(),
{
    m.clear();
}

/// Contents of a [`QosStore`].
pub struct StoreContents {
    pub metrics: Map<Seq<char>, serde_json::Value>,
    pub violations: Map<Seq<char>, serde_json::Value>,
    pub discoveries: Map<Seq<char>, serde_json::Value>,
}

/// In-memory store of QoS data.
pub struct QosStore {
    metrics: JsonTable,
    violations: JsonTable,
    discoveries: JsonTable,
}

impl View for QosStore {
    type V = StoreContents;

    closed spec fn view(&self) -> StoreContents {
        StoreContents {
            metrics: documents(self.metrics),
            violations: documents(self.violations),
            discoveries: documents(self.discoveries),
        }
    }
}

impl QosStore {
    /// An empty store.
    pub fn new() -> (r: Self)
        ensures
            r@.metrics == no_documents(),
            r@.violations == no_documents(),
            r@.discoveries == no_documents(),
    {
        QosStore { metrics: table_new(), violations: table_new(), discoveries: table_new() }
    }

    /// Stores a QoS metric under `key`.
    pub fn upsert_metric(&mut self, key: String, value: serde_json::Value)
        ensures
            final(self)@.metrics == old(self)@.metrics.insert(key@, value),
            final(self)@.violations == old(self)@.violations,
            final(self)@.discoveries == old(self)@.discoveries,
    {
        table_insert(&mut self.metrics, key, value);
    }

    /// Stores a QoS violation under `key`.
    pub fn upsert_violation(&mut self, key: String, value: serde_json::Value)
        ensures
            final(self)@.violations == old(self)@.violations.insert(key@, value),
            final(self)@.metrics == old(self)@.metrics,
            final(self)@.discoveries == old(self)@.discoveries,
    {
        table_insert(&mut self.violations, key, value);
    }

    /// Stores a discovery event under `key`.
    pub fn upsert_discovery(&mut self, key: String, value: serde_json::Value)
        ensures
            final(self)@.discoveries == old(self)@.discoveries.insert(key@, value),
            final(self)@.metrics == old(self)@.metrics,
            final(self)@.violations == old(self)@.violations,
    {
        table_insert(&mut self.discoveries, key, value);
    }

    /// Every metric held.
    pub fn all_metrics(&self) -> (r: Vec<serde_json::Value>)
        ensures
            lists_documents(r@, self@.metrics),
    {
        table_values(&self.metrics)
    }

    /// Every violation held.
    pub fn all_violations(&self) -> (r: Vec<serde_json::Value>)
        ensures
            lists_documents(r@, self@.violations),
    {
        table_values(&self.violations)
    }

    /// Every discovery event held.
    pub fn all_discoveries(&self) -> (r: Vec<serde_json::Value>)
        ensures
            lists_documents(r@, self@.discoveries),
    {
        table_values(&self.discoveries)
    }

    /// Number of metrics (distinct keys).
    pub fn metrics_count(&self) -> (r: usize)
        ensures
            r == self@.metrics.dom().len(),
    {
        table_len(&self.metrics)
    }

    /// Number of violations (distinct keys).
    pub fn violations_count(&self) -> (r: usize)
        ensures
            r == self@.violations.dom().len(),
    {
        table_len(&self.violations)
    }

    /// Number of discovery events (distinct keys).
    pub fn discoveries_count(&self) -> (r: usize)
        ensures
            r == self@.discoveries.dom().len(),
    {
        table_len(&self.discoveries)
    }

    /// Drops everything.
    pub fn clear(&mut self)
        ensures
            final(self)@.metrics == no_documents(),
            final(self)@.violations == no_documents(),
            final(self)@.discoveries == no_documents(),
    {
        table_clear(&mut self.metrics);
        table_clear(&mut self.violations);
        table_clear(&mut self.discoveries);
    }
}

/// Statistics of the QoS collector.
#[derive(Debug, Clone, Copy, PartialEq, Eq, Structural)]
pub struct CollectorStats {
    pub total_metrics: u64,
    pub total_violations: u64,
    pub total_discoveries: u64,
}

impl CollectorStats {
    /// The counts of what `store` holds.
    pub fn of(store: &QosStore) -> (r: Self)
        ensures
            r.total_metrics == store@.metrics.dom().len(),
            r.total_violations == store@.violations.dom().len(),
            r.total_discoveries == store@.discoveries.dom().len(),
    {
        CollectorStats {
            total_metrics: store.metrics_count() as u64,
            total_violations: store.violations_count() as u64,
            total_discoveries: store.discoveries_count() as u64,
        }
    }
}

impl Default for CollectorStats {
    fn default() -> (r: Self)
        ensures
            r.total_metrics == 0,
            r.total_violations == 0,
            r.total_discoveries == 0,
    {
        CollectorStats { total_metrics: 0, total_violations: 0, total_discoveries: 0 }
    }
}

} // verus!
