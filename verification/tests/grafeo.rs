//! Projections of a graph store and the planning of searching filters.

use std::sync::Arc;

use arcstr::ArcStr;
use grafeo::graph::{
    CompareOp, Direction, Edge, GraphProjection, GraphStore, GraphStoreSearch, Node, ProjectionSpec,
};
use grafeo::planner::hybrid::hybrid_layout;
use grafeo::planner::{
    BinaryOp, ExtractedVectorPredicate, FilterOp, LogicalExpression, LogicalOperator, NodeScanOp,
    PhysicalJoinType, PhysicalOperator, Planner, ProjectExpr, QueryEngine, TextScanOp, Threshold,
    VectorMetric, VectorScanOp,
};
use grafeo::types::{
    EdgeId, EpochId, FloatBits, NodeId, PropertyKey, PropertyMap, TransactionId, Value,
};

// ---------------------------------------------------------------------------
// A store for the tests
// ---------------------------------------------------------------------------

/// An in-memory property graph.
#[derive(Default)]
struct LpgStore {
    nodes: Vec<(Vec<String>, Vec<(String, Value)>)>,
    edges: Vec<(NodeId, NodeId, String, Vec<(String, Value)>)>,
    text_indexes: Vec<(String, String)>,
    vector_indexes: Vec<(String, String)>,
}

fn to_map(entries: &[(String, Value)]) -> PropertyMap {
    let mut map = PropertyMap::new();
    for (key, value) in entries {
        map.insert(PropertyKey::new(key), value.clone());
    }
    map
}

fn find_value(entries: &[(String, Value)], key: &str) -> Option<Value> {
    entries.iter().find(|(k, _)| k == key).map(|(_, v)| v.clone())
}

fn chosen(entries: &[(String, Value)], keys: &[PropertyKey]) -> PropertyMap {
    let kept: Vec<(String, Value)> =
        entries.iter().filter(|(k, _)| keys.iter().any(|key| &key.name == k)).cloned().collect();
    to_map(&kept)
}

impl LpgStore {
    fn new() -> Self {
        Self::default()
    }

    fn create_node(&mut self, labels: &[&str]) -> NodeId {
        self.nodes.push((labels.iter().map(|l| l.to_string()).collect(), Vec::new()));
        NodeId(self.nodes.len() as u64 - 1)
    }

    fn create_edge(&mut self, src: NodeId, dst: NodeId, edge_type: &str) -> EdgeId {
        self.edges.push((src, dst, edge_type.to_string(), Vec::new()));
        EdgeId(self.edges.len() as u64 - 1)
    }

    fn set_node_property(&mut self, id: NodeId, key: &str, value: Value) {
        self.nodes[id.0 as usize].1.push((key.to_string(), value));
    }

    fn set_edge_property(&mut self, id: EdgeId, key: &str, value: Value) {
        self.edges[id.0 as usize].3.push((key.to_string(), value));
    }

    fn node(&self, id: NodeId) -> Option<&(Vec<String>, Vec<(String, Value)>)> {
        self.nodes.get(id.0 as usize)
    }

    fn edge(&self, id: EdgeId) -> Option<&(NodeId, NodeId, String, Vec<(String, Value)>)> {
        self.edges.get(id.0 as usize)
    }

    fn ids_where(&self, keep: impl Fn(&(Vec<String>, Vec<(String, Value)>)) -> bool) -> Vec<NodeId> {
        (0..self.nodes.len()).filter(|i| keep(&self.nodes[*i])).map(|i| NodeId(i as u64)).collect()
    }
}

impl GraphStore for LpgStore {
    type Statistics = u32;

    fn get_node(&self, id: NodeId) -> Option<Node> {
        self.node(id).map(|(labels, properties)| Node {
            id,
            labels: labels.iter().map(|l| ArcStr::from(l.as_str())).collect(),
            properties: to_map(properties),
        })
    }

    fn get_edge(&self, id: EdgeId) -> Option<Edge> {
        self.edge(id).map(|(src, dst, edge_type, properties)| Edge {
            id,
            src: *src,
            dst: *dst,
            edge_type: ArcStr::from(edge_type.as_str()),
            properties: to_map(properties),
        })
    }

    fn get_node_versioned(&self, id: NodeId, _: EpochId, _: TransactionId) -> Option<Node> {
        self.get_node(id)
    }

    fn get_edge_versioned(&self, id: EdgeId, _: EpochId, _: TransactionId) -> Option<Edge> {
        self.get_edge(id)
    }

    fn get_node_at_epoch(&self, id: NodeId, _: EpochId) -> Option<Node> {
        self.get_node(id)
    }

    fn get_edge_at_epoch(&self, id: EdgeId, _: EpochId) -> Option<Edge> {
        self.get_edge(id)
    }

    fn get_node_property(&self, id: NodeId, key: &PropertyKey) -> Option<Value> {
        self.node(id).and_then(|n| find_value(&n.1, &key.name))
    }

    fn get_edge_property(&self, id: EdgeId, key: &PropertyKey) -> Option<Value> {
        self.edge(id).and_then(|e| find_value(&e.3, &key.name))
    }

    fn get_node_property_batch(&self, ids: &[NodeId], key: &PropertyKey) -> Vec<Option<Value>> {
        ids.iter().map(|id| self.get_node_property(*id, key)).collect()
    }

    fn get_nodes_properties_batch(&self, ids: &[NodeId]) -> Vec<PropertyMap> {
        ids.iter().map(|id| self.node(*id).map_or_else(PropertyMap::new, |n| to_map(&n.1))).collect()
    }

    fn get_nodes_properties_selective_batch(
        &self,
        ids: &[NodeId],
        keys: &[PropertyKey],
    ) -> Vec<PropertyMap> {
        ids.iter()
            .map(|id| self.node(*id).map_or_else(PropertyMap::new, |n| chosen(&n.1, keys)))
            .collect()
    }

    fn get_edges_properties_selective_batch(
        &self,
        ids: &[EdgeId],
        keys: &[PropertyKey],
    ) -> Vec<PropertyMap> {
        ids.iter()
            .map(|id| self.edge(*id).map_or_else(PropertyMap::new, |e| chosen(&e.3, keys)))
            .collect()
    }

    fn neighbors(&self, node: NodeId, direction: Direction) -> Vec<NodeId> {
        self.edges_from(node, direction).into_iter().map(|(n, _)| n).collect()
    }

    fn edges_from(&self, node: NodeId, direction: Direction) -> Vec<(NodeId, EdgeId)> {
        let mut steps = Vec::new();
        for (i, (src, dst, _, _)) in self.edges.iter().enumerate() {
            if *src == node && direction != Direction::Incoming {
                steps.push((*dst, EdgeId(i as u64)));
            }
            if *dst == node && direction != Direction::Outgoing {
                steps.push((*src, EdgeId(i as u64)));
            }
        }
        steps
    }

    fn out_degree(&self, node: NodeId) -> usize {
        self.edges_from(node, Direction::Outgoing).len()
    }

    fn in_degree(&self, node: NodeId) -> usize {
        self.edges_from(node, Direction::Incoming).len()
    }

    fn has_backward_adjacency(&self) -> bool {
        true
    }

    fn node_ids(&self) -> Vec<NodeId> {
        self.ids_where(|_| true)
    }

    fn all_node_ids(&self) -> Vec<NodeId> {
        self.ids_where(|_| true)
    }

    fn nodes_by_label(&self, label: &str) -> Vec<NodeId> {
        self.ids_where(|n| n.0.iter().any(|l| l == label))
    }

    fn nodes_by_label_count(&self, label: &str) -> usize {
        self.nodes_by_label(label).len()
    }

    fn node_count(&self) -> usize {
        self.nodes.len()
    }

    fn edge_count(&self) -> usize {
        self.edges.len()
    }

    fn edge_type(&self, id: EdgeId) -> Option<ArcStr> {
        self.edge(id).map(|e| ArcStr::from(e.2.as_str()))
    }

    fn edge_type_versioned(&self, id: EdgeId, _: EpochId, _: TransactionId) -> Option<ArcStr> {
        self.edge_type(id)
    }

    fn has_property_index(&self, _: &str) -> bool {
        false
    }

    fn find_nodes_by_property(&self, property: &str, value: &Value) -> Vec<NodeId> {
        self.ids_where(|n| find_value(&n.1, property).as_ref() == Some(value))
    }

    fn find_nodes_by_properties(&self, conditions: &[(&str, Value)]) -> Vec<NodeId> {
        self.ids_where(|n| {
            conditions.iter().all(|(p, v)| find_value(&n.1, p).as_ref() == Some(v))
        })
    }

    fn find_nodes_in_range(
        &self,
        property: &str,
        min: Option<&Value>,
        max: Option<&Value>,
        min_inclusive: bool,
        max_inclusive: bool,
    ) -> Vec<NodeId> {
        self.ids_where(|n| match find_value(&n.1, property) {
            Some(Value::Int64(x)) => {
                let above = match min {
                    Some(Value::Int64(m)) => x > *m || (min_inclusive && x == *m),
                    _ => true,
                };
                let below = match max {
                    Some(Value::Int64(m)) => x < *m || (max_inclusive && x == *m),
                    _ => true,
                };
                above && below
            }
            _ => false,
        })
    }

    fn node_property_might_match(&self, property: &PropertyKey, op: CompareOp, value: &Value) -> bool {
        op != CompareOp::Eq || !self.find_nodes_by_property(&property.name, value).is_empty()
    }

    fn edge_property_might_match(&self, property: &PropertyKey, op: CompareOp, value: &Value) -> bool {
        op != CompareOp::Eq
            || self.edges.iter().any(|e| find_value(&e.3, &property.name).as_ref() == Some(value))
    }

    fn statistics(&self) -> Arc<u32> {
        Arc::new(self.nodes.len() as u32)
    }

    fn estimate_label_cardinality(&self, label: &str) -> FloatBits {
        FloatBits((self.nodes_by_label(label).len() as f64).to_bits())
    }

    fn estimate_avg_degree(&self, edge_type: &str, _: bool) -> FloatBits {
        let count = self.edges.iter().filter(|e| e.2 == edge_type).count();
        FloatBits((count as f64 / self.nodes.len() as f64).to_bits())
    }

    fn current_epoch(&self) -> EpochId {
        EpochId(7)
    }

    fn all_labels(&self) -> Vec<String> {
        let mut labels: Vec<String> = self.nodes.iter().flat_map(|n| n.0.clone()).collect();
        labels.sort();
        labels.dedup();
        labels
    }

    fn all_edge_types(&self) -> Vec<String> {
        let mut types: Vec<String> = self.edges.iter().map(|e| e.2.clone()).collect();
        types.sort();
        types.dedup();
        types
    }

    fn all_property_keys(&self) -> Vec<String> {
        let mut keys: Vec<String> =
            self.nodes.iter().flat_map(|n| n.1.iter().map(|(k, _)| k.clone())).collect();
        keys.extend(self.edges.iter().flat_map(|e| e.3.iter().map(|(k, _)| k.clone())));
        keys.sort();
        keys.dedup();
        keys
    }
}

impl GraphStoreSearch for LpgStore {
    fn has_text_index(&self, label: &str, property: &str) -> bool {
        self.text_indexes.iter().any(|(l, p)| l == label && p == property)
    }

    fn has_vector_index(&self, label: &str, property: &str) -> bool {
        self.vector_indexes.iter().any(|(l, p)| l == label && p == property)
    }
}

fn string(s: &str) -> Value {
    Value::String(s.to_string())
}

fn float(x: f64) -> Value {
    Value::Float64(FloatBits(x.to_bits()))
}

// ---------------------------------------------------------------------------
// Projections
// ---------------------------------------------------------------------------

fn setup_social_graph() -> Arc<LpgStore> {
    let mut store = LpgStore::new();
    let alix = store.create_node(&["Person"]);
    let gus = store.create_node(&["Person"]);
    let amsterdam = store.create_node(&["City"]);
    let grafeo = store.create_node(&["Software"]);

    store.set_node_property(alix, "name", string("Alix"));
    store.set_node_property(gus, "name", string("Gus"));
    store.set_node_property(amsterdam, "name", string("Amsterdam"));
    store.set_node_property(grafeo, "name", string("Grafeo"));

    store.create_edge(alix, gus, "KNOWS");
    store.create_edge(alix, amsterdam, "LIVES_IN");
    store.create_edge(gus, amsterdam, "LIVES_IN");
    store.create_edge(alix, grafeo, "CONTRIBUTES_TO");

    Arc::new(store)
}

#[test]
fn unfiltered_projection_sees_everything() {
    let store = setup_social_graph();
    let proj = GraphProjection::new(store.clone(), ProjectionSpec::new());
    assert_eq!(proj.node_count(), store.node_count());
    assert_eq!(proj.edge_count(), store.edge_count());
}

#[test]
fn filter_by_label() {
    let store = setup_social_graph();
    let spec = ProjectionSpec::new().with_node_labels(&["Person"]);
    let proj = GraphProjection::new(store, spec);

    assert_eq!(proj.node_count(), 2);
    assert_eq!(proj.nodes_by_label("Person").len(), 2);
    assert!(proj.nodes_by_label("City").is_empty());
    assert!(proj.nodes_by_label("Software").is_empty());
}

#[test]
fn filter_by_edge_type() {
    let store = setup_social_graph();
    let spec = ProjectionSpec::new().with_edge_types(&["KNOWS"]);
    let proj = GraphProjection::new(store, spec);

    // All nodes visible (no label filter), but only KNOWS edges
    assert_eq!(proj.node_count(), 4);
    assert_eq!(proj.edge_count(), 1);
}

#[test]
fn combined_label_and_edge_filter() {
    let store = setup_social_graph();
    let spec = ProjectionSpec::new()
        .with_node_labels(&["Person", "City"])
        .with_edge_types(&["LIVES_IN"]);
    let proj = GraphProjection::new(store, spec);

    assert_eq!(proj.node_count(), 3); // 2 Person + 1 City
    assert_eq!(proj.edge_count(), 2); // 2 LIVES_IN edges
}

#[test]
fn edge_excluded_when_endpoint_excluded() {
    let store = setup_social_graph();
    // Only Person nodes, but LIVES_IN edge type
    // LIVES_IN goes Person -> City, but City is excluded
    let spec = ProjectionSpec::new()
        .with_node_labels(&["Person"])
        .with_edge_types(&["LIVES_IN"]);
    let proj = GraphProjection::new(store, spec);

    assert_eq!(proj.node_count(), 2);
    // LIVES_IN edges should be excluded because City endpoints are filtered out
    assert_eq!(proj.edge_count(), 0);
}

#[test]
fn get_node_filtered() {
    let store = setup_social_graph();
    let all_ids = store.node_ids();
    let spec = ProjectionSpec::new().with_node_labels(&["Person"]);
    let proj = GraphProjection::new(store.clone(), spec);

    // Person nodes visible
    assert!(proj.get_node(all_ids[0]).is_some()); // Alix (Person)
    assert!(proj.get_node(all_ids[1]).is_some()); // Gus (Person)
    // City and Software nodes hidden
    assert!(proj.get_node(all_ids[2]).is_none()); // Amsterdam (City)
    assert!(proj.get_node(all_ids[3]).is_none()); // Grafeo (Software)
}

#[test]
fn neighbors_filtered() {
    let store = setup_social_graph();
    let alix_id = store.node_ids()[0];

    // Without projection: Alix has 3 outgoing neighbors (Gus, Amsterdam, Grafeo)
    let all_neighbors: Vec<_> = store.neighbors(alix_id, Direction::Outgoing);
    assert_eq!(all_neighbors.len(), 3);

    // With Person-only projection: Alix -> Gus only
    let spec = ProjectionSpec::new().with_node_labels(&["Person"]);
    let proj = GraphProjection::new(store, spec);
    let neighbors = proj.neighbors(alix_id, Direction::Outgoing);
    assert_eq!(neighbors.len(), 1);
}

#[test]
fn neighbors_filtered_by_edge_type() {
    let store = setup_social_graph();
    let alix_id = store.node_ids()[0];

    // With edge-type filter: only KNOWS edges visible
    // Alix KNOWS Gus, but LIVES_IN Amsterdam and CONTRIBUTES_TO Grafeo are excluded
    let spec = ProjectionSpec::new().with_edge_types(&["KNOWS"]);
    let proj = GraphProjection::new(store, spec);
    let neighbors = proj.neighbors(alix_id, Direction::Outgoing);
    assert_eq!(neighbors.len(), 1);
}

#[test]
fn property_access_respects_filter() {
    let store = setup_social_graph();
    let city_id = store.node_ids()[2]; // Amsterdam
    let spec = ProjectionSpec::new().with_node_labels(&["Person"]);
    let proj = GraphProjection::new(store, spec);

    // City node properties are inaccessible
    assert!(
        proj.get_node_property(city_id, &PropertyKey::new("name"))
            .is_none()
    );
}

#[test]
fn cardinality_estimation_respects_filter() {
    let store = setup_social_graph();
    let spec = ProjectionSpec::new()
        .with_node_labels(&["Person"])
        .with_edge_types(&["KNOWS"]);
    let proj = GraphProjection::new(store, spec);

    assert_eq!(f64::from_bits(proj.estimate_label_cardinality("City").0), 0.0);
    assert_eq!(f64::from_bits(proj.estimate_avg_degree("LIVES_IN", true).0), 0.0);
}

#[test]
fn schema_introspection_reflects_filter() {
    let store = setup_social_graph();
    let spec = ProjectionSpec::new()
        .with_node_labels(&["Person"])
        .with_edge_types(&["KNOWS"]);
    let proj = GraphProjection::new(store, spec);

    let labels = proj.all_labels();
    assert_eq!(labels.len(), 1);
    assert!(labels.contains(&"Person".to_string()));

    let edge_types = proj.all_edge_types();
    assert_eq!(edge_types.len(), 1);
    assert!(edge_types.contains(&"KNOWS".to_string()));
}

/// Helper: returns (node_ids, edge_ids) from the social graph.
fn setup_social_graph_with_ids() -> (Arc<LpgStore>, Vec<NodeId>, Vec<EdgeId>) {
    let mut store = LpgStore::new();
    let alix = store.create_node(&["Person"]);
    let gus = store.create_node(&["Person"]);
    let amsterdam = store.create_node(&["City"]);
    let grafeo = store.create_node(&["Software"]);

    store.set_node_property(alix, "name", string("Alix"));
    store.set_node_property(gus, "name", string("Gus"));
    store.set_node_property(amsterdam, "name", string("Amsterdam"));
    store.set_node_property(grafeo, "name", string("Grafeo"));
    store.set_node_property(alix, "age", Value::Int64(30));
    store.set_node_property(gus, "age", Value::Int64(25));

    let e_knows = store.create_edge(alix, gus, "KNOWS");
    let e_alix_lives = store.create_edge(alix, amsterdam, "LIVES_IN");
    let e_gus_lives = store.create_edge(gus, amsterdam, "LIVES_IN");
    let e_contrib = store.create_edge(alix, grafeo, "CONTRIBUTES_TO");

    store.set_edge_property(e_knows, "since", Value::Int64(2020));
    store.set_edge_property(e_alix_lives, "since", Value::Int64(2018));

    let nodes = vec![alix, gus, amsterdam, grafeo];
    let edges = vec![e_knows, e_alix_lives, e_gus_lives, e_contrib];
    (Arc::new(store), nodes, edges)
}

// 1. get_edge with edge that passes/fails type filter

#[test]
fn get_edge_passes_type_filter() {
    let (store, _, edges) = setup_social_graph_with_ids();
    let spec = ProjectionSpec::new().with_edge_types(&["KNOWS"]);
    let proj = GraphProjection::new(store, spec);

    // KNOWS edge passes filter
    assert!(proj.get_edge(edges[0]).is_some());
    // LIVES_IN edge does not pass filter
    assert!(proj.get_edge(edges[1]).is_none());
    // CONTRIBUTES_TO edge does not pass filter
    assert!(proj.get_edge(edges[3]).is_none());
}

#[test]
fn get_edge_excluded_by_endpoint_label_filter() {
    let (store, _, edges) = setup_social_graph_with_ids();
    // Only Person nodes, LIVES_IN goes Person->City, so excluded
    let spec = ProjectionSpec::new()
        .with_node_labels(&["Person"])
        .with_edge_types(&["LIVES_IN"]);
    let proj = GraphProjection::new(store, spec);

    assert!(proj.get_edge(edges[1]).is_none()); // Alix->Amsterdam
    assert!(proj.get_edge(edges[2]).is_none()); // Gus->Amsterdam
}

// 2. get_node_versioned and get_edge_versioned

#[test]
fn get_node_versioned_respects_filter() {
    let (store, nodes, _) = setup_social_graph_with_ids();
    let spec = ProjectionSpec::new().with_node_labels(&["Person"]);
    let proj = GraphProjection::new(store, spec);

    let epoch = EpochId(0);
    let txn = TransactionId(0);

    // Person node visible
    assert!(proj.get_node_versioned(nodes[0], epoch, txn).is_some());
    // City node filtered out
    assert!(proj.get_node_versioned(nodes[2], epoch, txn).is_none());
}

#[test]
fn get_edge_versioned_respects_filter() {
    let (store, _, edges) = setup_social_graph_with_ids();
    let spec = ProjectionSpec::new().with_edge_types(&["KNOWS"]);
    let proj = GraphProjection::new(store, spec);

    let epoch = EpochId(0);
    let txn = TransactionId(0);

    // KNOWS edge visible
    assert!(proj.get_edge_versioned(edges[0], epoch, txn).is_some());
    // LIVES_IN edge filtered out
    assert!(proj.get_edge_versioned(edges[1], epoch, txn).is_none());
}

// 3. get_node_at_epoch and get_edge_at_epoch

#[test]
fn get_node_at_epoch_respects_filter() {
    let (store, nodes, _) = setup_social_graph_with_ids();
    let spec = ProjectionSpec::new().with_node_labels(&["City"]);
    let proj = GraphProjection::new(store, spec);

    let epoch = EpochId(0);

    // Amsterdam (City) visible
    assert!(proj.get_node_at_epoch(nodes[2], epoch).is_some());
    // Alix (Person) filtered out
    assert!(proj.get_node_at_epoch(nodes[0], epoch).is_none());
}

#[test]
fn get_edge_at_epoch_respects_filter() {
    let (store, _, edges) = setup_social_graph_with_ids();
    let spec = ProjectionSpec::new().with_edge_types(&["LIVES_IN"]);
    let proj = GraphProjection::new(store, spec);

    let epoch = EpochId(0);

    // LIVES_IN edge visible
    assert!(proj.get_edge_at_epoch(edges[1], epoch).is_some());
    // KNOWS edge filtered out
    assert!(proj.get_edge_at_epoch(edges[0], epoch).is_none());
}

// 4. get_edge_property for edges in/out of projection

#[test]
fn get_edge_property_in_projection() {
    let (store, _, edges) = setup_social_graph_with_ids();
    let spec = ProjectionSpec::new().with_edge_types(&["KNOWS"]);
    let proj = GraphProjection::new(store, spec);

    let key = PropertyKey::new("since");
    // KNOWS edge has "since" property and passes filter
    assert_eq!(
        proj.get_edge_property(edges[0], &key),
        Some(Value::Int64(2020))
    );
}

#[test]
fn get_edge_property_outside_projection() {
    let (store, _, edges) = setup_social_graph_with_ids();
    let spec = ProjectionSpec::new().with_edge_types(&["KNOWS"]);
    let proj = GraphProjection::new(store, spec);

    let key = PropertyKey::new("since");
    // LIVES_IN edge has "since" but is filtered out
    assert!(proj.get_edge_property(edges[1], &key).is_none());
}

// 5. get_node_property_batch for mixed in/out of projection nodes

#[test]
fn get_node_property_batch_mixed() {
    let (store, nodes, _) = setup_social_graph_with_ids();
    let spec = ProjectionSpec::new().with_node_labels(&["Person"]);
    let proj = GraphProjection::new(store, spec);

    let key = PropertyKey::new("name");
    // Alix (Person), Amsterdam (City), Gus (Person)
    let ids = vec![nodes[0], nodes[2], nodes[1]];
    let results = proj.get_node_property_batch(&ids, &key);

    assert_eq!(results.len(), 3);
    assert_eq!(results[0], Some(string("Alix"))); // Person: visible
    assert_eq!(results[1], None); // City: filtered out
    assert_eq!(results[2], Some(string("Gus"))); // Person: visible
}

// 6. get_nodes_properties_batch and selective batch

#[test]
fn get_nodes_properties_batch_filters() {
    let (store, nodes, _) = setup_social_graph_with_ids();
    let spec = ProjectionSpec::new().with_node_labels(&["Person"]);
    let proj = GraphProjection::new(store, spec);

    let ids = vec![nodes[0], nodes[2]]; // Alix (Person), Amsterdam (City)
    let results = proj.get_nodes_properties_batch(&ids);

    assert_eq!(results.len(), 2);
    // Alix has properties
    assert!(results[0].contains_key(&PropertyKey::new("name")));
    // Amsterdam filtered out, empty map
    assert!(results[1].is_empty());
}

#[test]
fn get_nodes_properties_selective_batch_filters() {
    let (store, nodes, _) = setup_social_graph_with_ids();
    let spec = ProjectionSpec::new().with_node_labels(&["Person"]);
    let proj = GraphProjection::new(store, spec);

    let ids = vec![nodes[0], nodes[2]]; // Alix (Person), Amsterdam (City)
    let keys = vec![PropertyKey::new("name")];
    let results = proj.get_nodes_properties_selective_batch(&ids, &keys);

    assert_eq!(results.len(), 2);
    assert_eq!(
        results[0].get(&PropertyKey::new("name")),
        Some(&string("Alix"))
    );
    assert!(results[1].is_empty());
}

// 7. get_edges_properties_selective_batch

#[test]
fn get_edges_properties_selective_batch_filters() {
    let (store, _, edges) = setup_social_graph_with_ids();
    let spec = ProjectionSpec::new().with_edge_types(&["KNOWS"]);
    let proj = GraphProjection::new(store, spec);

    let ids = vec![edges[0], edges[1]]; // KNOWS, LIVES_IN
    let keys = vec![PropertyKey::new("since")];
    let results = proj.get_edges_properties_selective_batch(&ids, &keys);

    assert_eq!(results.len(), 2);
    // KNOWS edge has "since" and passes filter
    assert_eq!(
        results[0].get(&PropertyKey::new("since")),
        Some(&Value::Int64(2020))
    );
    // LIVES_IN edge filtered out
    assert!(results[1].is_empty());
}

// 8. edges_from with edge type filter

#[test]
fn edges_from_with_edge_type_filter() {
    let (store, nodes, _) = setup_social_graph_with_ids();
    let spec = ProjectionSpec::new().with_edge_types(&["LIVES_IN"]);
    let proj = GraphProjection::new(store, spec);

    // Alix has outgoing KNOWS, LIVES_IN, CONTRIBUTES_TO
    // Only LIVES_IN should be visible
    let alix_edges = proj.edges_from(nodes[0], Direction::Outgoing);
    assert_eq!(alix_edges.len(), 1);
    assert_eq!(alix_edges[0].0, nodes[2]); // target is Amsterdam
}

#[test]
fn edges_from_filtered_node_returns_empty() {
    let (store, nodes, _) = setup_social_graph_with_ids();
    let spec = ProjectionSpec::new().with_node_labels(&["Person"]);
    let proj = GraphProjection::new(store, spec);

    // Amsterdam (City) is filtered out, so edges_from returns empty
    let amsterdam_edges = proj.edges_from(nodes[2], Direction::Outgoing);
    assert!(amsterdam_edges.is_empty());
}

// 9. out_degree and in_degree with filtered projection

#[test]
fn out_degree_with_filter() {
    let (store, nodes, _) = setup_social_graph_with_ids();
    let spec = ProjectionSpec::new()
        .with_node_labels(&["Person", "City"])
        .with_edge_types(&["LIVES_IN"]);
    let proj = GraphProjection::new(store, spec);

    // Alix has 1 outgoing LIVES_IN to Amsterdam
    assert_eq!(proj.out_degree(nodes[0]), 1);
    // Gus has 1 outgoing LIVES_IN to Amsterdam
    assert_eq!(proj.out_degree(nodes[1]), 1);
    // Amsterdam has no outgoing LIVES_IN
    assert_eq!(proj.out_degree(nodes[2]), 0);
}

#[test]
fn in_degree_with_filter() {
    let (store, nodes, _) = setup_social_graph_with_ids();
    let spec = ProjectionSpec::new()
        .with_node_labels(&["Person", "City"])
        .with_edge_types(&["LIVES_IN"]);
    let proj = GraphProjection::new(store, spec);

    // Amsterdam has 2 incoming LIVES_IN edges
    assert_eq!(proj.in_degree(nodes[2]), 2);
    // Alix has 0 incoming LIVES_IN
    assert_eq!(proj.in_degree(nodes[0]), 0);
}

// 10. all_node_ids

#[test]
fn all_node_ids_with_label_filter() {
    let (store, nodes, _) = setup_social_graph_with_ids();
    let spec = ProjectionSpec::new().with_node_labels(&["Person"]);
    let proj = GraphProjection::new(store, spec);

    let ids = proj.all_node_ids();
    assert_eq!(ids.len(), 2);
    assert!(ids.contains(&nodes[0])); // Alix
    assert!(ids.contains(&nodes[1])); // Gus
    assert!(!ids.contains(&nodes[2])); // Amsterdam excluded
}

#[test]
fn all_node_ids_unfiltered() {
    let (store, _, _) = setup_social_graph_with_ids();
    let spec = ProjectionSpec::new();
    let proj = GraphProjection::new(store.clone(), spec);

    assert_eq!(proj.all_node_ids().len(), store.all_node_ids().len());
}

// 11. node_count and edge_count with various filters

#[test]
fn node_count_with_city_filter() {
    let (store, _, _) = setup_social_graph_with_ids();
    let spec = ProjectionSpec::new().with_node_labels(&["City"]);
    let proj = GraphProjection::new(store, spec);

    assert_eq!(proj.node_count(), 1);
}

#[test]
fn edge_count_with_combined_filter() {
    let (store, _, _) = setup_social_graph_with_ids();
    let spec = ProjectionSpec::new()
        .with_node_labels(&["Person"])
        .with_edge_types(&["KNOWS"]);
    let proj = GraphProjection::new(store, spec);

    // Only KNOWS between Person nodes: Alix->Gus
    assert_eq!(proj.edge_count(), 1);
}

#[test]
fn edge_count_unfiltered_delegates() {
    let (store, _, _) = setup_social_graph_with_ids();
    let spec = ProjectionSpec::new();
    let proj = GraphProjection::new(store.clone(), spec);

    assert_eq!(proj.edge_count(), store.edge_count());
}

// 12. find_nodes_by_property with label filter

#[test]
fn find_nodes_by_property_with_label_filter() {
    let (store, nodes, _) = setup_social_graph_with_ids();
    let spec = ProjectionSpec::new().with_node_labels(&["Person"]);
    let proj = GraphProjection::new(store, spec);

    // "name" = "Alix" exists on a Person node
    let found = proj.find_nodes_by_property("name", &string("Alix"));
    assert_eq!(found.len(), 1);
    assert_eq!(found[0], nodes[0]);

    // "name" = "Amsterdam" exists but on a City node, which is filtered
    let found = proj.find_nodes_by_property("name", &string("Amsterdam"));
    assert!(found.is_empty());
}

// 13. find_nodes_by_properties with label filter

#[test]
fn find_nodes_by_properties_with_label_filter() {
    let (store, nodes, _) = setup_social_graph_with_ids();
    let spec = ProjectionSpec::new().with_node_labels(&["Person"]);
    let proj = GraphProjection::new(store, spec);

    let conditions = vec![("name", string("Gus"))];
    let found = proj.find_nodes_by_properties(&conditions);
    assert_eq!(found.len(), 1);
    assert_eq!(found[0], nodes[1]);

    // Search for city name, filtered out
    let conditions = vec![("name", string("Amsterdam"))];
    let found = proj.find_nodes_by_properties(&conditions);
    assert!(found.is_empty());
}

// 14. find_nodes_in_range with label filter

#[test]
fn find_nodes_in_range_with_label_filter() {
    let (store, nodes, _) = setup_social_graph_with_ids();
    let spec = ProjectionSpec::new().with_node_labels(&["Person"]);
    let proj = GraphProjection::new(store, spec);

    // Age range 20..=30 should find both Alix (30) and Gus (25)
    let min = Value::Int64(20);
    let max = Value::Int64(30);
    let found = proj.find_nodes_in_range("age", Some(&min), Some(&max), true, true);
    assert_eq!(found.len(), 2);
    assert!(found.contains(&nodes[0])); // Alix
    assert!(found.contains(&nodes[1])); // Gus
}

#[test]
fn find_nodes_in_range_excludes_filtered_labels() {
    let (store, _, _) = setup_social_graph_with_ids();
    let spec = ProjectionSpec::new().with_node_labels(&["City"]);
    let proj = GraphProjection::new(store, spec);

    // City nodes don't have "age" property
    let min = Value::Int64(20);
    let max = Value::Int64(30);
    let found = proj.find_nodes_in_range("age", Some(&min), Some(&max), true, true);
    assert!(found.is_empty());
}

// 15. node_property_might_match and edge_property_might_match

#[test]
fn node_property_might_match_delegates() {
    let (store, _, _) = setup_social_graph_with_ids();
    let spec = ProjectionSpec::new().with_node_labels(&["Person"]);
    let proj = GraphProjection::new(store.clone(), spec);

    let key = PropertyKey::new("name");
    let val = string("Alix");
    // Delegates to inner store, so result should match
    let inner_result = store.node_property_might_match(&key, CompareOp::Eq, &val);
    assert_eq!(
        proj.node_property_might_match(&key, CompareOp::Eq, &val),
        inner_result
    );
}

#[test]
fn edge_property_might_match_delegates() {
    let (store, _, _) = setup_social_graph_with_ids();
    let spec = ProjectionSpec::new().with_edge_types(&["KNOWS"]);
    let proj = GraphProjection::new(store.clone(), spec);

    let key = PropertyKey::new("since");
    let val = Value::Int64(2020);
    let inner_result = store.edge_property_might_match(&key, CompareOp::Eq, &val);
    assert_eq!(
        proj.edge_property_might_match(&key, CompareOp::Eq, &val),
        inner_result
    );
}

// 16. current_epoch

#[test]
fn current_epoch_delegates() {
    let (store, _, _) = setup_social_graph_with_ids();
    let spec = ProjectionSpec::new();
    let proj = GraphProjection::new(store.clone(), spec);

    assert_eq!(proj.current_epoch(), store.current_epoch());
}

// 17. all_property_keys

#[test]
fn all_property_keys_delegates() {
    let (store, _, _) = setup_social_graph_with_ids();
    let spec = ProjectionSpec::new().with_node_labels(&["Person"]);
    let proj = GraphProjection::new(store.clone(), spec);

    let proj_keys = proj.all_property_keys();
    let store_keys = store.all_property_keys();
    // Delegates to inner, so same result
    assert_eq!(proj_keys.len(), store_keys.len());
}

// 18. statistics returns non-null

#[test]
fn statistics_returns_value() {
    let (store, _, _) = setup_social_graph_with_ids();
    let spec = ProjectionSpec::new();
    let proj = GraphProjection::new(store, spec);

    let stats = proj.statistics();
    // Just verify it returns without panicking and is non-null (Arc)
    let _ = stats;
}

// 19. has_backward_adjacency delegates to inner

#[test]
fn has_backward_adjacency_delegates() {
    let (store, _, _) = setup_social_graph_with_ids();
    let spec = ProjectionSpec::new();
    let proj = GraphProjection::new(store.clone(), spec);

    assert_eq!(
        proj.has_backward_adjacency(),
        store.has_backward_adjacency()
    );
}

// 20. has_property_index delegates to inner

#[test]
fn has_property_index_delegates() {
    let (store, _, _) = setup_social_graph_with_ids();
    let spec = ProjectionSpec::new();
    let proj = GraphProjection::new(store.clone(), spec);

    // LpgStore default has no property indexes
    assert_eq!(
        proj.has_property_index("name"),
        store.has_property_index("name")
    );
}

// ---------------------------------------------------------------------------
// Projections: further cases
// ---------------------------------------------------------------------------

fn names(mut list: Vec<String>) -> Vec<String> {
    list.sort();
    list
}

#[test]
fn spec_lists_a_repeated_label_once() {
    let (store, _, _) = setup_social_graph_with_ids();
    let spec = ProjectionSpec::new().with_node_labels(&["City", "Person", "City"]);
    let proj = GraphProjection::new(store, spec.clone());
    assert_eq!(names(proj.all_labels()), vec!["City".to_string(), "Person".to_string()]);
    assert_eq!(proj.node_count(), 3);
    // No type filter: the types are the store's.
    assert_eq!(proj.all_edge_types().len(), 3);
}

#[test]
fn later_labels_replace_earlier_ones() {
    let (store, nodes, _) = setup_social_graph_with_ids();
    let spec = ProjectionSpec::default().with_node_labels(&["Person"]).with_node_labels(&["City"]);
    let proj = GraphProjection::new(store, spec);
    assert_eq!(proj.node_ids(), vec![nodes[2]]);
}

#[test]
fn empty_label_list_shows_all_nodes() {
    let (store, _, _) = setup_social_graph_with_ids();
    let proj = GraphProjection::new(store, ProjectionSpec::new().with_node_labels(&[]));
    assert_eq!(proj.node_count(), 4);
}

#[test]
fn node_with_one_matching_label_is_shown() {
    let mut store = LpgStore::new();
    let n = store.create_node(&["Draft", "Article"]);
    let m = store.create_node(&[]);
    let proj =
        GraphProjection::new(Arc::new(store), ProjectionSpec::new().with_node_labels(&["Article"]));
    assert!(proj.get_node(n).is_some());
    assert!(proj.get_node(m).is_none());
    assert!(proj.get_node(NodeId(99)).is_none());
    assert_eq!(proj.node_ids(), vec![n]);
}

#[test]
fn unfiltered_lookups_and_traversals_are_the_stores() {
    let (store, nodes, edges) = setup_social_graph_with_ids();
    let proj = GraphProjection::new(store.clone(), ProjectionSpec::new());
    for n in &nodes {
        assert_eq!(
            proj.edges_from(*n, Direction::Both),
            store.edges_from(*n, Direction::Both)
        );
        assert_eq!(proj.get_node(*n).unwrap().labels, store.get_node(*n).unwrap().labels);
    }
    for e in &edges {
        assert_eq!(proj.edge_type(*e), store.edge_type(*e));
    }
    assert_eq!(proj.all_labels().len(), 3);
    assert_eq!(proj.find_nodes_by_property("name", &string("Grafeo")), vec![nodes[3]]);
}

#[test]
fn hidden_node_shows_nothing() {
    let (store, nodes, _) = setup_social_graph_with_ids();
    let proj = GraphProjection::new(store, ProjectionSpec::new().with_node_labels(&["Person"]));
    let city = nodes[2];
    assert!(proj.get_node(city).is_none());
    assert!(proj.neighbors(city, Direction::Both).is_empty());
    assert_eq!(proj.in_degree(city), 0);
    assert_eq!(proj.get_node_property_batch(&[city], &PropertyKey::new("name")), vec![None]);
    assert!(proj.get_nodes_properties_batch(&[city])[0].is_empty());
}

#[test]
fn hidden_edge_shows_nothing() {
    let (store, _, edges) = setup_social_graph_with_ids();
    let proj = GraphProjection::new(store, ProjectionSpec::new().with_node_labels(&["Person"]));
    // Alix lives in Amsterdam, which is hidden.
    let key = PropertyKey::new("since");
    assert!(proj.get_edge(edges[1]).is_none());
    assert!(proj.edge_type(edges[1]).is_none());
    assert!(proj.edge_type_versioned(edges[1], EpochId(0), TransactionId(0)).is_none());
    assert!(proj.get_edge_property(edges[1], &key).is_none());
    assert!(proj.get_edges_properties_selective_batch(&[edges[1]], &[key])[0].is_empty());
    // Alix knows Gus.
    assert_eq!(proj.edge_type(edges[0]), Some(ArcStr::from("KNOWS")));
    assert_eq!(
        proj.edge_type_versioned(edges[0], EpochId(0), TransactionId(0)),
        Some(ArcStr::from("KNOWS"))
    );
    assert!(proj.edge_type(EdgeId(99)).is_none());
}

#[test]
fn traversal_agrees_with_lookup() {
    let (store, nodes, _) = setup_social_graph_with_ids();
    let spec = ProjectionSpec::new()
        .with_node_labels(&["Person", "Software"])
        .with_edge_types(&["KNOWS", "CONTRIBUTES_TO", "LIVES_IN"]);
    let proj = GraphProjection::new(store.clone(), spec);
    for n in &nodes {
        for (target, edge) in store.edges_from(*n, Direction::Outgoing) {
            let listed = proj.edges_from(*n, Direction::Outgoing).contains(&(target, edge));
            assert_eq!(listed, proj.get_edge(edge).is_some());
        }
    }
    assert_eq!(proj.edges_from(nodes[0], Direction::Outgoing).len(), 2);
    assert_eq!(proj.edge_count(), 2);
}

#[test]
fn wider_spec_shows_more() {
    let (store, nodes, edges) = setup_social_graph_with_ids();
    let narrow =
        GraphProjection::new(store.clone(), ProjectionSpec::new().with_node_labels(&["Person"]));
    let wide =
        GraphProjection::new(store, ProjectionSpec::new().with_node_labels(&["Person", "City"]));
    for n in &nodes {
        assert!(narrow.get_node(*n).is_none() || wide.get_node(*n).is_some());
    }
    for e in &edges {
        assert!(narrow.get_edge(*e).is_none() || wide.get_edge(*e).is_some());
    }
    assert_eq!((narrow.edge_count(), wide.edge_count()), (1, 3));
}

#[test]
fn nested_projection_applies_both_specs() {
    let (store, nodes, edges) = setup_social_graph_with_ids();
    let inner = GraphProjection::new(
        store,
        ProjectionSpec::new().with_node_labels(&["Person", "City"]),
    );
    let outer = GraphProjection::new(
        Arc::new(inner),
        ProjectionSpec::new().with_node_labels(&["City", "Software"]),
    );
    assert_eq!(outer.node_ids(), vec![nodes[2]]);
    assert!(edges.iter().all(|e| outer.get_edge(*e).is_none()));
}

#[test]
fn projecting_twice_is_projecting_once() {
    let (store, nodes, _) = setup_social_graph_with_ids();
    let spec = ProjectionSpec::new().with_node_labels(&["Person"]).with_edge_types(&["KNOWS"]);
    let once = Arc::new(GraphProjection::new(store, spec.clone()));
    let twice = GraphProjection::new(once.clone(), spec);
    assert_eq!(twice.node_ids(), once.node_ids());
    assert_eq!(
        twice.edges_from(nodes[0], Direction::Both),
        once.edges_from(nodes[0], Direction::Both)
    );
    assert_eq!(twice.edge_count(), 1);
}

#[test]
fn projection_of_a_store_behind_a_trait_object() {
    let (store, nodes, _) = setup_social_graph_with_ids();
    let shared: Arc<dyn GraphStoreSearch<Statistics = u32>> = store;
    let proj = GraphProjection::new(shared, ProjectionSpec::new().with_node_labels(&["City"]));
    assert_eq!(proj.node_ids(), vec![nodes[2]]);
    assert_eq!(*proj.statistics(), 4);
}

#[test]
fn projection_offers_no_search_index() {
    let mut store = LpgStore::new();
    store.text_indexes.push(("Article".to_string(), "body".to_string()));
    store.vector_indexes.push(("Article".to_string(), "embedding".to_string()));
    let store = Arc::new(store);
    assert!(store.has_text_index("Article", "body"));
    let proj = GraphProjection::new(store, ProjectionSpec::new());
    assert!(!proj.has_text_index("Article", "body"));
    assert!(!proj.has_vector_index("Article", "embedding"));
}

#[test]
fn label_counts_and_estimates() {
    let (store, _, _) = setup_social_graph_with_ids();
    let spec = ProjectionSpec::new().with_node_labels(&["Person"]).with_edge_types(&["KNOWS"]);
    let proj = GraphProjection::new(store, spec);
    assert_eq!(proj.nodes_by_label_count("Person"), 2);
    assert_eq!(proj.nodes_by_label_count("City"), 0);
    assert_eq!(f64::from_bits(proj.estimate_label_cardinality("Person").0), 2.0);
    assert_eq!(f64::from_bits(proj.estimate_avg_degree("KNOWS", true).0), 0.25);
}

#[test]
fn property_map_keeps_one_value_for_each_key() {
    let mut map = PropertyMap::new();
    assert!(map.is_empty());
    map.insert(PropertyKey::new("a"), Value::Int64(1));
    map.insert(PropertyKey::new("b"), Value::Null);
    map.insert(PropertyKey::new("a"), Value::Int64(2));
    assert!(!map.is_empty());
    assert!(map.contains_key(&PropertyKey::new("b")));
    assert_eq!(map.get(&PropertyKey::new("a")), Some(&Value::Int64(2)));
    assert_eq!(map.get(&PropertyKey::new("c")), None);
}

// ---------------------------------------------------------------------------
// A query engine for the planner tests
// ---------------------------------------------------------------------------

/// What the engine cannot do.
#[derive(Clone, Copy, Debug, PartialEq)]
enum Failure {
    PlanVector,
    PlanText,
    Convert,
    Resolve,
}

/// An engine whose operators describe themselves and whose expressions are the
/// logical ones.
#[derive(Default)]
struct TestEngine {
    fails: Vec<Failure>,
}

impl TestEngine {
    fn check(&self, f: Failure) -> Result<(), Failure> {
        if self.fails.contains(&f) {
            Err(f)
        } else {
            Ok(())
        }
    }
}

impl QueryEngine for TestEngine {
    type Operator = LogicalOperatorText;
    type Expression = LogicalExpression;
    type Schema = Vec<String>;
    type Session = String;
    type Error = Failure;

    // cosine_similarity(n.prop, vector) compared with a number, in any conjunct
    fn extract_vector_predicate(&self, expr: &LogicalExpression) -> Option<ExtractedVectorPredicate> {
        let LogicalExpression::Binary { left, op, right } = expr else {
            return None;
        };
        if let LogicalExpression::FunctionCall { name, args, .. } = left.as_ref() {
            if name == "cosine_similarity" && matches!(op, BinaryOp::Gt | BinaryOp::Ge) {
                if let (
                    LogicalExpression::Property { variable, property },
                    LogicalExpression::Literal(Value::Float64(bound)),
                ) = (&args[0], right.as_ref())
                {
                    return Some(ExtractedVectorPredicate {
                        property: property.clone(),
                        variable: variable.clone(),
                        query_vector: args[1].clone(),
                        metric: VectorMetric(1),
                        min_similarity: Some(*bound),
                        max_distance: None,
                        remaining: None,
                    });
                }
            }
        }
        if *op != BinaryOp::And {
            return None;
        }
        let (found, other) = match self.extract_vector_predicate(left) {
            Some(found) => (found, right),
            None => (self.extract_vector_predicate(right)?, left),
        };
        let remaining = match found.remaining {
            Some(prev) => binary(prev, BinaryOp::And, other.as_ref().clone()),
            None => other.as_ref().clone(),
        };
        Some(ExtractedVectorPredicate { remaining: Some(remaining), ..found })
    }

    fn resolve_vector_literal(&self, _: &LogicalExpression) -> Result<(), Failure> {
        self.check(Failure::Resolve)
    }

    fn text_score_column_name(&self, variable: &str, property: &str, _: &LogicalExpression) -> String {
        format!("_tscore_{variable}_{property}")
    }

    fn plan_operator(&self, op: &LogicalOperator) -> Result<(LogicalOperatorText, Vec<String>), Failure> {
        match op {
            LogicalOperator::TextScan(scan) => {
                self.check(Failure::PlanText)?;
                let columns = vec![scan.variable.clone(), scan.score_column.clone().unwrap()];
                Ok((LogicalOperatorText(format!("{op:?}")), columns))
            }
            LogicalOperator::VectorScan(scan) => {
                self.check(Failure::PlanVector)?;
                let columns = vec![scan.variable.clone(), format!("_vscore_{}", scan.variable)];
                Ok((LogicalOperatorText(format!("{op:?}")), columns))
            }
            _ => unreachable!("only index scans are planned"),
        }
    }

    fn convert_expression(&self, expr: &LogicalExpression) -> Result<LogicalExpression, Failure> {
        self.check(Failure::Convert)?;
        Ok(expr.clone())
    }

    fn derive_schema_from_columns(&self, columns: &[String]) -> Vec<String> {
        columns.to_vec()
    }
}

/// A planned operator, as text.
#[derive(Debug, PartialEq)]
struct LogicalOperatorText(String);

type TestPlanner = Planner<LpgStore, TestEngine>;

fn planner_over(store: LpgStore, fails: Vec<Failure>) -> TestPlanner {
    Planner::new(
        Arc::new(store),
        TestEngine { fails },
        EpochId(3),
        Some(TransactionId(5)),
        "session".to_string(),
    )
}

fn test_planner() -> TestPlanner {
    let mut store = LpgStore::new();
    let article = store.create_node(&["Article"]);
    store.set_node_property(article, "body", string("rust database"));
    planner_over(store, Vec::new())
}

fn planner_with_article() -> TestPlanner {
    let mut store = LpgStore::new();
    let a = store.create_node(&["Article"]);
    store.set_node_property(a, "body", string("vincent and jules"));
    // The vector [0.1, 0.9, 0.0].
    store.set_node_property(a, "embedding", Value::Other(0));
    planner_over(store, Vec::new())
}

fn planner_with_indexes(fails: Vec<Failure>) -> TestPlanner {
    let mut store = LpgStore::new();
    store.create_node(&["Article"]);
    store.text_indexes.push(("Article".to_string(), "body".to_string()));
    store.vector_indexes.push(("Article".to_string(), "embedding".to_string()));
    planner_over(store, fails)
}

fn threshold_value(threshold: Threshold) -> f64 {
    match threshold {
        Threshold::Float64(bits) => f64::from_bits(bits.0),
        Threshold::Int64(n) => n as f64,
    }
}

// ---------------------------------------------------------------------------
// Planner
// ---------------------------------------------------------------------------

fn property(var: &str, name: &str) -> LogicalExpression {
    LogicalExpression::Property {
        variable: var.to_string(),
        property: name.to_string(),
    }
}

fn literal_string(s: &str) -> LogicalExpression {
    LogicalExpression::Literal(string(s))
}

fn text_score_call(var: &str, prop: &str, query: &str) -> LogicalExpression {
    LogicalExpression::FunctionCall {
        name: "text_score".to_string(),
        args: vec![property(var, prop), literal_string(query)],
        distinct: false,
    }
}

fn text_match_call(var: &str, prop: &str, query: &str) -> LogicalExpression {
    LogicalExpression::FunctionCall {
        name: "text_match".to_string(),
        args: vec![property(var, prop), literal_string(query)],
        distinct: false,
    }
}

fn binary(
    left: LogicalExpression,
    op: BinaryOp,
    right: LogicalExpression,
) -> LogicalExpression {
    LogicalExpression::Binary {
        left: Box::new(left),
        op,
        right: Box::new(right),
    }
}

// ------------------------------------------------------------------
// try_extract_text_fn guards
// ------------------------------------------------------------------

#[test]
fn extract_text_predicate_rejects_wrong_arg_count() {
    // A text_score call with a single argument must not match; the arity
    // guard in try_extract_text_fn returns None.
    let planner = test_planner();
    let single_arg_call = LogicalExpression::FunctionCall {
        name: "text_score".to_string(),
        args: vec![property("doc", "body")],
        distinct: false,
    };
    let expr = binary(
        single_arg_call,
        BinaryOp::Gt,
        LogicalExpression::Literal(float(0.5)),
    );
    assert!(planner.extract_text_predicate(&expr).is_none());
}

#[test]
fn extract_text_predicate_rejects_non_property_first_arg() {
    // First argument must be a Property; a literal here must fail the
    // let-else in try_extract_text_fn.
    let planner = test_planner();
    let call = LogicalExpression::FunctionCall {
        name: "text_score".to_string(),
        args: vec![literal_string("not a property"), literal_string("query")],
        distinct: false,
    };
    let expr = binary(
        call,
        BinaryOp::Gt,
        LogicalExpression::Literal(float(0.5)),
    );
    assert!(planner.extract_text_predicate(&expr).is_none());
}

#[test]
fn extract_text_predicate_accepts_ge_operator() {
    // text_score(...) >= threshold must match; covers the Ge arm of the
    // `matches!(op, BinaryOp::Gt | BinaryOp::Ge)` guard.
    let planner = test_planner();
    let expr = binary(
        text_score_call("doc", "body", "vincent"),
        BinaryOp::Ge,
        LogicalExpression::Literal(float(0.25)),
    );
    let extracted = planner.extract_text_predicate(&expr).unwrap();
    assert_eq!(extracted.property, "body");
    assert_eq!(extracted.variable, "doc");
    assert!((threshold_value(extracted.threshold) - 0.25).abs() < f64::EPSILON);
    assert!(extracted.remaining.is_none());
}

#[test]
fn extract_text_predicate_accepts_int64_threshold() {
    // Integer threshold must be accepted and coerced to f64.
    let planner = test_planner();
    let expr = binary(
        text_score_call("doc", "body", "jules"),
        BinaryOp::Gt,
        LogicalExpression::Literal(Value::Int64(1)),
    );
    let extracted = planner.extract_text_predicate(&expr).unwrap();
    assert!((threshold_value(extracted.threshold) - 1.0).abs() < f64::EPSILON);
}

#[test]
fn extract_text_predicate_rejects_non_literal_threshold() {
    // Non-literal thresholds (e.g., another property) must not push down.
    let planner = test_planner();
    let expr = binary(
        text_score_call("doc", "body", "mia"),
        BinaryOp::Gt,
        property("doc", "score"),
    );
    assert!(planner.extract_text_predicate(&expr).is_none());
}

#[test]
fn extract_text_predicate_rejects_lt_operator() {
    // Only Gt and Ge match; a Lt must fall through all arms and return
    // None (not an AND, not a standalone text_match, and not > / >=).
    let planner = test_planner();
    let expr = binary(
        text_score_call("doc", "body", "butch"),
        BinaryOp::Lt,
        LogicalExpression::Literal(float(0.9)),
    );
    assert!(planner.extract_text_predicate(&expr).is_none());
}

// ------------------------------------------------------------------
// extract_text_predicate match arms and recursion
// ------------------------------------------------------------------

#[test]
fn extract_text_predicate_text_match_uses_zero_threshold() {
    // Standalone text_match(...) must produce threshold = 0.0.
    let planner = test_planner();
    let expr = text_match_call("doc", "body", "django");
    let extracted = planner.extract_text_predicate(&expr).unwrap();
    assert!((threshold_value(extracted.threshold) - 0.0).abs() < f64::EPSILON);
}

#[test]
fn extract_text_predicate_fallthrough_on_plain_variable() {
    // A bare variable reference matches neither the Binary nor the
    // FunctionCall-text_match arms. The _ => None fallthrough fires.
    let planner = test_planner();
    let expr = LogicalExpression::Variable("doc".to_string());
    assert!(planner.extract_text_predicate(&expr).is_none());
}

#[test]
fn extract_text_predicate_and_accumulates_prev_remaining() {
    // (text_score(doc.body, 'x') > 0.0 AND published = true) AND live = true
    // The inner AND produces an Extracted with remaining = published=true.
    // The outer AND then wraps that "prev" remainder alongside live=true,
    // hitting the `Some(prev)` arm of the accumulator.
    let planner = test_planner();
    let published_true = binary(
        property("doc", "published"),
        BinaryOp::Eq,
        LogicalExpression::Literal(Value::Bool(true)),
    );
    let live_true = binary(
        property("doc", "live"),
        BinaryOp::Eq,
        LogicalExpression::Literal(Value::Bool(true)),
    );
    let text_gt = binary(
        text_score_call("doc", "body", "shosanna"),
        BinaryOp::Gt,
        LogicalExpression::Literal(float(0.0)),
    );
    let inner_and = binary(text_gt, BinaryOp::And, published_true);
    let outer_and = binary(inner_and, BinaryOp::And, live_true);
    let extracted = planner.extract_text_predicate(&outer_and).unwrap();
    // The accumulated remainder must be an AND of both scalar predicates.
    match extracted.remaining.expect("remaining must be set") {
        LogicalExpression::Binary { op, .. } => assert_eq!(op, BinaryOp::And),
        other => panic!("expected AND remainder, got {other:?}"),
    }
}

#[test]
fn extract_text_predicate_and_accumulates_prev_remaining_right_branch() {
    // Mirror of the above, but the text predicate lives on the right-hand
    // side of both ANDs, forcing the right-recursive branch to fire the
    // `Some(prev)` arm for its accumulator.
    let planner = test_planner();
    let scalar_left = binary(
        property("doc", "active"),
        BinaryOp::Eq,
        LogicalExpression::Literal(Value::Bool(true)),
    );
    let scalar_outer_left = binary(
        property("doc", "live"),
        BinaryOp::Eq,
        LogicalExpression::Literal(Value::Bool(true)),
    );
    let text_gt = binary(
        text_score_call("doc", "body", "hans"),
        BinaryOp::Gt,
        LogicalExpression::Literal(float(0.0)),
    );
    let inner_and = binary(scalar_left, BinaryOp::And, text_gt);
    let outer_and = binary(scalar_outer_left, BinaryOp::And, inner_and);
    let extracted = planner.extract_text_predicate(&outer_and).unwrap();
    match extracted.remaining.expect("remaining must be set") {
        LogicalExpression::Binary { op, .. } => assert_eq!(op, BinaryOp::And),
        other => panic!("expected AND remainder, got {other:?}"),
    }
}

#[test]
fn extract_text_predicate_and_with_no_text_on_either_side() {
    // An AND tree that does not contain text_score or text_match anywhere
    // must return None after both recursive attempts.
    let planner = test_planner();
    let left = binary(
        property("doc", "age"),
        BinaryOp::Gt,
        LogicalExpression::Literal(Value::Int64(18)),
    );
    let right = binary(
        property("doc", "city"),
        BinaryOp::Eq,
        literal_string("Amsterdam"),
    );
    let expr = binary(left, BinaryOp::And, right);
    assert!(planner.extract_text_predicate(&expr).is_none());
}

// ------------------------------------------------------------------
// try_plan_filter_with_text_index early returns
// ------------------------------------------------------------------

#[test]
fn try_plan_filter_with_text_index_rejects_non_nodescan_input() {
    // Filter input is a nested NodeScan wrapped in a Filter rather than a
    // plain NodeScan. The outer try_plan_filter_with_text_index sees a
    // non-NodeScan input and returns Ok(None) without extracting anything.
    let planner = test_planner();
    let inner_filter = FilterOp {
        predicate: LogicalExpression::Literal(Value::Bool(true)),
        input: Box::new(LogicalOperator::NodeScan(NodeScanOp {
            variable: "doc".to_string(),
            label: Some("Article".to_string()),
            input: None,
        })),
        pushdown_hint: None,
    };
    let outer_filter = FilterOp {
        predicate: binary(
            text_score_call("doc", "body", "beatrix"),
            BinaryOp::Gt,
            LogicalExpression::Literal(float(0.1)),
        ),
        input: Box::new(LogicalOperator::Filter(inner_filter)),
        pushdown_hint: None,
    };
    let planned = planner
        .try_plan_filter_with_text_index(&outer_filter)
        .unwrap();
    assert!(planned.is_none());
}

#[test]
fn try_plan_filter_with_text_index_rejects_label_less_scan() {
    // A NodeScan without a label cannot pushdown: the early return on
    // `scan.label` being None fires.
    let planner = test_planner();
    let filter = FilterOp {
        predicate: binary(
            text_score_call("doc", "body", "vincent"),
            BinaryOp::Gt,
            LogicalExpression::Literal(float(0.1)),
        ),
        input: Box::new(LogicalOperator::NodeScan(NodeScanOp {
            variable: "doc".to_string(),
            label: None,
            input: None,
        })),
        pushdown_hint: None,
    };
    let planned = planner.try_plan_filter_with_text_index(&filter).unwrap();
    assert!(planned.is_none());
}

#[test]
fn try_plan_filter_with_text_index_rejects_variable_mismatch() {
    // Predicate references a variable `m` while the NodeScan binds `doc`.
    // The variable guard rejects the pushdown.
    let planner = test_planner();
    let filter = FilterOp {
        predicate: binary(
            text_score_call("m", "body", "prague"),
            BinaryOp::Gt,
            LogicalExpression::Literal(float(0.1)),
        ),
        input: Box::new(LogicalOperator::NodeScan(NodeScanOp {
            variable: "doc".to_string(),
            label: Some("Article".to_string()),
            input: None,
        })),
        pushdown_hint: None,
    };
    let planned = planner.try_plan_filter_with_text_index(&filter).unwrap();
    assert!(planned.is_none());
}

#[test]
fn try_plan_filter_with_text_index_rejects_missing_index() {
    // An Article store without a text index on `body`: the planner must
    // fall through (per-row evaluation handles text_score/text_match).
    let planner = test_planner();
    let filter = FilterOp {
        predicate: binary(
            text_score_call("doc", "body", "django"),
            BinaryOp::Gt,
            LogicalExpression::Literal(float(0.1)),
        ),
        input: Box::new(LogicalOperator::NodeScan(NodeScanOp {
            variable: "doc".to_string(),
            label: Some("Article".to_string()),
            input: None,
        })),
        pushdown_hint: None,
    };
    let planned = planner.try_plan_filter_with_text_index(&filter).unwrap();
    assert!(planned.is_none());
}

#[test]
fn try_plan_filter_with_text_index_rejects_no_text_predicate() {
    // Filter that is a pure scalar (no text_score / text_match) returns
    // None after extract_text_predicate yields nothing.
    let planner = test_planner();
    let filter = FilterOp {
        predicate: binary(
            property("doc", "age"),
            BinaryOp::Gt,
            LogicalExpression::Literal(Value::Int64(25)),
        ),
        input: Box::new(LogicalOperator::NodeScan(NodeScanOp {
            variable: "doc".to_string(),
            label: Some("Article".to_string()),
            input: None,
        })),
        pushdown_hint: None,
    };
    let planned = planner.try_plan_filter_with_text_index(&filter).unwrap();
    assert!(planned.is_none());
}
fn literal_vec(values: &[f32]) -> LogicalExpression {
    LogicalExpression::List(
        values
            .iter()
            .map(|v| LogicalExpression::Literal(float(f64::from(*v))))
            .collect(),
    )
}

fn cosine_call(var: &str, prop: &str, query_vec: &[f32]) -> LogicalExpression {
    LogicalExpression::FunctionCall {
        name: "cosine_similarity".to_string(),
        args: vec![property(var, prop), literal_vec(query_vec)],
        distinct: false,
    }
}

fn compound_and() -> LogicalExpression {
    let vec_pred = binary(
        cosine_call("doc", "embedding", &[0.1, 0.9, 0.0]),
        BinaryOp::Ge,
        LogicalExpression::Literal(float(0.5)),
    );
    let text_pred = binary(
        text_score_call("doc", "body", "vincent"),
        BinaryOp::Gt,
        LogicalExpression::Literal(float(0.0)),
    );
    binary(vec_pred, BinaryOp::And, text_pred)
}

// ------------------------------------------------------------------
// try_plan_filter_compound_hybrid early returns
// ------------------------------------------------------------------

#[test]
fn compound_hybrid_rejects_non_nodescan_input() {
    // Compound hybrid predicate over a nested Filter input: the outer
    // planner must reject because the immediate child is not a NodeScan.
    let planner = planner_with_article();
    let filter = FilterOp {
        predicate: compound_and(),
        input: Box::new(LogicalOperator::Filter(FilterOp {
            predicate: LogicalExpression::Literal(Value::Bool(true)),
            input: Box::new(LogicalOperator::NodeScan(NodeScanOp {
                variable: "doc".to_string(),
                label: Some("Article".to_string()),
                input: None,
            })),
            pushdown_hint: None,
        })),
        pushdown_hint: None,
    };
    let planned = planner.try_plan_filter_compound_hybrid(&filter).unwrap();
    assert!(planned.is_none());
}

#[test]
fn compound_hybrid_rejects_label_less_scan() {
    // A NodeScan without a label cannot be a hybrid pushdown target.
    let planner = planner_with_article();
    let filter = FilterOp {
        predicate: compound_and(),
        input: Box::new(LogicalOperator::NodeScan(NodeScanOp {
            variable: "doc".to_string(),
            label: None,
            input: None,
        })),
        pushdown_hint: None,
    };
    let planned = planner.try_plan_filter_compound_hybrid(&filter).unwrap();
    assert!(planned.is_none());
}

#[test]
fn compound_hybrid_rejects_and_without_both_predicates() {
    // An AND tree with only a text predicate must not be rewritten as a
    // compound hybrid (the AND arm returns None when vector is missing).
    let planner = planner_with_article();
    let predicate = binary(
        binary(
            text_score_call("doc", "body", "shosanna"),
            BinaryOp::Gt,
            LogicalExpression::Literal(float(0.0)),
        ),
        BinaryOp::And,
        binary(
            property("doc", "age"),
            BinaryOp::Gt,
            LogicalExpression::Literal(Value::Int64(18)),
        ),
    );
    let filter = FilterOp {
        predicate,
        input: Box::new(LogicalOperator::NodeScan(NodeScanOp {
            variable: "doc".to_string(),
            label: Some("Article".to_string()),
            input: None,
        })),
        pushdown_hint: None,
    };
    let planned = planner.try_plan_filter_compound_hybrid(&filter).unwrap();
    assert!(planned.is_none());
}

#[test]
fn compound_hybrid_rejects_variable_mismatch() {
    // Text predicate binds `other`, vector binds `doc`: the variable-mismatch
    // guard on text_pred.variable fires (covers the `text_pred.variable !=
    // scan.variable` branch).
    let planner = planner_with_article();
    let predicate = binary(
        binary(
            cosine_call("doc", "embedding", &[0.1, 0.9, 0.0]),
            BinaryOp::Ge,
            LogicalExpression::Literal(float(0.5)),
        ),
        BinaryOp::And,
        binary(
            text_score_call("other", "body", "mia"),
            BinaryOp::Gt,
            LogicalExpression::Literal(float(0.0)),
        ),
    );
    let filter = FilterOp {
        predicate,
        input: Box::new(LogicalOperator::NodeScan(NodeScanOp {
            variable: "doc".to_string(),
            label: Some("Article".to_string()),
            input: None,
        })),
        pushdown_hint: None,
    };
    let planned = planner.try_plan_filter_compound_hybrid(&filter).unwrap();
    assert!(planned.is_none());
}

#[test]
fn compound_hybrid_rejects_or_without_both_predicates() {
    // Pure OR of two scalar predicates cannot be a hybrid OR pushdown;
    // the OR branch's extractor returns None for both alternatives.
    let planner = planner_with_article();
    let left = binary(
        property("doc", "age"),
        BinaryOp::Gt,
        LogicalExpression::Literal(Value::Int64(18)),
    );
    let right = binary(
        property("doc", "city"),
        BinaryOp::Eq,
        literal_string("Berlin"),
    );
    let filter = FilterOp {
        predicate: binary(left, BinaryOp::Or, right),
        input: Box::new(LogicalOperator::NodeScan(NodeScanOp {
            variable: "doc".to_string(),
            label: Some("Article".to_string()),
            input: None,
        })),
        pushdown_hint: None,
    };
    let planned = planner.try_plan_filter_compound_hybrid(&filter).unwrap();
    assert!(planned.is_none());
}

#[test]
fn compound_hybrid_rejects_missing_vector_index() {
    // No vector index is created on the store, so the has_vector_index
    // guard must cause the planner to fall through.
    let planner = planner_with_article();
    let filter = FilterOp {
        predicate: compound_and(),
        input: Box::new(LogicalOperator::NodeScan(NodeScanOp {
            variable: "doc".to_string(),
            label: Some("Article".to_string()),
            input: None,
        })),
        pushdown_hint: None,
    };
    let planned = planner.try_plan_filter_compound_hybrid(&filter).unwrap();
    assert!(planned.is_none());
}

// ------------------------------------------------------------------
// extract_scalar_remaining: systematic coverage of all match arms
// ------------------------------------------------------------------

#[test]
fn extract_scalar_remaining_returns_none_for_text_leaf() {
    // Leaf text predicate must be dropped (None) because an index scan
    // handles it.
    let planner = planner_with_article();
    let expr = binary(
        text_score_call("doc", "body", "beatrix"),
        BinaryOp::Gt,
        LogicalExpression::Literal(float(0.0)),
    );
    assert!(planner.extract_scalar_remaining(&expr).is_none());
}

#[test]
fn extract_scalar_remaining_returns_none_for_vector_leaf() {
    // Leaf vector predicate must also be dropped.
    let planner = planner_with_article();
    let expr = binary(
        cosine_call("doc", "embedding", &[0.1, 0.9, 0.0]),
        BinaryOp::Ge,
        LogicalExpression::Literal(float(0.5)),
    );
    assert!(planner.extract_scalar_remaining(&expr).is_none());
}

#[test]
fn extract_scalar_remaining_keeps_plain_scalar_leaf() {
    // A scalar leaf (age > 18) must be preserved.
    let planner = planner_with_article();
    let expr = binary(
        property("doc", "age"),
        BinaryOp::Gt,
        LogicalExpression::Literal(Value::Int64(18)),
    );
    let remaining = planner.extract_scalar_remaining(&expr);
    assert!(remaining.is_some());
}

#[test]
fn extract_scalar_remaining_and_drops_both_index_predicates() {
    // AND of vector + text: both drop, so the recursion returns None.
    let planner = planner_with_article();
    let expr = compound_and();
    assert!(planner.extract_scalar_remaining(&expr).is_none());
}

#[test]
fn extract_scalar_remaining_and_keeps_left_scalar_only() {
    // AND(scalar, text): right drops, left survives. Covers (Some, None).
    let planner = planner_with_article();
    let scalar = binary(
        property("doc", "age"),
        BinaryOp::Gt,
        LogicalExpression::Literal(Value::Int64(18)),
    );
    let text = binary(
        text_score_call("doc", "body", "hans"),
        BinaryOp::Gt,
        LogicalExpression::Literal(float(0.0)),
    );
    let and = binary(scalar, BinaryOp::And, text);
    let remaining = planner.extract_scalar_remaining(&and).unwrap();
    // Must be exactly the scalar, unwrapped from the AND.
    match remaining {
        LogicalExpression::Binary { op, .. } => assert_eq!(op, BinaryOp::Gt),
        other => panic!("expected scalar Binary(Gt), got {other:?}"),
    }
}

#[test]
fn extract_scalar_remaining_and_keeps_right_scalar_only() {
    // Symmetric to above: AND(text, scalar) -> keep scalar. Covers
    // the (None, Some) arm.
    let planner = planner_with_article();
    let text = binary(
        text_score_call("doc", "body", "beatrix"),
        BinaryOp::Gt,
        LogicalExpression::Literal(float(0.0)),
    );
    let scalar = binary(
        property("doc", "age"),
        BinaryOp::Gt,
        LogicalExpression::Literal(Value::Int64(18)),
    );
    let and = binary(text, BinaryOp::And, scalar);
    let remaining = planner.extract_scalar_remaining(&and).unwrap();
    match remaining {
        LogicalExpression::Binary { op, .. } => assert_eq!(op, BinaryOp::Gt),
        other => panic!("expected scalar Binary(Gt), got {other:?}"),
    }
}

#[test]
fn extract_scalar_remaining_and_combines_two_scalars() {
    // AND(scalar, scalar) -> combined AND. Covers (Some, Some) arm.
    let planner = planner_with_article();
    let left = binary(
        property("doc", "age"),
        BinaryOp::Gt,
        LogicalExpression::Literal(Value::Int64(18)),
    );
    let right = binary(
        property("doc", "city"),
        BinaryOp::Eq,
        literal_string("Prague"),
    );
    let and = binary(left, BinaryOp::And, right);
    let remaining = planner.extract_scalar_remaining(&and).unwrap();
    match remaining {
        LogicalExpression::Binary { op, .. } => assert_eq!(op, BinaryOp::And),
        other => panic!("expected combined AND, got {other:?}"),
    }
}

#[test]
fn extract_scalar_remaining_or_pure_index_drops_whole_tree() {
    // OR(vector, text): both sides are index predicates with no scalar
    // remainder. extract_scalar_remaining returns None (None, None arm of
    // the OR match).
    let planner = planner_with_article();
    let vec_pred = binary(
        cosine_call("doc", "embedding", &[0.1, 0.9, 0.0]),
        BinaryOp::Ge,
        LogicalExpression::Literal(float(0.5)),
    );
    let text_pred = binary(
        text_score_call("doc", "body", "mia"),
        BinaryOp::Gt,
        LogicalExpression::Literal(float(0.0)),
    );
    let or = binary(vec_pred, BinaryOp::Or, text_pred);
    assert!(planner.extract_scalar_remaining(&or).is_none());
}

#[test]
fn extract_scalar_remaining_or_with_scalar_keeps_whole_expr() {
    // OR(vector AND scalar, text): the left side has a scalar remainder
    // ("published = true"), so the whole OR must be preserved post-join
    // (match arm that returns Some(expr.clone())).
    let planner = planner_with_article();
    let vec_pred = binary(
        cosine_call("doc", "embedding", &[0.1, 0.9, 0.0]),
        BinaryOp::Ge,
        LogicalExpression::Literal(float(0.5)),
    );
    let scalar = binary(
        property("doc", "published"),
        BinaryOp::Eq,
        LogicalExpression::Literal(Value::Bool(true)),
    );
    let left_and = binary(vec_pred, BinaryOp::And, scalar);
    let text_pred = binary(
        text_score_call("doc", "body", "vincent"),
        BinaryOp::Gt,
        LogicalExpression::Literal(float(0.0)),
    );
    let or = binary(left_and, BinaryOp::Or, text_pred);
    let remaining = planner.extract_scalar_remaining(&or);
    assert!(remaining.is_some());
    match remaining.unwrap() {
        LogicalExpression::Binary { op, .. } => assert_eq!(op, BinaryOp::Or),
        other => panic!("expected Or preserved whole, got {other:?}"),
    }
}

// ------------------------------------------------------------------
// Planner: further cases
// ------------------------------------------------------------------

fn filter_on_article(predicate: LogicalExpression) -> FilterOp {
    FilterOp {
        predicate,
        input: Box::new(LogicalOperator::NodeScan(NodeScanOp {
            variable: "doc".to_string(),
            label: Some("Article".to_string()),
            input: None,
        })),
        pushdown_hint: None,
    }
}

fn published() -> LogicalExpression {
    binary(
        property("doc", "published"),
        BinaryOp::Eq,
        LogicalExpression::Literal(Value::Bool(true)),
    )
}

fn near() -> LogicalExpression {
    binary(
        cosine_call("doc", "embedding", &[0.1, 0.9, 0.0]),
        BinaryOp::Ge,
        LogicalExpression::Literal(float(0.5)),
    )
}

fn about(query: &str) -> LogicalExpression {
    text_match_call("doc", "body", query)
}

fn shown(e: &LogicalExpression) -> String {
    format!("{e:?}")
}

type TestOperator = PhysicalOperator<LpgStore, TestEngine>;

fn columns(names: &[&str]) -> Vec<String> {
    names.iter().map(|n| n.to_string()).collect()
}

/// The operator and expression of a filter.
fn filter_parts(op: TestOperator) -> (TestOperator, String, Option<usize>) {
    match op {
        PhysicalOperator::Filter { input, predicate } => {
            assert_eq!(predicate.viewing_epoch, EpochId(3));
            assert_eq!(predicate.transaction_id, Some(TransactionId(5)));
            assert_eq!(predicate.session_context, "session");
            assert_eq!(predicate.store.node_count(), 1);
            let at = predicate.variable_columns.get("doc").copied();
            (*input, shown(&predicate.expression), at)
        }
        _ => panic!("expected a filter"),
    }
}

fn planned_text(op: TestOperator) -> String {
    match op {
        PhysicalOperator::Planned(text) => text.0,
        _ => panic!("expected a planned scan"),
    }
}

#[test]
fn text_filter_becomes_a_text_scan() {
    let planner = planner_with_indexes(Vec::new());
    let filter = filter_on_article(about("django"));
    let (op, cols) = planner.try_plan_filter_with_text_index(&filter).unwrap().unwrap();
    assert_eq!(cols, columns(&["doc", "_tscore_doc_body"]));
    let expected = LogicalOperator::TextScan(TextScanOp {
        variable: "doc".to_string(),
        property: "body".to_string(),
        label: "Article".to_string(),
        query: literal_string("django"),
        k: None,
        threshold: Some(Threshold::Float64(FloatBits(0))),
        score_column: Some("_tscore_doc_body".to_string()),
    });
    assert_eq!(planned_text(op), format!("{expected:?}"));
}

#[test]
fn text_filter_keeps_what_is_left_over() {
    let planner = planner_with_indexes(Vec::new());
    let filter = filter_on_article(binary(published(), BinaryOp::And, about("mia")));
    let (op, cols) = planner.try_plan_filter_with_text_index(&filter).unwrap().unwrap();
    assert_eq!(cols.len(), 2);
    let (input, expression, at) = filter_parts(op);
    assert_eq!(expression, shown(&published()));
    assert_eq!(at, Some(0));
    assert!(planned_text(input).starts_with("TextScan"));
}

#[test]
fn text_filter_passes_errors_on() {
    let filter = filter_on_article(binary(about("mia"), BinaryOp::And, published()));
    for failure in [Failure::PlanText, Failure::Convert] {
        let planner = planner_with_indexes(vec![failure]);
        match planner.try_plan_filter_with_text_index(&filter) {
            Err(error) => assert_eq!(error, failure),
            Ok(_) => panic!("expected an error"),
        }
    }
}

#[test]
fn text_pushdown_names_scan_and_predicate() {
    let planner = planner_with_indexes(Vec::new());
    let filter = filter_on_article(about("hans"));
    let pushdown = planner.find_text_pushdown(&filter).unwrap();
    assert_eq!(pushdown.variable, "doc");
    assert_eq!(pushdown.label, "Article");
    assert_eq!(pushdown.predicate.property, "body");
    assert_eq!(shown(&pushdown.predicate.query_expr), shown(&literal_string("hans")));
}

#[test]
fn first_text_conjunct_is_taken() {
    let planner = test_planner();
    let expr = binary(
        binary(published(), BinaryOp::And, about("first")),
        BinaryOp::And,
        about("second"),
    );
    let extracted = planner.extract_text_predicate(&expr).unwrap();
    assert_eq!(shown(&extracted.query_expr), shown(&literal_string("first")));
    let rest = binary(published(), BinaryOp::And, about("second"));
    assert_eq!(shown(&extracted.remaining.unwrap()), shown(&rest));
}

#[test]
fn text_under_or_is_not_extracted() {
    let planner = test_planner();
    let expr = binary(about("x"), BinaryOp::Or, published());
    assert!(planner.extract_text_predicate(&expr).is_none());
}

#[test]
fn text_score_needs_a_comparison() {
    let planner = test_planner();
    assert!(planner.extract_text_predicate(&text_score_call("doc", "body", "x")).is_none());
    assert!(planner.try_extract_text_fn(&vec![], &published()).is_none());
}

#[test]
fn remaining_filter_maps_a_repeated_column_to_its_last_place() {
    let planner = test_planner();
    let op: TestOperator = PhysicalOperator::Planned(LogicalOperatorText("op".to_string()));
    let cols = columns(&["doc", "x", "doc"]);
    let wrapped = planner.wrap_with_remaining_filter(op, &cols, &published());
    let (input, expression, at) = filter_parts(wrapped.ok().unwrap());
    assert_eq!(at, Some(2));
    assert_eq!(expression, shown(&published()));
    assert_eq!(planned_text(input), "op");
}

fn join_parts(op: TestOperator) -> (TestOperator, TestOperator, PhysicalJoinType, Vec<ProjectExpr>) {
    let PhysicalOperator::Project { input, exprs, schema } = op else {
        panic!("expected a projection");
    };
    assert_eq!(schema, columns(&["doc", "_vscore_doc", "_tscore_doc_body"]));
    let PhysicalOperator::HashJoin { left, right, probe_keys, build_keys, join_type, schema } = *input
    else {
        panic!("expected a join");
    };
    assert_eq!(schema, columns(&["doc", "_vscore_doc", "doc", "_tscore_doc_body"]));
    assert_eq!((probe_keys, build_keys), (vec![0], vec![0]));
    (*left, *right, join_type, exprs)
}

#[test]
fn conjunction_becomes_an_inner_join() {
    let planner = planner_with_indexes(Vec::new());
    let filter = filter_on_article(compound_and());
    let (op, cols) = planner.try_plan_filter_compound_hybrid(&filter).unwrap().unwrap();
    assert_eq!(cols, columns(&["doc", "_vscore_doc", "_tscore_doc_body"]));
    let (left, right, join_type, exprs) = join_parts(op);
    assert_eq!(join_type, PhysicalJoinType::Inner);
    assert_eq!(
        exprs,
        vec![ProjectExpr::Column(0), ProjectExpr::Column(1), ProjectExpr::Column(3)]
    );
    // Each scan is filtered by the other side of the conjunction.
    let (scan, rest, at) = filter_parts(left);
    assert!(rest.contains("text_score"));
    assert_eq!(at, Some(0));
    let expected = LogicalOperator::VectorScan(VectorScanOp {
        variable: "doc".to_string(),
        index_name: Some("Article:embedding".to_string()),
        property: "embedding".to_string(),
        label: Some("Article".to_string()),
        query_vector: literal_vec(&[0.1, 0.9, 0.0]),
        k: None,
        metric: Some(VectorMetric(1)),
        min_similarity: Some(FloatBits(0.5f64.to_bits())),
        max_distance: None,
        input: None,
    });
    assert_eq!(planned_text(scan), format!("{expected:?}"));
    let (scan, rest, _) = filter_parts(right);
    assert!(rest.contains("cosine_similarity"));
    assert!(planned_text(scan).starts_with("TextScan"));
}

#[test]
fn conjunction_with_a_scalar_is_filtered_after_the_join() {
    let planner = planner_with_indexes(Vec::new());
    let filter = filter_on_article(binary(compound_and(), BinaryOp::And, published()));
    let (op, _) = planner.try_plan_filter_compound_hybrid(&filter).unwrap().unwrap();
    let (join, rest, at) = filter_parts(op);
    assert_eq!(rest, shown(&published()));
    assert_eq!(at, Some(0));
    assert_eq!(join_parts(join).2, PhysicalJoinType::Inner);
}

#[test]
fn disjunction_becomes_a_full_join_either_way_round() {
    let planner = planner_with_indexes(Vec::new());
    for predicate in [
        binary(near(), BinaryOp::Or, about("jules")),
        binary(about("jules"), BinaryOp::Or, near()),
    ] {
        let filter = filter_on_article(predicate);
        let (op, _) = planner.try_plan_filter_compound_hybrid(&filter).unwrap().unwrap();
        let (left, right, join_type, exprs) = join_parts(op);
        assert_eq!(join_type, PhysicalJoinType::Full);
        assert_eq!(
            exprs,
            vec![
                ProjectExpr::Coalesce { first: 0, second: 2 },
                ProjectExpr::Column(1),
                ProjectExpr::Column(3)
            ]
        );
        assert!(planned_text(left).starts_with("VectorScan"));
        assert!(planned_text(right).starts_with("TextScan"));
    }
}

#[test]
fn disjunction_with_a_scalar_beside_a_predicate_is_not_planned() {
    let planner = planner_with_indexes(Vec::new());
    let near_and = || binary(near(), BinaryOp::And, published());
    let about_and = || binary(published(), BinaryOp::And, about("jules"));
    for predicate in [
        binary(near_and(), BinaryOp::Or, about("jules")),
        binary(near(), BinaryOp::Or, about_and()),
        binary(about_and(), BinaryOp::Or, near()),
        binary(about("jules"), BinaryOp::Or, near_and()),
        binary(near_and(), BinaryOp::Or, about_and()),
    ] {
        assert!(planner.extract_both_predicates(&predicate).is_none());
        let filter = filter_on_article(predicate);
        assert!(planner.try_plan_filter_compound_hybrid(&filter).unwrap().is_none());
    }
}

#[test]
fn text_scan_does_not_replace_a_scan_with_a_nested_input() {
    let planner = planner_with_indexes(Vec::new());
    let mut text_filter = filter_on_article(about("jules"));
    let mut hybrid_filter = filter_on_article(compound_and());
    assert!(planner.find_text_pushdown(&text_filter).is_some());
    assert!(planner.try_plan_filter_compound_hybrid(&hybrid_filter).unwrap().is_some());
    for filter in [&mut text_filter, &mut hybrid_filter] {
        let LogicalOperator::NodeScan(scan) = filter.input.as_mut() else {
            panic!("expected a node scan");
        };
        scan.input = Some(Box::new(LogicalOperator::Other(1)));
    }
    assert!(planner.find_text_pushdown(&text_filter).is_none());
    assert!(planner.try_plan_filter_with_text_index(&text_filter).unwrap().is_none());
    assert!(planner.try_plan_filter_with_text_index(&hybrid_filter).unwrap().is_none());
    // The hybrid planner does not look at the nested input.
    let (op, _) = planner.try_plan_filter_compound_hybrid(&hybrid_filter).unwrap().unwrap();
    assert_eq!(join_parts(op).2, PhysicalJoinType::Inner);
}

#[test]
fn disjunction_needs_one_predicate_on_each_side() {
    let planner = planner_with_indexes(Vec::new());
    for predicate in [
        binary(near(), BinaryOp::Or, near()),
        binary(about("a"), BinaryOp::Or, about("b")),
        binary(compound_and(), BinaryOp::Or, published()),
    ] {
        let filter = filter_on_article(predicate);
        assert!(planner.try_plan_filter_compound_hybrid(&filter).unwrap().is_none());
    }
}

#[test]
fn hybrid_needs_the_text_index_too() {
    let mut store = LpgStore::new();
    store.vector_indexes.push(("Article".to_string(), "embedding".to_string()));
    let planner = planner_over(store, Vec::new());
    let filter = filter_on_article(compound_and());
    assert!(planner.try_plan_filter_compound_hybrid(&filter).unwrap().is_none());
}

#[test]
fn hybrid_needs_a_known_query_vector() {
    let planner = planner_with_indexes(vec![Failure::Resolve]);
    let filter = filter_on_article(compound_and());
    assert!(planner.try_plan_filter_compound_hybrid(&filter).unwrap().is_none());
}

#[test]
fn hybrid_passes_errors_on() {
    let filter = filter_on_article(compound_and());
    for failure in [Failure::PlanVector, Failure::PlanText, Failure::Convert] {
        let planner = planner_with_indexes(vec![failure]);
        match planner.try_plan_filter_compound_hybrid(&filter) {
            Err(error) => assert_eq!(error, failure),
            Ok(_) => panic!("expected an error"),
        }
    }
    // The vector scan is planned first.
    let planner = planner_with_indexes(vec![Failure::PlanText, Failure::PlanVector]);
    assert_eq!(
        planner.try_plan_filter_compound_hybrid(&filter).err(),
        Some(Failure::PlanVector)
    );
}

#[test]
fn nothing_is_planned_over_a_projection() {
    let mut store = LpgStore::new();
    store.text_indexes.push(("Article".to_string(), "body".to_string()));
    let proj = GraphProjection::new(Arc::new(store), ProjectionSpec::new());
    let planner =
        Planner::new(Arc::new(proj), TestEngine::default(), EpochId(0), None, String::new());
    let filter = filter_on_article(about("x"));
    assert!(planner.try_plan_filter_with_text_index(&filter).unwrap().is_none());
}

#[test]
fn layout_without_right_columns_keeps_the_left_ones() {
    let layout = hybrid_layout(&columns(&["n", "s"]), &columns(&[]), false);
    assert_eq!(layout.joined_columns, columns(&["n", "s"]));
    assert_eq!(layout.exprs, vec![ProjectExpr::Column(0), ProjectExpr::Column(1)]);
    assert_eq!(layout.output_columns, columns(&["n", "s"]));
}

#[test]
fn scalar_rest_of_nested_and_keeps_order() {
    let planner = planner_with_article();
    let other = binary(
        property("doc", "live"),
        BinaryOp::Eq,
        LogicalExpression::Literal(Value::Bool(true)),
    );
    let expr = binary(
        binary(published(), BinaryOp::And, near()),
        BinaryOp::And,
        binary(about("x"), BinaryOp::And, other.clone()),
    );
    let rest = planner.extract_scalar_remaining(&expr).unwrap();
    assert_eq!(shown(&rest), shown(&binary(published(), BinaryOp::And, other)));
}

/// What a document meets: the text search, the vector search, `published = true`.
#[derive(Clone, Copy, Debug)]
struct Doc {
    about: bool,
    near: bool,
    published: bool,
}

fn every_doc() -> Vec<Doc> {
    let mut docs = Vec::new();
    for n in 0..8u8 {
        docs.push(Doc { about: n & 1 != 0, near: n & 2 != 0, published: n & 4 != 0 });
    }
    docs
}

/// Whether a document meets an expression.
fn meets(doc: Doc, expr: &LogicalExpression) -> bool {
    match expr {
        LogicalExpression::Binary { left, op: BinaryOp::And, right } => {
            meets(doc, left) && meets(doc, right)
        }
        LogicalExpression::Binary { left, op: BinaryOp::Or, right } => {
            meets(doc, left) || meets(doc, right)
        }
        other => {
            let text = shown(other);
            if text.contains("text_") {
                doc.about
            } else if text.contains("cosine_similarity") {
                doc.near
            } else {
                assert!(text.contains("published"));
                doc.published
            }
        }
    }
}

/// Whether a plan gives a document.
fn gives(doc: Doc, op: &TestOperator) -> bool {
    match op {
        PhysicalOperator::Planned(scan) => {
            if scan.0.starts_with("TextScan") {
                doc.about
            } else {
                assert!(scan.0.starts_with("VectorScan"));
                doc.near
            }
        }
        PhysicalOperator::Filter { input, predicate } => {
            gives(doc, input) && meets(doc, &predicate.expression)
        }
        PhysicalOperator::HashJoin { left, right, join_type, .. } => match join_type {
            PhysicalJoinType::Inner => gives(doc, left) && gives(doc, right),
            PhysicalJoinType::Full => gives(doc, left) || gives(doc, right),
        },
        PhysicalOperator::Project { input, .. } => gives(doc, input),
    }
}

#[test]
fn text_plan_gives_what_meets_the_filter() {
    let planner = planner_with_indexes(Vec::new());
    for predicate in [
        about("x"),
        binary(published(), BinaryOp::And, about("x")),
        binary(binary(near(), BinaryOp::And, about("x")), BinaryOp::And, published()),
        binary(about("x"), BinaryOp::And, binary(near(), BinaryOp::Or, published())),
    ] {
        let filter = filter_on_article(predicate);
        let (op, _) = planner.try_plan_filter_with_text_index(&filter).unwrap().unwrap();
        for doc in every_doc() {
            assert_eq!(gives(doc, &op), meets(doc, &filter.predicate), "{doc:?}");
        }
    }
}

#[test]
fn hybrid_plan_gives_what_meets_the_filter() {
    let planner = planner_with_indexes(Vec::new());
    for predicate in [
        binary(near(), BinaryOp::And, about("x")),
        binary(published(), BinaryOp::And, binary(about("x"), BinaryOp::And, near())),
        binary(near(), BinaryOp::Or, about("x")),
        binary(about("x"), BinaryOp::Or, near()),
    ] {
        let filter = filter_on_article(predicate);
        let (op, _) = planner.try_plan_filter_compound_hybrid(&filter).unwrap().unwrap();
        for doc in every_doc() {
            assert_eq!(gives(doc, &op), meets(doc, &filter.predicate), "{doc:?}");
        }
    }
}

#[test]
fn text_predicate_keeps_the_stated_threshold() {
    let planner = test_planner();
    for op in [BinaryOp::Gt, BinaryOp::Ge] {
        let expr = binary(
            text_score_call("doc", "body", "x"),
            op,
            LogicalExpression::Literal(Value::Int64(3)),
        );
        let extracted = planner.extract_text_predicate(&expr).unwrap();
        assert_eq!(extracted.threshold, Threshold::Int64(3));
        assert!(extracted.remaining.is_none());
    }
    let extracted = planner.extract_text_predicate(&about("x")).unwrap();
    assert_eq!(threshold_value(extracted.threshold), 0.0);
}

#[test]
fn batches_have_one_entry_for_each_id() {
    let (store, nodes, edges) = setup_social_graph_with_ids();
    let proj =
        GraphProjection::new(store.clone(), ProjectionSpec::new().with_node_labels(&["Person"]));
    let key = PropertyKey::new("name");
    let names = proj.get_node_property_batch(&[nodes[2], nodes[0], nodes[0]], &key);
    assert_eq!(names, vec![None, Some(string("Alix")), Some(string("Alix"))]);
    let maps = proj.get_nodes_properties_selective_batch(&[nodes[1], nodes[2]], &[key]);
    assert_eq!(maps[0].get(&PropertyKey::new("name")), Some(&string("Gus")));
    assert!(maps[1].is_empty());
    assert_eq!(proj.get_edges_properties_selective_batch(&edges, &[]).len(), edges.len());
}

/// One column of a row: a document by its number, or a score.
#[derive(Clone, Copy, Debug, PartialEq)]
enum Cell {
    Null,
    Doc(usize),
    Score(u8),
}

/// The rows of a plan over documents. A text search scores a document 10 plus its
/// number, a vector search 20 plus its number.
fn rows_of(op: &TestOperator, docs: &[Doc]) -> Vec<Vec<Cell>> {
    match op {
        PhysicalOperator::Planned(scan) => {
            let text = scan.0.starts_with("TextScan");
            let base: u8 = if text { 10 } else { 20 };
            (0..docs.len())
                .filter(|i| if text { docs[*i].about } else { docs[*i].near })
                .map(|i| vec![Cell::Doc(i), Cell::Score(base + i as u8)])
                .collect()
        }
        PhysicalOperator::Filter { input, predicate } => {
            let at = *predicate.variable_columns.get("doc").unwrap();
            let mut rows = rows_of(input, docs);
            rows.retain(|row| match row[at] {
                Cell::Doc(i) => meets(docs[i], &predicate.expression),
                _ => panic!("expected a document"),
            });
            rows
        }
        PhysicalOperator::HashJoin { left, right, probe_keys, build_keys, join_type, .. } => {
            let (ls, rs) = (rows_of(left, docs), rows_of(right, docs));
            let same = |l: &Vec<Cell>, r: &Vec<Cell>| l[probe_keys[0]] == r[build_keys[0]];
            let mut rows = Vec::new();
            for l in &ls {
                for r in rs.iter().filter(|r| same(l, r)) {
                    rows.push([l.clone(), r.clone()].concat());
                }
            }
            if *join_type == PhysicalJoinType::Full {
                let nothing = vec![Cell::Null; 2];
                for l in ls.iter().filter(|l| !rs.iter().any(|r| same(l, r))) {
                    rows.push([l.clone(), nothing.clone()].concat());
                }
                for r in rs.iter().filter(|r| !ls.iter().any(|l| same(l, r))) {
                    rows.push([nothing.clone(), r.clone()].concat());
                }
            }
            rows
        }
        PhysicalOperator::Project { input, exprs, .. } => rows_of(input, docs)
            .iter()
            .map(|row| {
                exprs
                    .iter()
                    .map(|expr| match *expr {
                        ProjectExpr::Column(c) => row[c],
                        ProjectExpr::Coalesce { first, second } => {
                            if row[first] == Cell::Null {
                                row[second]
                            } else {
                                row[first]
                            }
                        }
                    })
                    .collect()
            })
            .collect(),
    }
}

fn sorted_rows(op: &TestOperator, docs: &[Doc]) -> Vec<Vec<Cell>> {
    let mut rows = rows_of(op, docs);
    rows.sort_by_key(|row| match row[0] {
        Cell::Doc(i) => i,
        _ => panic!("expected a document"),
    });
    rows
}

#[test]
fn text_plan_gives_each_node_once_with_its_score() {
    let planner = planner_with_indexes(Vec::new());
    let filter = filter_on_article(binary(published(), BinaryOp::And, about("x")));
    let (op, _) = planner.try_plan_filter_with_text_index(&filter).unwrap().unwrap();
    assert_eq!(
        sorted_rows(&op, &every_doc()),
        vec![
            vec![Cell::Doc(5), Cell::Score(15)],
            vec![Cell::Doc(7), Cell::Score(17)],
        ]
    );
}

#[test]
fn conjunction_gives_each_node_once_with_both_scores() {
    let planner = planner_with_indexes(Vec::new());
    for predicate in [
        binary(near(), BinaryOp::And, binary(about("x"), BinaryOp::And, published())),
        binary(binary(about("x"), BinaryOp::And, published()), BinaryOp::And, near()),
    ] {
        let filter = filter_on_article(predicate);
        let (op, _) = planner.try_plan_filter_compound_hybrid(&filter).unwrap().unwrap();
        assert_eq!(
            sorted_rows(&op, &every_doc()),
            vec![vec![Cell::Doc(7), Cell::Score(27), Cell::Score(17)]]
        );
    }
}

#[test]
fn disjunction_gives_each_node_once_with_the_scores_it_has() {
    let planner = planner_with_indexes(Vec::new());
    for predicate in [
        binary(near(), BinaryOp::Or, about("x")),
        binary(about("x"), BinaryOp::Or, near()),
    ] {
        let filter = filter_on_article(predicate);
        let (op, _) = planner.try_plan_filter_compound_hybrid(&filter).unwrap().unwrap();
        assert_eq!(
            sorted_rows(&op, &every_doc()[..4]),
            vec![
                vec![Cell::Doc(1), Cell::Null, Cell::Score(11)],
                vec![Cell::Doc(2), Cell::Score(22), Cell::Null],
                vec![Cell::Doc(3), Cell::Score(23), Cell::Score(13)],
            ]
        );
    }
}

#[test]
fn unfiltered_schema_lists_are_the_stores_in_order() {
    let (store, _, _) = setup_social_graph_with_ids();
    let proj = GraphProjection::new(store.clone(), ProjectionSpec::new());
    assert_eq!(proj.all_labels(), store.all_labels());
    assert_eq!(proj.all_edge_types(), store.all_edge_types());
    let proj = GraphProjection::new(
        store.clone(),
        ProjectionSpec::new().with_node_labels(&["Person"]),
    );
    assert_eq!(proj.all_labels(), vec!["Person".to_string()]);
    assert_eq!(proj.all_edge_types(), store.all_edge_types());
    assert_eq!(proj.all_property_keys(), store.all_property_keys());
}

#[test]
fn swapped_disjunction_has_the_same_columns_and_rows() {
    let planner = planner_with_indexes(Vec::new());
    let one = filter_on_article(binary(near(), BinaryOp::Or, about("x")));
    let other = filter_on_article(binary(about("x"), BinaryOp::Or, near()));
    let (op, columns) = planner.try_plan_filter_compound_hybrid(&one).unwrap().unwrap();
    let (op2, columns2) = planner.try_plan_filter_compound_hybrid(&other).unwrap().unwrap();
    assert_eq!(columns, columns2);
    assert_eq!(rows_of(&op, &every_doc()), rows_of(&op2, &every_doc()));
}

#[test]
fn scalar_rest_keeps_the_unanswered_conjuncts_and_itself() {
    let planner = planner_with_article();
    let mixed = || binary(near(), BinaryOp::Or, published());
    let pure = binary(near(), BinaryOp::Or, about("x"));
    let expr = binary(
        binary(mixed(), BinaryOp::And, about("y")),
        BinaryOp::And,
        binary(pure, BinaryOp::And, binary(near(), BinaryOp::And, published())),
    );
    let rest = planner.extract_scalar_remaining(&expr).unwrap();
    assert_eq!(shown(&rest), shown(&binary(mixed(), BinaryOp::And, published())));
    let again = planner.extract_scalar_remaining(&rest).unwrap();
    assert_eq!(shown(&again), shown(&rest));
}

#[test]
fn edge_count_is_the_number_of_edges_that_lookups_give() {
    let (store, _, edges) = setup_social_graph_with_ids();
    for spec in [
        ProjectionSpec::new(),
        ProjectionSpec::new().with_node_labels(&["Person", "City"]),
        ProjectionSpec::new().with_edge_types(&["KNOWS"]),
    ] {
        let proj = GraphProjection::new(store.clone(), spec);
        let visible = edges.iter().filter(|e| proj.get_edge(**e).is_some()).count();
        assert_eq!(proj.edge_count(), visible);
    }
}
