//! What a graph store answers.
//!
//! Each reading method of a store has a name in the model, which stands for
//! the answer that the store's state gives. The methods of one borrowed store
//! all read the same state: a store that other threads may change is read
//! through a snapshot of it.
//!
//! A verified store has to define these names. Their default bodies describe no
//! store, each being one arbitrary value; they are there for stores written in
//! ordinary Rust, which cannot define a name of the model.

use std::sync::Arc;

use arcstr::ArcStr;
use vstd::multiset::Multiset;
use vstd::prelude::*;

use super::entity::{opt_text, CompareOp, Direction, Edge, EdgeView, Node, NodeView};
use crate::text::{opt_view, seq_view};
use crate::types::{
    EdgeId, EpochId, FloatBits, NodeId, PropertyKey, PropertyMap, TransactionId, Value, ValueView,
};

verus! {

/// The model of the properties of one node or edge.
pub type Properties = Map<Seq<char>, ValueView>;

/// The views of optional values, in order.
pub open spec fn opt_values_view(s: Seq<Option<Value>>) -> Seq<Option<ValueView>> {
    s.map_values(|v: Option<Value>| opt_view(v))
}

/// The model of a list of conditions `property = value`.
pub open spec fn conditions_view(s: Seq<(&str, Value)>) -> Seq<(Seq<char>, ValueView)> {
    s.map_values(|c: (&str, Value)| (c.0@, c.1@))
}

/// A graph that can be read.
pub trait GraphStore {
    /// What the store keeps for cost estimates.
    type Statistics;

    // Point lookups

    /// The answer of [`GraphStore::get_node`].
    open spec fn spec_get_node(&self, id: NodeId) -> Option<NodeView> {
        arbitrary()
    }

    /// The node with an id.
    fn get_node(&self, id: NodeId) -> (r: Option<Node>)
        ensures
            opt_view(r) == self.spec_get_node(id),
    ;

    /// The answer of [`GraphStore::get_edge`].
    open spec fn spec_get_edge(&self, id: EdgeId) -> Option<EdgeView> {
        arbitrary()
    }

    /// The edge with an id.
    fn get_edge(&self, id: EdgeId) -> (r: Option<Edge>)
        ensures
            opt_view(r) == self.spec_get_edge(id),
    ;

    /// The answer of [`GraphStore::get_node_versioned`].
    open spec fn spec_get_node_versioned(
        &self,
        id: NodeId,
        epoch: EpochId,
        transaction_id: TransactionId,
    ) -> Option<NodeView> {
        arbitrary()
    }

    /// The node with an id, as a transaction sees it at an epoch.
    fn get_node_versioned(
        &self,
        id: NodeId,
        epoch: EpochId,
        transaction_id: TransactionId,
    ) -> (r: Option<Node>)
        ensures
            opt_view(r) == self.spec_get_node_versioned(id, epoch, transaction_id),
    ;

    /// The answer of [`GraphStore::get_edge_versioned`].
    open spec fn spec_get_edge_versioned(
        &self,
        id: EdgeId,
        epoch: EpochId,
        transaction_id: TransactionId,
    ) -> Option<EdgeView> {
        arbitrary()
    }

    /// The edge with an id, as a transaction sees it at an epoch.
    fn get_edge_versioned(
        &self,
        id: EdgeId,
        epoch: EpochId,
        transaction_id: TransactionId,
    ) -> (r: Option<Edge>)
        ensures
            opt_view(r) == self.spec_get_edge_versioned(id, epoch, transaction_id),
    ;

    /// The answer of [`GraphStore::get_node_at_epoch`].
    open spec fn spec_get_node_at_epoch(&self, id: NodeId, epoch: EpochId) -> Option<NodeView> {
        arbitrary()
    }

    /// The node with an id, as of an epoch.
    fn get_node_at_epoch(&self, id: NodeId, epoch: EpochId) -> (r: Option<Node>)
        ensures
            opt_view(r) == self.spec_get_node_at_epoch(id, epoch),
    ;

    /// The answer of [`GraphStore::get_edge_at_epoch`].
    open spec fn spec_get_edge_at_epoch(&self, id: EdgeId, epoch: EpochId) -> Option<EdgeView> {
        arbitrary()
    }

    /// The edge with an id, as of an epoch.
    fn get_edge_at_epoch(&self, id: EdgeId, epoch: EpochId) -> (r: Option<Edge>)
        ensures
            opt_view(r) == self.spec_get_edge_at_epoch(id, epoch),
    ;

    // Property access

    /// The answer of [`GraphStore::get_node_property`].
    open spec fn spec_get_node_property(&self, id: NodeId, key: Seq<char>) -> Option<ValueView> {
        arbitrary()
    }

    /// One property of a node.
    fn get_node_property(&self, id: NodeId, key: &PropertyKey) -> (r: Option<Value>)
        ensures
            opt_view(r) == self.spec_get_node_property(id, key@),
    ;

    /// The answer of [`GraphStore::get_edge_property`].
    open spec fn spec_get_edge_property(&self, id: EdgeId, key: Seq<char>) -> Option<ValueView> {
        arbitrary()
    }

    /// One property of an edge.
    fn get_edge_property(&self, id: EdgeId, key: &PropertyKey) -> (r: Option<Value>)
        ensures
            opt_view(r) == self.spec_get_edge_property(id, key@),
    ;

    /// The answer of [`GraphStore::get_node_property_batch`].
    open spec fn spec_get_node_property_batch(
        &self,
        ids: Seq<NodeId>,
        key: Seq<char>,
    ) -> Seq<Option<ValueView>> {
        arbitrary()
    }

    /// One property of several nodes, in the order of `ids`.
    fn get_node_property_batch(
        &self,
        ids: &[NodeId],
        key: &PropertyKey,
    ) -> (r: Vec<Option<Value>>)
        ensures
            opt_values_view(r@) == self.spec_get_node_property_batch(ids@, key@),
    ;

    /// The answer of [`GraphStore::get_nodes_properties_batch`].
    open spec fn spec_get_nodes_properties_batch(&self, ids: Seq<NodeId>) -> Seq<Properties> {
        arbitrary()
    }

    /// All properties of several nodes, in the order of `ids`.
    fn get_nodes_properties_batch(&self, ids: &[NodeId]) -> (r: Vec<PropertyMap>)
        ensures
            seq_view(r@) == self.spec_get_nodes_properties_batch(ids@),
    ;

    /// The answer of [`GraphStore::get_nodes_properties_selective_batch`].
    open spec fn spec_get_nodes_properties_selective_batch(
        &self,
        ids: Seq<NodeId>,
        keys: Seq<Seq<char>>,
    ) -> Seq<Properties> {
        arbitrary()
    }

    /// Chosen properties of several nodes, in the order of `ids`.
    fn get_nodes_properties_selective_batch(
        &self,
        ids: &[NodeId],
        keys: &[PropertyKey],
    ) -> (r: Vec<PropertyMap>)
        ensures
            seq_view(r@) == self.spec_get_nodes_properties_selective_batch(ids@, seq_view(keys@)),
    ;

    /// The answer of [`GraphStore::get_edges_properties_selective_batch`].
    open spec fn spec_get_edges_properties_selective_batch(
        &self,
        ids: Seq<EdgeId>,
        keys: Seq<Seq<char>>,
    ) -> Seq<Properties> {
        arbitrary()
    }

    /// Chosen properties of several edges, in the order of `ids`.
    fn get_edges_properties_selective_batch(
        &self,
        ids: &[EdgeId],
        keys: &[PropertyKey],
    ) -> (r: Vec<PropertyMap>)
        ensures
            seq_view(r@) == self.spec_get_edges_properties_selective_batch(ids@, seq_view(keys@)),
    ;

    // Traversal

    /// The answer of [`GraphStore::neighbors`].
    open spec fn spec_neighbors(&self, node: NodeId, direction: Direction) -> Seq<NodeId> {
        arbitrary()
    }

    /// The nodes at the other end of a node's edges.
    fn neighbors(&self, node: NodeId, direction: Direction) -> (r: Vec<NodeId>)
        ensures
            r@ == self.spec_neighbors(node, direction),
    ;

    /// The answer of [`GraphStore::edges_from`].
    open spec fn spec_edges_from(&self, node: NodeId, direction: Direction) -> Seq<(NodeId, EdgeId)> {
        arbitrary()
    }

    /// A node's edges, each with the node at its other end.
    fn edges_from(&self, node: NodeId, direction: Direction) -> (r: Vec<(NodeId, EdgeId)>)
        ensures
            r@ == self.spec_edges_from(node, direction),
    ;

    /// The answer of [`GraphStore::out_degree`].
    open spec fn spec_out_degree(&self, node: NodeId) -> nat {
        arbitrary()
    }

    /// The number of edges that leave a node.
    fn out_degree(&self, node: NodeId) -> (r: usize)
        ensures
            r == self.spec_out_degree(node),
    ;

    /// The answer of [`GraphStore::in_degree`].
    open spec fn spec_in_degree(&self, node: NodeId) -> nat {
        arbitrary()
    }

    /// The number of edges that enter a node.
    fn in_degree(&self, node: NodeId) -> (r: usize)
        ensures
            r == self.spec_in_degree(node),
    ;

    /// The answer of [`GraphStore::has_backward_adjacency`].
    open spec fn spec_has_backward_adjacency(&self) -> bool {
        arbitrary()
    }

    /// Whether edges can be followed against their direction.
    fn has_backward_adjacency(&self) -> (r: bool)
        ensures
            r == self.spec_has_backward_adjacency(),
    ;

    // Scans

    /// The answer of [`GraphStore::node_ids`].
    open spec fn spec_node_ids(&self) -> Seq<NodeId> {
        arbitrary()
    }

    /// The ids of the current nodes.
    fn node_ids(&self) -> (r: Vec<NodeId>)
        ensures
            r@ == self.spec_node_ids(),
    ;

    /// The answer of [`GraphStore::all_node_ids`].
    open spec fn spec_all_node_ids(&self) -> Seq<NodeId> {
        arbitrary()
    }

    /// The ids of all nodes, those that only some transaction sees included.
    fn all_node_ids(&self) -> (r: Vec<NodeId>)
        ensures
            r@ == self.spec_all_node_ids(),
    ;

    /// The answer of [`GraphStore::nodes_by_label`].
    open spec fn spec_nodes_by_label(&self, label: Seq<char>) -> Seq<NodeId> {
        arbitrary()
    }

    /// The nodes with a label.
    fn nodes_by_label(&self, label: &str) -> (r: Vec<NodeId>)
        ensures
            r@ == self.spec_nodes_by_label(label@),
    ;

    /// The answer of [`GraphStore::nodes_by_label_count`].
    open spec fn spec_nodes_by_label_count(&self, label: Seq<char>) -> nat {
        arbitrary()
    }

    /// The number of nodes with a label.
    fn nodes_by_label_count(&self, label: &str) -> (r: usize)
        ensures
            r == self.spec_nodes_by_label_count(label@),
    ;

    /// The answer of [`GraphStore::node_count`].
    open spec fn spec_node_count(&self) -> nat {
        arbitrary()
    }

    /// The number of nodes.
    fn node_count(&self) -> (r: usize)
        ensures
            r == self.spec_node_count(),
    ;

    /// The answer of [`GraphStore::edge_count`].
    open spec fn spec_edge_count(&self) -> nat {
        arbitrary()
    }

    /// The number of edges.
    fn edge_count(&self) -> (r: usize)
        requires
            self.spec_edge_count() <= usize::MAX,
        ensures
            r == self.spec_edge_count(),
    ;

    // Entity metadata

    /// The answer of [`GraphStore::edge_type`].
    open spec fn spec_edge_type(&self, id: EdgeId) -> Option<Seq<char>> {
        arbitrary()
    }

    /// The type of an edge.
    fn edge_type(&self, id: EdgeId) -> (r: Option<ArcStr>)
        ensures
            opt_text(r) == self.spec_edge_type(id),
    ;

    /// The answer of [`GraphStore::edge_type_versioned`].
    open spec fn spec_edge_type_versioned(
        &self,
        id: EdgeId,
        epoch: EpochId,
        transaction_id: TransactionId,
    ) -> Option<Seq<char>> {
        arbitrary()
    }

    /// The type of an edge, as a transaction sees it at an epoch.
    fn edge_type_versioned(
        &self,
        id: EdgeId,
        epoch: EpochId,
        transaction_id: TransactionId,
    ) -> (r: Option<ArcStr>)
        ensures
            opt_text(r) == self.spec_edge_type_versioned(id, epoch, transaction_id),
    ;

    // Index introspection

    /// The answer of [`GraphStore::has_property_index`].
    open spec fn spec_has_property_index(&self, property: Seq<char>) -> bool {
        arbitrary()
    }

    /// Whether there is an index on a property.
    fn has_property_index(&self, property: &str) -> (r: bool)
        ensures
            r == self.spec_has_property_index(property@),
    ;

    // Filtered search

    /// The answer of [`GraphStore::find_nodes_by_property`].
    open spec fn spec_find_nodes_by_property(
        &self,
        property: Seq<char>,
        value: ValueView,
    ) -> Seq<NodeId> {
        arbitrary()
    }

    /// The nodes whose property has a value.
    fn find_nodes_by_property(&self, property: &str, value: &Value) -> (r: Vec<NodeId>)
        ensures
            r@ == self.spec_find_nodes_by_property(property@, value@),
    ;

    /// The answer of [`GraphStore::find_nodes_by_properties`].
    open spec fn spec_find_nodes_by_properties(
        &self,
        conditions: Seq<(Seq<char>, ValueView)>,
    ) -> Seq<NodeId> {
        arbitrary()
    }

    /// The nodes that meet all of some conditions `property = value`.
    fn find_nodes_by_properties(&self, conditions: &[(&str, Value)]) -> (r: Vec<NodeId>)
        ensures
            r@ == self.spec_find_nodes_by_properties(conditions_view(conditions@)),
    ;

    /// The answer of [`GraphStore::find_nodes_in_range`].
    open spec fn spec_find_nodes_in_range(
        &self,
        property: Seq<char>,
        min: Option<ValueView>,
        max: Option<ValueView>,
        min_inclusive: bool,
        max_inclusive: bool,
    ) -> Seq<NodeId> {
        arbitrary()
    }

    /// The nodes whose property lies in a range.
    fn find_nodes_in_range(
        &self,
        property: &str,
        min: Option<&Value>,
        max: Option<&Value>,
        min_inclusive: bool,
        max_inclusive: bool,
    ) -> (r: Vec<NodeId>)
        ensures
            r@ == self.spec_find_nodes_in_range(property@, opt_view(min), opt_view(max), min_inclusive, max_inclusive),
    ;

    // Zone maps

    /// The answer of [`GraphStore::node_property_might_match`].
    open spec fn spec_node_property_might_match(
        &self,
        property: Seq<char>,
        op: CompareOp,
        value: ValueView,
    ) -> bool {
        arbitrary()
    }

    /// Whether some node's property may compare to a value in a given way.
    fn node_property_might_match(
        &self,
        property: &PropertyKey,
        op: CompareOp,
        value: &Value,
    ) -> (r: bool)
        ensures
            r == self.spec_node_property_might_match(property@, op, value@),
    ;

    /// The answer of [`GraphStore::edge_property_might_match`].
    open spec fn spec_edge_property_might_match(
        &self,
        property: Seq<char>,
        op: CompareOp,
        value: ValueView,
    ) -> bool {
        arbitrary()
    }

    /// Whether some edge's property may compare to a value in a given way.
    fn edge_property_might_match(
        &self,
        property: &PropertyKey,
        op: CompareOp,
        value: &Value,
    ) -> (r: bool)
        ensures
            r == self.spec_edge_property_might_match(property@, op, value@),
    ;

    // Statistics

    /// The answer of [`GraphStore::statistics`].
    open spec fn spec_statistics(&self) -> Arc<Self::Statistics> {
        arbitrary()
    }

    /// The statistics.
    fn statistics(&self) -> (r: Arc<Self::Statistics>)
        ensures
            r == self.spec_statistics(),
    ;

    /// The answer of [`GraphStore::estimate_label_cardinality`].
    open spec fn spec_estimate_label_cardinality(&self, label: Seq<char>) -> FloatBits {
        arbitrary()
    }

    /// An estimate of the number of nodes with a label.
    fn estimate_label_cardinality(&self, label: &str) -> (r: FloatBits)
        ensures
            r == self.spec_estimate_label_cardinality(label@),
    ;

    /// The answer of [`GraphStore::estimate_avg_degree`].
    open spec fn spec_estimate_avg_degree(&self, edge_type: Seq<char>, outgoing: bool) -> FloatBits {
        arbitrary()
    }

    /// An estimate of the mean number of edges of a type at a node.
    fn estimate_avg_degree(&self, edge_type: &str, outgoing: bool) -> (r: FloatBits)
        ensures
            r == self.spec_estimate_avg_degree(edge_type@, outgoing),
    ;

    // Epoch

    /// The answer of [`GraphStore::current_epoch`].
    open spec fn spec_current_epoch(&self) -> EpochId {
        arbitrary()
    }

    /// The current epoch.
    fn current_epoch(&self) -> (r: EpochId)
        ensures
            r == self.spec_current_epoch(),
    ;

    // Schema introspection

    /// The answer of [`GraphStore::all_labels`].
    open spec fn spec_all_labels(&self) -> Multiset<Seq<char>> {
        arbitrary()
    }

    /// The labels in use. Their order is left open.
    fn all_labels(&self) -> (r: Vec<String>)
        ensures
            seq_view(r@).to_multiset() == self.spec_all_labels(),
    ;

    /// The answer of [`GraphStore::all_edge_types`].
    open spec fn spec_all_edge_types(&self) -> Multiset<Seq<char>> {
        arbitrary()
    }

    /// The edge types in use. Their order is left open.
    fn all_edge_types(&self) -> (r: Vec<String>)
        ensures
            seq_view(r@).to_multiset() == self.spec_all_edge_types(),
    ;

    /// The answer of [`GraphStore::all_property_keys`].
    open spec fn spec_all_property_keys(&self) -> Multiset<Seq<char>> {
        arbitrary()
    }

    /// The property keys in use. Their order is left open.
    fn all_property_keys(&self) -> (r: Vec<String>)
        ensures
            seq_view(r@).to_multiset() == self.spec_all_property_keys(),
    ;
}

/// A store that may keep search indexes.
pub trait GraphStoreSearch: GraphStore {
    /// The answer of [`GraphStoreSearch::has_text_index`].
    open spec fn spec_has_text_index(&self, label: Seq<char>, property: Seq<char>) -> bool {
        arbitrary()
    }

    /// Whether there is a text index on a property of the nodes with a label.
    fn has_text_index(&self, label: &str, property: &str) -> (r: bool)
        ensures
            r == self.spec_has_text_index(label@, property@),
    ;

    /// The answer of [`GraphStoreSearch::has_vector_index`].
    open spec fn spec_has_vector_index(&self, label: Seq<char>, property: Seq<char>) -> bool {
        arbitrary()
    }

    /// Whether there is a vector index on a property of the nodes with a label.
    fn has_vector_index(&self, label: &str, property: &str) -> (r: bool)
        ensures
            r == self.spec_has_vector_index(label@, property@),
    ;
}

} // verus!
