//! Graph projections: read-only, filtered views of a graph store.
//!
//! A [`GraphProjection`] wraps an existing store and presents the subgraph that
//! a [`ProjectionSpec`] defines. Only nodes with a matching label, and edges
//! with a matching type whose endpoints are both in the projection, are
//! visible. Projections are read-only.

use std::sync::Arc;

use arcstr::ArcStr;
use vstd::multiset::Multiset;
use vstd::prelude::*;

use super::entity::{CompareOp, Direction, Edge, EdgeView, Node, NodeView};
use super::store::{opt_values_view, GraphStore, GraphStoreSearch, Properties};
use crate::seqs::{
    lemma_filter_all, lemma_filter_step, lemma_to_multiset_of_distinct, lemma_total_step,
    lemma_total_take, total,
};
use crate::text::{arc_as_str, opt_view, seq_view, NameSet};
use crate::types::{
    EdgeId, EpochId, FloatBits, NodeId, PropertyKey, PropertyMap, TransactionId, Value, ValueView,
};

verus! {

/// Which nodes and edges a projection shows.
#[derive(Debug)]
pub struct ProjectionSpec {
    node_labels: NameSet,
    edge_types: NameSet,
}

/// The model of a [`ProjectionSpec`].
pub struct ProjectionSpecView {
    /// The labels to show. None means that all nodes are shown.
    pub node_labels: Set<Seq<char>>,
    /// The edge types to show. None means that all types are shown.
    pub edge_types: Set<Seq<char>>,
}

impl ProjectionSpecView {
    /// Whether nodes are filtered by label.
    pub open spec fn filters_labels(self) -> bool {
        self.node_labels != Set::<Seq<char>>::empty()
    }

    /// Whether edges are filtered by type.
    pub open spec fn filters_edge_types(self) -> bool {
        self.edge_types != Set::<Seq<char>>::empty()
    }

    /// Whether a node with these labels is shown.
    pub open spec fn keeps_labels(self, labels: Seq<Seq<char>>) -> bool {
        self.filters_labels() ==> exists|i: int|
            0 <= i < labels.len() && self.node_labels.contains(#[trigger] labels[i])
    }

    /// Whether an edge of this type may be shown.
    pub open spec fn keeps_type(self, edge_type: Seq<char>) -> bool {
        self.filters_edge_types() ==> self.edge_types.contains(edge_type)
    }

    /// Whether the nodes with a given label can be listed.
    pub open spec fn lists_label(self, label: Seq<char>) -> bool {
        self.filters_labels() ==> self.node_labels.contains(label)
    }
}

impl View for ProjectionSpec {
    type V = ProjectionSpecView;

    closed spec fn view(&self) -> ProjectionSpecView {
        ProjectionSpecView { node_labels: self.node_labels@, edge_types: self.edge_types@ }
    }
}

impl Default for ProjectionSpec {
    fn default() -> (r: Self)
        ensures
            r@.node_labels == Set::<Seq<char>>::empty(),
            r@.edge_types == Set::<Seq<char>>::empty(),
    {
        ProjectionSpec { node_labels: NameSet::new(), edge_types: NameSet::new() }
    }
}

impl Clone for ProjectionSpec {
    fn clone(&self) -> (r: Self)
        ensures
            r@ == self@,
    {
        ProjectionSpec { node_labels: self.node_labels.clone(), edge_types: self.edge_types.clone() }
    }
}

impl ProjectionSpec {
    /// The spec that shows all nodes and all edges.
    #[must_use]
    pub fn new() -> (r: Self)
        ensures
            r@.node_labels == Set::<Seq<char>>::empty(),
            r@.edge_types == Set::<Seq<char>>::empty(),
    {
        Self::default()
    }

    /// Restricts the projection to nodes with any of these labels.
    #[must_use]
    pub fn with_node_labels(self, labels: &[&str]) -> (r: Self)
        ensures
            r@.node_labels == seq_view(labels@).to_set(),
            r@.edge_types == self@.edge_types,
    {
        ProjectionSpec { node_labels: NameSet::from_names(labels), edge_types: self.edge_types }
    }

    /// Restricts the projection to edges with any of these types.
    #[must_use]
    pub fn with_edge_types(self, types: &[&str]) -> (r: Self)
        ensures
            r@.node_labels == self@.node_labels,
            r@.edge_types == seq_view(types@).to_set(),
    {
        ProjectionSpec { node_labels: self.node_labels, edge_types: NameSet::from_names(types) }
    }

    /// Whether nodes are filtered by label.
    fn filters_labels(&self) -> (r: bool)
        ensures
            r == self@.filters_labels(),
    {
        !self.node_labels.is_empty()
    }

    /// Whether edges are filtered by type.
    fn filters_edge_types(&self) -> (r: bool)
        ensures
            r == self@.filters_edge_types(),
    {
        !self.edge_types.is_empty()
    }

    /// Whether the nodes with a given label can be listed.
    fn lists_label(&self, label: &str) -> (r: bool)
        ensures
            r == self@.lists_label(label@),
    {
        !self.filters_labels() || self.node_labels.contains(label)
    }
}

/// A read-only, filtered view of a graph store.
///
/// All reads go to the inner store; what they return is filtered by the
/// [`ProjectionSpec`]. Nodes without a matching label and edges without a
/// matching type are invisible.
pub struct GraphProjection<S: GraphStoreSearch + ?Sized> {
    inner: Arc<S>,
    spec: ProjectionSpec,
}

/// The first of some property maps, or the empty one if there is none.
pub open spec fn first_or_empty(maps: Seq<Properties>) -> Properties {
    if maps.len() > 0 {
        maps[0]
    } else {
        Map::empty()
    }
}

fn take_first_or_empty(maps: Vec<PropertyMap>) -> (r: PropertyMap)
    ensures
        r@ == first_or_empty(seq_view(maps@)),
{
    let mut maps = maps;
    if maps.len() > 0 {
        maps.remove(0)
    } else {
        PropertyMap::new()
    }
}

impl<S: GraphStoreSearch + ?Sized> GraphProjection<S> {
    /// The store that the projection reads.
    pub closed spec fn base(&self) -> Arc<S> {
        self.inner
    }

    /// What the projection shows.
    pub closed spec fn filter(&self) -> ProjectionSpecView {
        self.spec@
    }

    /// Whether a node, by its id, is in the projection. Without a label filter
    /// every id is; with one, the node must exist and have a label that the
    /// filter names.
    pub open spec fn node_visible(&self, id: NodeId) -> bool {
        self.filter().filters_labels() ==> match self.base().spec_get_node(id) {
            Some(n) => self.filter().keeps_labels(n.labels),
            None => false,
        }
    }

    /// Whether an edge is in the projection: its type is shown, and so are the
    /// nodes at both of its ends.
    pub open spec fn edge_visible(&self, edge: EdgeView) -> bool {
        &&& self.filter().keeps_type(edge.edge_type)
        &&& self.node_visible(edge.src)
        &&& self.node_visible(edge.dst)
    }

    /// A node that was read, if it is in the projection.
    pub open spec fn shown_node(&self, node: Option<NodeView>) -> Option<NodeView> {
        match node {
            Some(n) => if self.filter().keeps_labels(n.labels) {
                Some(n)
            } else {
                None
            },
            None => None,
        }
    }

    /// An edge that was read, if it is in the projection.
    pub open spec fn shown_edge(&self, edge: Option<EdgeView>) -> Option<EdgeView> {
        match edge {
            Some(e) => if self.edge_visible(e) {
                Some(e)
            } else {
                None
            },
            None => None,
        }
    }

    /// An edge type that was read together with its edge, if the type is shown
    /// and, where nodes are filtered, both ends of the edge are.
    pub open spec fn shown_type(
        &self,
        edge_type: Option<Seq<char>>,
        edge: Option<EdgeView>,
    ) -> Option<Seq<char>> {
        match edge_type {
            Some(t) => if self.filter().keeps_type(t) && (self.filter().filters_labels()
                ==> match edge {
                Some(e) => self.node_visible(e.src) && self.node_visible(e.dst),
                None => false,
            }) {
                Some(t)
            } else {
                None
            },
            None => None,
        }
    }

    /// Whether an edge is followed to a node: the node is in the projection and
    /// the edge has a type that is shown.
    pub open spec fn step_visible(&self, step: (NodeId, EdgeId)) -> bool {
        &&& self.node_visible(step.0)
        &&& match self.base().spec_edge_type(step.1) {
            Some(t) => self.filter().keeps_type(t),
            None => false,
        }
    }

    /// Those of some nodes that are in the projection, in the same order.
    pub open spec fn shown_ids(&self, ids: Seq<NodeId>) -> Seq<NodeId> {
        ids.filter(|id: NodeId| self.node_visible(id))
    }

    /// A new projection of a store.
    pub fn new(inner: Arc<S>, spec: ProjectionSpec) -> (r: Self)
        ensures
            r.base() == inner,
            r.filter() == spec@,
    {
        GraphProjection { inner, spec }
    }

    /// Whether a node passes the label filter.
    fn node_matches(&self, node: &Node) -> (r: bool)
        ensures
            r == self.filter().keeps_labels(node@.labels),
    {
        if !self.spec.filters_labels() {
            return true;
        }
        let mut i: usize = 0;
        while i < node.labels.len()
            invariant
                i <= node.labels@.len(),
                self.filter() == self.spec@,
                self.filter().filters_labels(),
                forall|j: int|
                    0 <= j < i ==> !self.filter().node_labels.contains(
                        #[trigger] node@.labels[j],
                    ),
            decreases node.labels@.len() - i,
        {
            if self.spec.node_labels.contains(arc_as_str(&node.labels[i])) {
                assert(self.filter().node_labels.contains(node@.labels[i as int]));
                return true;
            }
            i += 1;
        }
        false
    }

    /// Whether a node, by its id, passes the label filter.
    fn node_id_matches(&self, id: NodeId) -> (r: bool)
        ensures
            r == self.node_visible(id),
    {
        if !self.spec.filters_labels() {
            return true;
        }
        match self.inner.get_node(id) {
            Some(n) => self.node_matches(&n),
            None => false,
        }
    }

    /// Whether an edge type passes the type filter.
    fn edge_type_matches(&self, edge_type: &str) -> (r: bool)
        ensures
            r == self.filter().keeps_type(edge_type@),
    {
        if !self.spec.filters_edge_types() {
            return true;
        }
        self.spec.edge_types.contains(edge_type)
    }

    /// Whether an edge passes the type filter and its ends the label filter.
    fn edge_matches(&self, edge: &Edge) -> (r: bool)
        ensures
            r == self.edge_visible(edge@),
    {
        if !self.edge_type_matches(arc_as_str(&edge.edge_type)) {
            return false;
        }
        self.node_id_matches(edge.src) && self.node_id_matches(edge.dst)
    }

    /// Keeps a node that passes the label filter.
    fn filter_node(&self, node: Option<Node>) -> (r: Option<Node>)
        ensures
            opt_view(r) == self.shown_node(opt_view(node)),
    {
        match node {
            Some(n) => if self.node_matches(&n) {
                Some(n)
            } else {
                None
            },
            None => None,
        }
    }

    /// Keeps an edge that passes both filters.
    fn filter_edge(&self, edge: Option<Edge>) -> (r: Option<Edge>)
        ensures
            opt_view(r) == self.shown_edge(opt_view(edge)),
    {
        match edge {
            Some(e) => if self.edge_matches(&e) {
                Some(e)
            } else {
                None
            },
            None => None,
        }
    }

    /// Keeps the nodes that pass the label filter.
    fn filter_ids(&self, ids: Vec<NodeId>) -> (r: Vec<NodeId>)
        ensures
            r@ == self.shown_ids(ids@),
    {
        let ghost keep = |id: NodeId| self.node_visible(id);
        let mut kept: Vec<NodeId> = Vec::new();
        let mut i: usize = 0;
        assert(ids@.take(0).filter(keep) =~= Seq::<NodeId>::empty()) by {
            reveal(Seq::filter);
        }
        while i < ids.len()
            invariant
                i <= ids@.len(),
                keep == (|id: NodeId| self.node_visible(id)),
                kept@ == ids@.take(i as int).filter(keep),
            decreases ids@.len() - i,
        {
            let id: NodeId = ids[i];
            proof {
                lemma_filter_step(ids@, keep, i as int);
            }
            if self.node_id_matches(id) {
                kept.push(id);
            }
            i += 1;
        }
        assert(ids@.take(i as int) =~= ids@);
        kept
    }
}

impl<S: GraphStoreSearch + ?Sized> GraphStore for GraphProjection<S> {
    type Statistics = S::Statistics;

    // Point lookups

    open spec fn spec_get_node(&self, id: NodeId) -> Option<NodeView> {
        self.shown_node(self.base().spec_get_node(id))
    }

    fn get_node(&self, id: NodeId) -> (r: Option<Node>) {
        self.filter_node(self.inner.get_node(id))
    }

    open spec fn spec_get_edge(&self, id: EdgeId) -> Option<EdgeView> {
        self.shown_edge(self.base().spec_get_edge(id))
    }

    fn get_edge(&self, id: EdgeId) -> (r: Option<Edge>) {
        self.filter_edge(self.inner.get_edge(id))
    }

    open spec fn spec_get_node_versioned(
        &self,
        id: NodeId,
        epoch: EpochId,
        transaction_id: TransactionId,
    ) -> Option<NodeView> {
        self.shown_node(self.base().spec_get_node_versioned(id, epoch, transaction_id))
    }

    fn get_node_versioned(
        &self,
        id: NodeId,
        epoch: EpochId,
        transaction_id: TransactionId,
    ) -> (r: Option<Node>) {
        self.filter_node(self.inner.get_node_versioned(id, epoch, transaction_id))
    }

    open spec fn spec_get_edge_versioned(
        &self,
        id: EdgeId,
        epoch: EpochId,
        transaction_id: TransactionId,
    ) -> Option<EdgeView> {
        self.shown_edge(self.base().spec_get_edge_versioned(id, epoch, transaction_id))
    }

    // The ends of the edge are looked up in the current state of the store, not
    // in the requested version: a projection keeps no epoch or transaction.
    fn get_edge_versioned(
        &self,
        id: EdgeId,
        epoch: EpochId,
        transaction_id: TransactionId,
    ) -> (r: Option<Edge>) {
        self.filter_edge(self.inner.get_edge_versioned(id, epoch, transaction_id))
    }

    open spec fn spec_get_node_at_epoch(&self, id: NodeId, epoch: EpochId) -> Option<NodeView> {
        self.shown_node(self.base().spec_get_node_at_epoch(id, epoch))
    }

    fn get_node_at_epoch(&self, id: NodeId, epoch: EpochId) -> (r: Option<Node>) {
        self.filter_node(self.inner.get_node_at_epoch(id, epoch))
    }

    open spec fn spec_get_edge_at_epoch(&self, id: EdgeId, epoch: EpochId) -> Option<EdgeView> {
        self.shown_edge(self.base().spec_get_edge_at_epoch(id, epoch))
    }

    fn get_edge_at_epoch(&self, id: EdgeId, epoch: EpochId) -> (r: Option<Edge>) {
        self.filter_edge(self.inner.get_edge_at_epoch(id, epoch))
    }

    // Property access

    open spec fn spec_get_node_property(&self, id: NodeId, key: Seq<char>) -> Option<ValueView> {
        if self.node_visible(id) {
            self.base().spec_get_node_property(id, key)
        } else {
            None
        }
    }

    fn get_node_property(&self, id: NodeId, key: &PropertyKey) -> (r: Option<Value>) {
        if !self.node_id_matches(id) {
            return None;
        }
        self.inner.get_node_property(id, key)
    }

    open spec fn spec_get_edge_property(&self, id: EdgeId, key: Seq<char>) -> Option<ValueView> {
        if self.spec_get_edge(id) is Some {
            self.base().spec_get_edge_property(id, key)
        } else {
            None
        }
    }

    fn get_edge_property(&self, id: EdgeId, key: &PropertyKey) -> (r: Option<Value>) {
        match self.get_edge(id) {
            Some(_) => self.inner.get_edge_property(id, key),
            None => None,
        }
    }

    open spec fn spec_get_node_property_batch(
        &self,
        ids: Seq<NodeId>,
        key: Seq<char>,
    ) -> Seq<Option<ValueView>> {
        ids.map_values(|id: NodeId| self.spec_get_node_property(id, key))
    }

    fn get_node_property_batch(
        &self,
        ids: &[NodeId],
        key: &PropertyKey,
    ) -> (r: Vec<Option<Value>>) {
        let mut values: Vec<Option<Value>> = Vec::new();
        let mut i: usize = 0;
        while i < ids.len()
            invariant
                i <= ids@.len(),
                values@.len() == i,
                forall|j: int|
                    0 <= j < i ==> opt_view(#[trigger] values@[j]) == self.spec_get_node_property(
                        ids@[j],
                        key@,
                    ),
            decreases ids@.len() - i,
        {
            values.push(self.get_node_property(ids[i], key));
            i += 1;
        }
        assert(opt_values_view(values@) =~= self.spec_get_node_property_batch(ids@, key@));
        values
    }

    open spec fn spec_get_nodes_properties_batch(&self, ids: Seq<NodeId>) -> Seq<Properties> {
        ids.map_values(
            |id: NodeId|
                if self.node_visible(id) {
                    first_or_empty(self.base().spec_get_nodes_properties_batch(seq![id]))
                } else {
                    Map::empty()
                },
        )
    }

    fn get_nodes_properties_batch(&self, ids: &[NodeId]) -> (r: Vec<PropertyMap>) {
        let mut maps: Vec<PropertyMap> = Vec::new();
        let mut i: usize = 0;
        let ghost expected = self.spec_get_nodes_properties_batch(ids@);
        while i < ids.len()
            invariant
                i <= ids@.len(),
                maps@.len() == i,
                expected == self.spec_get_nodes_properties_batch(ids@),
                forall|j: int| 0 <= j < i ==> (#[trigger] maps@[j])@ == expected[j],
            decreases ids@.len() - i,
        {
            let id: NodeId = ids[i];
            if self.node_id_matches(id) {
                let one = vec![id];
                assert(one@ =~= seq![id]);
                let found = self.inner.get_nodes_properties_batch(one.as_slice());
                maps.push(take_first_or_empty(found));
            } else {
                maps.push(PropertyMap::new());
            }
            i += 1;
        }
        assert(seq_view(maps@) =~= expected);
        maps
    }

    open spec fn spec_get_nodes_properties_selective_batch(
        &self,
        ids: Seq<NodeId>,
        keys: Seq<Seq<char>>,
    ) -> Seq<Properties> {
        ids.map_values(
            |id: NodeId|
                if self.node_visible(id) {
                    first_or_empty(
                        self.base().spec_get_nodes_properties_selective_batch(seq![id], keys),
                    )
                } else {
                    Map::empty()
                },
        )
    }

    fn get_nodes_properties_selective_batch(
        &self,
        ids: &[NodeId],
        keys: &[PropertyKey],
    ) -> (r: Vec<PropertyMap>) {
        let mut maps: Vec<PropertyMap> = Vec::new();
        let mut i: usize = 0;
        let ghost expected = self.spec_get_nodes_properties_selective_batch(ids@, seq_view(keys@));
        while i < ids.len()
            invariant
                i <= ids@.len(),
                maps@.len() == i,
                expected == self.spec_get_nodes_properties_selective_batch(ids@, seq_view(keys@)),
                forall|j: int| 0 <= j < i ==> (#[trigger] maps@[j])@ == expected[j],
            decreases ids@.len() - i,
        {
            let id: NodeId = ids[i];
            if self.node_id_matches(id) {
                let one = vec![id];
                assert(one@ =~= seq![id]);
                let found = self.inner.get_nodes_properties_selective_batch(one.as_slice(), keys);
                maps.push(take_first_or_empty(found));
            } else {
                maps.push(PropertyMap::new());
            }
            i += 1;
        }
        assert(seq_view(maps@) =~= expected);
        maps
    }

    open spec fn spec_get_edges_properties_selective_batch(
        &self,
        ids: Seq<EdgeId>,
        keys: Seq<Seq<char>>,
    ) -> Seq<Properties> {
        ids.map_values(
            |id: EdgeId|
                if self.spec_get_edge(id) is Some {
                    first_or_empty(
                        self.base().spec_get_edges_properties_selective_batch(seq![id], keys),
                    )
                } else {
                    Map::empty()
                },
        )
    }

    fn get_edges_properties_selective_batch(
        &self,
        ids: &[EdgeId],
        keys: &[PropertyKey],
    ) -> (r: Vec<PropertyMap>) {
        let mut maps: Vec<PropertyMap> = Vec::new();
        let mut i: usize = 0;
        let ghost expected = self.spec_get_edges_properties_selective_batch(ids@, seq_view(keys@));
        while i < ids.len()
            invariant
                i <= ids@.len(),
                maps@.len() == i,
                expected == self.spec_get_edges_properties_selective_batch(ids@, seq_view(keys@)),
                forall|j: int| 0 <= j < i ==> (#[trigger] maps@[j])@ == expected[j],
            decreases ids@.len() - i,
        {
            let id: EdgeId = ids[i];
            if self.get_edge(id).is_some() {
                let one = vec![id];
                assert(one@ =~= seq![id]);
                let found = self.inner.get_edges_properties_selective_batch(one.as_slice(), keys);
                maps.push(take_first_or_empty(found));
            } else {
                maps.push(PropertyMap::new());
            }
            i += 1;
        }
        assert(seq_view(maps@) =~= expected);
        maps
    }

    // Traversal

    open spec fn spec_neighbors(&self, node: NodeId, direction: Direction) -> Seq<NodeId> {
        self.spec_edges_from(node, direction).map_values(|step: (NodeId, EdgeId)| step.0)
    }

    fn neighbors(&self, node: NodeId, direction: Direction) -> (r: Vec<NodeId>) {
        if !self.node_id_matches(node) {
            let none: Vec<NodeId> = Vec::new();
            assert(none@ =~= self.spec_neighbors(node, direction));
            return none;
        }
        let steps = self.edges_from(node, direction);
        let mut targets: Vec<NodeId> = Vec::new();
        let mut i: usize = 0;
        while i < steps.len()
            invariant
                i <= steps@.len(),
                targets@.len() == i,
                forall|j: int| 0 <= j < i ==> #[trigger] targets@[j] == steps@[j].0,
            decreases steps@.len() - i,
        {
            targets.push(steps[i].0);
            i += 1;
        }
        assert(targets@ =~= self.spec_neighbors(node, direction));
        targets
    }

    open spec fn spec_edges_from(
        &self,
        node: NodeId,
        direction: Direction,
    ) -> Seq<(NodeId, EdgeId)> {
        if self.node_visible(node) {
            self.base().spec_edges_from(node, direction).filter(
                |step: (NodeId, EdgeId)| self.step_visible(step),
            )
        } else {
            Seq::empty()
        }
    }

    fn edges_from(&self, node: NodeId, direction: Direction) -> (r: Vec<(NodeId, EdgeId)>) {
        if !self.node_id_matches(node) {
            return Vec::new();
        }
        let steps = self.inner.edges_from(node, direction);
        let ghost keep = |step: (NodeId, EdgeId)| self.step_visible(step);
        let mut kept: Vec<(NodeId, EdgeId)> = Vec::new();
        let mut i: usize = 0;
        assert(steps@.take(0).filter(keep) =~= Seq::<(NodeId, EdgeId)>::empty()) by {
            reveal(Seq::filter);
        }
        while i < steps.len()
            invariant
                i <= steps@.len(),
                keep == (|step: (NodeId, EdgeId)| self.step_visible(step)),
                kept@ == steps@.take(i as int).filter(keep),
            decreases steps@.len() - i,
        {
            let (target, edge_id) = steps[i];
            proof {
                lemma_filter_step(steps@, keep, i as int);
            }
            let follow = self.node_id_matches(target) && match self.inner.edge_type(edge_id) {
                Some(t) => self.edge_type_matches(arc_as_str(&t)),
                None => false,
            };
            if follow {
                kept.push((target, edge_id));
            }
            i += 1;
        }
        assert(steps@.take(i as int) =~= steps@);
        kept
    }

    open spec fn spec_out_degree(&self, node: NodeId) -> nat {
        self.spec_edges_from(node, Direction::Outgoing).len()
    }

    fn out_degree(&self, node: NodeId) -> (r: usize) {
        self.edges_from(node, Direction::Outgoing).len()
    }

    open spec fn spec_in_degree(&self, node: NodeId) -> nat {
        self.spec_edges_from(node, Direction::Incoming).len()
    }

    fn in_degree(&self, node: NodeId) -> (r: usize) {
        self.edges_from(node, Direction::Incoming).len()
    }

    open spec fn spec_has_backward_adjacency(&self) -> bool {
        self.base().spec_has_backward_adjacency()
    }

    fn has_backward_adjacency(&self) -> (r: bool) {
        self.inner.has_backward_adjacency()
    }

    // Scans

    open spec fn spec_node_ids(&self) -> Seq<NodeId> {
        self.shown_ids(self.base().spec_node_ids())
    }

    fn node_ids(&self) -> (r: Vec<NodeId>) {
        let ids = self.inner.node_ids();
        if !self.spec.filters_labels() {
            proof {
                lemma_filter_all(ids@, |id: NodeId| self.node_visible(id));
            }
            return ids;
        }
        self.filter_ids(ids)
    }

    open spec fn spec_all_node_ids(&self) -> Seq<NodeId> {
        self.shown_ids(self.base().spec_all_node_ids())
    }

    fn all_node_ids(&self) -> (r: Vec<NodeId>) {
        let ids = self.inner.all_node_ids();
        if !self.spec.filters_labels() {
            proof {
                lemma_filter_all(ids@, |id: NodeId| self.node_visible(id));
            }
            return ids;
        }
        self.filter_ids(ids)
    }

    open spec fn spec_nodes_by_label(&self, label: Seq<char>) -> Seq<NodeId> {
        if self.filter().lists_label(label) {
            self.base().spec_nodes_by_label(label)
        } else {
            Seq::empty()
        }
    }

    fn nodes_by_label(&self, label: &str) -> (r: Vec<NodeId>) {
        if !self.spec.lists_label(label) {
            return Vec::new();
        }
        self.inner.nodes_by_label(label)
    }

    open spec fn spec_nodes_by_label_count(&self, label: Seq<char>) -> nat {
        if self.filter().lists_label(label) {
            self.base().spec_nodes_by_label_count(label)
        } else {
            0
        }
    }

    fn nodes_by_label_count(&self, label: &str) -> (r: usize) {
        if !self.spec.lists_label(label) {
            return 0;
        }
        self.inner.nodes_by_label_count(label)
    }

    open spec fn spec_node_count(&self) -> nat {
        self.spec_node_ids().len()
    }

    fn node_count(&self) -> (r: usize) {
        self.node_ids().len()
    }

    open spec fn spec_edge_count(&self) -> nat {
        if !self.filter().filters_edge_types() && !self.filter().filters_labels() {
            self.base().spec_edge_count()
        } else {
            total(self.spec_node_ids().map_values(|id: NodeId| self.spec_out_degree(id)))
        }
    }

    fn edge_count(&self) -> (r: usize) {
        if !self.spec.filters_edge_types() && !self.spec.filters_labels() {
            return self.inner.edge_count();
        }
        let ids = self.node_ids();
        let ghost degrees = ids@.map_values(|id: NodeId| self.spec_out_degree(id));
        let mut count: usize = 0;
        let mut i: usize = 0;
        while i < ids.len()
            invariant
                i <= ids@.len(),
                degrees == ids@.map_values(|id: NodeId| self.spec_out_degree(id)),
                count == total(degrees.take(i as int)),
                total(degrees) <= usize::MAX,
            decreases ids@.len() - i,
        {
            proof {
                lemma_total_step(degrees, i as int);
                lemma_total_take(degrees, i + 1);
            }
            count += self.out_degree(ids[i]);
            i += 1;
        }
        assert(degrees.take(i as int) =~= degrees);
        count
    }

    // Entity metadata

    open spec fn spec_edge_type(&self, id: EdgeId) -> Option<Seq<char>> {
        self.shown_type(
            self.base().spec_edge_type(id),
            self.base().spec_get_edge(id),
        )
    }

    fn edge_type(&self, id: EdgeId) -> (r: Option<ArcStr>) {
        let et: ArcStr = match self.inner.edge_type(id) {
            Some(et) => et,
            None => return None,
        };
        // The type is checked first: that needs no edge.
        if !self.edge_type_matches(arc_as_str(&et)) {
            return None;
        }
        if self.spec.filters_labels() {
            let edge: Edge = match self.inner.get_edge(id) {
                Some(edge) => edge,
                None => return None,
            };
            if !self.node_id_matches(edge.src) || !self.node_id_matches(edge.dst) {
                return None;
            }
        }
        Some(et)
    }

    open spec fn spec_edge_type_versioned(
        &self,
        id: EdgeId,
        epoch: EpochId,
        transaction_id: TransactionId,
    ) -> Option<Seq<char>> {
        self.shown_type(
            self.base().spec_edge_type_versioned(id, epoch, transaction_id),
            self.base().spec_get_edge_versioned(id, epoch, transaction_id),
        )
    }

    // As in `get_edge_versioned`, the ends are looked up in the current state.
    fn edge_type_versioned(
        &self,
        id: EdgeId,
        epoch: EpochId,
        transaction_id: TransactionId,
    ) -> (r: Option<ArcStr>) {
        let et: ArcStr = match self.inner.edge_type_versioned(id, epoch, transaction_id) {
            Some(et) => et,
            None => return None,
        };
        // The type is checked first: that needs no edge.
        if !self.edge_type_matches(arc_as_str(&et)) {
            return None;
        }
        if self.spec.filters_labels() {
            let edge: Edge = match self.inner.get_edge_versioned(id, epoch, transaction_id) {
                Some(edge) => edge,
                None => return None,
            };
            if !self.node_id_matches(edge.src) || !self.node_id_matches(edge.dst) {
                return None;
            }
        }
        Some(et)
    }

    // Index introspection

    open spec fn spec_has_property_index(&self, property: Seq<char>) -> bool {
        self.base().spec_has_property_index(property)
    }

    fn has_property_index(&self, property: &str) -> (r: bool) {
        self.inner.has_property_index(property)
    }

    // Filtered search

    open spec fn spec_find_nodes_by_property(
        &self,
        property: Seq<char>,
        value: ValueView,
    ) -> Seq<NodeId> {
        self.shown_ids(self.base().spec_find_nodes_by_property(property, value))
    }

    fn find_nodes_by_property(&self, property: &str, value: &Value) -> (r: Vec<NodeId>) {
        self.filter_ids(self.inner.find_nodes_by_property(property, value))
    }

    open spec fn spec_find_nodes_by_properties(
        &self,
        conditions: Seq<(Seq<char>, ValueView)>,
    ) -> Seq<NodeId> {
        self.shown_ids(self.base().spec_find_nodes_by_properties(conditions))
    }

    fn find_nodes_by_properties(&self, conditions: &[(&str, Value)]) -> (r: Vec<NodeId>) {
        self.filter_ids(self.inner.find_nodes_by_properties(conditions))
    }

    open spec fn spec_find_nodes_in_range(
        &self,
        property: Seq<char>,
        min: Option<ValueView>,
        max: Option<ValueView>,
        min_inclusive: bool,
        max_inclusive: bool,
    ) -> Seq<NodeId> {
        self.shown_ids(
            self.base().spec_find_nodes_in_range(property, min, max, min_inclusive, max_inclusive),
        )
    }

    fn find_nodes_in_range(
        &self,
        property: &str,
        min: Option<&Value>,
        max: Option<&Value>,
        min_inclusive: bool,
        max_inclusive: bool,
    ) -> (r: Vec<NodeId>) {
        self.filter_ids(
            self.inner.find_nodes_in_range(property, min, max, min_inclusive, max_inclusive),
        )
    }

    // Zone maps

    open spec fn spec_node_property_might_match(
        &self,
        property: Seq<char>,
        op: CompareOp,
        value: ValueView,
    ) -> bool {
        self.base().spec_node_property_might_match(property, op, value)
    }

    fn node_property_might_match(
        &self,
        property: &PropertyKey,
        op: CompareOp,
        value: &Value,
    ) -> (r: bool) {
        self.inner.node_property_might_match(property, op, value)
    }

    open spec fn spec_edge_property_might_match(
        &self,
        property: Seq<char>,
        op: CompareOp,
        value: ValueView,
    ) -> bool {
        self.base().spec_edge_property_might_match(property, op, value)
    }

    fn edge_property_might_match(
        &self,
        property: &PropertyKey,
        op: CompareOp,
        value: &Value,
    ) -> (r: bool) {
        self.inner.edge_property_might_match(property, op, value)
    }

    // Statistics

    open spec fn spec_statistics(&self) -> Arc<Self::Statistics> {
        self.base().spec_statistics()
    }

    fn statistics(&self) -> (r: Arc<Self::Statistics>) {
        self.inner.statistics()
    }

    open spec fn spec_estimate_label_cardinality(&self, label: Seq<char>) -> FloatBits {
        if self.filter().lists_label(label) {
            self.base().spec_estimate_label_cardinality(label)
        } else {
            FloatBits(0)
        }
    }

    fn estimate_label_cardinality(&self, label: &str) -> (r: FloatBits) {
        if !self.spec.lists_label(label) {
            return FloatBits(0);
        }
        self.inner.estimate_label_cardinality(label)
    }

    open spec fn spec_estimate_avg_degree(
        &self,
        edge_type: Seq<char>,
        outgoing: bool,
    ) -> FloatBits {
        if self.filter().keeps_type(edge_type) {
            self.base().spec_estimate_avg_degree(edge_type, outgoing)
        } else {
            FloatBits(0)
        }
    }

    fn estimate_avg_degree(&self, edge_type: &str, outgoing: bool) -> (r: FloatBits) {
        if !self.edge_type_matches(edge_type) {
            return FloatBits(0);
        }
        self.inner.estimate_avg_degree(edge_type, outgoing)
    }

    // Epoch

    open spec fn spec_current_epoch(&self) -> EpochId {
        self.base().spec_current_epoch()
    }

    fn current_epoch(&self) -> (r: EpochId) {
        self.inner.current_epoch()
    }

    // Schema introspection

    open spec fn spec_all_labels(&self) -> Multiset<Seq<char>> {
        if self.filter().filters_labels() {
            Multiset::from_set(self.filter().node_labels)
        } else {
            self.base().spec_all_labels()
        }
    }

    // Without a filter the list is the store's own, in its order.
    fn all_labels(&self) -> (r: Vec<String>)
        ensures
            !self.filter().filters_labels() ==> call_ensures(S::all_labels, (&*self.base(),), r),
    {
        if self.spec.filters_labels() {
            let names = self.spec.node_labels.to_names();
            proof {
                lemma_to_multiset_of_distinct(seq_view(names@));
            }
            names
        } else {
            self.inner.all_labels()
        }
    }

    open spec fn spec_all_edge_types(&self) -> Multiset<Seq<char>> {
        if self.filter().filters_edge_types() {
            Multiset::from_set(self.filter().edge_types)
        } else {
            self.base().spec_all_edge_types()
        }
    }

    // Without a filter the list is the store's own, in its order.
    fn all_edge_types(&self) -> (r: Vec<String>)
        ensures
            !self.filter().filters_edge_types() ==> call_ensures(S::all_edge_types, (&*self.base(),), r),
    {
        if self.spec.filters_edge_types() {
            let names = self.spec.edge_types.to_names();
            proof {
                lemma_to_multiset_of_distinct(seq_view(names@));
            }
            names
        } else {
            self.inner.all_edge_types()
        }
    }

    open spec fn spec_all_property_keys(&self) -> Multiset<Seq<char>> {
        self.base().spec_all_property_keys()
    }

    // The list is the store's own, in its order.
    fn all_property_keys(&self) -> (r: Vec<String>)
        ensures
            call_ensures(S::all_property_keys, (&*self.base(),), r),
    {
        self.inner.all_property_keys()
    }
}

/// A projection offers no search index: an index of the inner store also finds
/// nodes that the projection hides.
impl<S: GraphStoreSearch + ?Sized> GraphStoreSearch for GraphProjection<S> {
    open spec fn spec_has_text_index(&self, label: Seq<char>, property: Seq<char>) -> bool {
        false
    }

    fn has_text_index(&self, label: &str, property: &str) -> (r: bool) {
        false
    }

    open spec fn spec_has_vector_index(&self, label: Seq<char>, property: Seq<char>) -> bool {
        false
    }

    fn has_vector_index(&self, label: &str, property: &str) -> (r: bool) {
        false
    }
}

} // verus!
