//! What holds of every projection.
//!
//! The laws that relate two kinds of read speak of a store whose own answers of
//! these kinds agree with each other.

use vstd::prelude::*;

use super::entity::{Direction, EdgeView, NodeView};
use super::projection::{first_or_empty, GraphProjection, ProjectionSpecView};
use super::store::{GraphStore, GraphStoreSearch, Properties};
use crate::seqs::{
    lemma_concat_contains, lemma_filter_all, lemma_filter_contains, lemma_filter_distinct, total,
};
use crate::types::{EdgeId, EpochId, NodeId, TransactionId, ValueView};

verus! {

/// Whether an edge joins a node to another in a given direction.
pub open spec fn joins(edge: EdgeView, node: NodeId, direction: Direction, other: NodeId) -> bool {
    match direction {
        Direction::Outgoing => edge.src == node && edge.dst == other,
        Direction::Incoming => edge.dst == node && edge.src == other,
        Direction::Both => (edge.src == node && edge.dst == other) || (edge.dst == node && edge.src
            == other),
    }
}

/// Whether the type that a store gives for an edge is the one in its record.
pub open spec fn type_agrees<S: GraphStore + ?Sized>(s: &S, e: EdgeId) -> bool {
    s.spec_edge_type(e) == match s.spec_get_edge(e) {
        Some(x) => Some(x.edge_type),
        None => None,
    }
}

/// Whether a traversal of a store from a node lists edges that exist and join the
/// nodes that it names.
pub open spec fn steps_join<S: GraphStore + ?Sized>(
    s: &S,
    node: NodeId,
    direction: Direction,
) -> bool {
    forall|k: int|
        0 <= k < s.spec_edges_from(node, direction).len() ==> match s.spec_get_edge(
            (#[trigger] s.spec_edges_from(node, direction)[k]).1,
        ) {
            Some(x) => joins(x, node, direction, s.spec_edges_from(node, direction)[k].0),
            None => false,
        }
}

/// Whether a store lists by label nodes that exist and have the label.
pub open spec fn lists_labelled<S: GraphStore + ?Sized>(s: &S, label: Seq<char>) -> bool {
    forall|k: int|
        0 <= k < s.spec_nodes_by_label(label).len() ==> match s.spec_get_node(
            #[trigger] s.spec_nodes_by_label(label)[k],
        ) {
            Some(x) => x.labels.contains(label),
            None => false,
        }
}

/// With a label filter, a node is in the projection just when a lookup of it
/// succeeds; the node that the lookup gives is the store's own.
pub proof fn law_lookup_of_node<S: GraphStoreSearch + ?Sized>(
    p: &GraphProjection<S>,
    id: NodeId,
    n: NodeView,
)
    ensures
        p.spec_get_node(id) == Some(n) <==> p.base().spec_get_node(id) == Some(n)
            && p.filter().keeps_labels(n.labels),
        p.filter().filters_labels() ==> (p.node_visible(id) <==> p.spec_get_node(id) is Some),
{
}

/// A lookup gives an edge just when the store has it, its type is shown, and
/// both of its ends are in the projection.
pub proof fn law_lookup_of_edge<S: GraphStoreSearch + ?Sized>(
    p: &GraphProjection<S>,
    id: EdgeId,
    e: EdgeView,
)
    ensures
        p.spec_get_edge(id) == Some(e) <==> p.base().spec_get_edge(id) == Some(e)
            && p.filter().keeps_type(e.edge_type) && p.node_visible(e.src) && p.node_visible(e.dst),
        p.spec_get_edge(id) == Some(e) && p.filter().filters_labels() ==> p.spec_get_node(e.src)
            is Some && p.spec_get_node(e.dst) is Some,
{
}

/// A projection without filters gives every lookup, scan, search and count of
/// the store.
pub proof fn law_unfiltered_reads_are_the_stores<S: GraphStoreSearch + ?Sized>(
    p: &GraphProjection<S>,
    node: NodeId,
    edge: EdgeId,
    epoch: EpochId,
    tx: TransactionId,
    key: Seq<char>,
    value: ValueView,
    conditions: Seq<(Seq<char>, ValueView)>,
    min: Option<ValueView>,
    max: Option<ValueView>,
    min_inclusive: bool,
    max_inclusive: bool,
)
    requires
        !p.filter().filters_labels(),
        !p.filter().filters_edge_types(),
    ensures
        p.spec_get_node(node) == p.base().spec_get_node(node),
        p.spec_get_edge(edge) == p.base().spec_get_edge(edge),
        p.spec_get_node_versioned(node, epoch, tx) == p.base().spec_get_node_versioned(
            node,
            epoch,
            tx,
        ),
        p.spec_get_edge_versioned(edge, epoch, tx) == p.base().spec_get_edge_versioned(
            edge,
            epoch,
            tx,
        ),
        p.spec_get_node_at_epoch(node, epoch) == p.base().spec_get_node_at_epoch(node, epoch),
        p.spec_get_edge_at_epoch(edge, epoch) == p.base().spec_get_edge_at_epoch(edge, epoch),
        p.spec_get_node_property(node, key) == p.base().spec_get_node_property(node, key),
        p.base().spec_get_edge(edge) is Some ==> p.spec_get_edge_property(edge, key)
            == p.base().spec_get_edge_property(edge, key),
        p.spec_edge_type(edge) == p.base().spec_edge_type(edge),
        p.spec_edge_type_versioned(edge, epoch, tx) == p.base().spec_edge_type_versioned(
            edge,
            epoch,
            tx,
        ),
        p.spec_node_ids() == p.base().spec_node_ids(),
        p.spec_all_node_ids() == p.base().spec_all_node_ids(),
        p.spec_nodes_by_label(key) == p.base().spec_nodes_by_label(key),
        p.spec_nodes_by_label_count(key) == p.base().spec_nodes_by_label_count(key),
        p.spec_find_nodes_by_property(key, value) == p.base().spec_find_nodes_by_property(
            key,
            value,
        ),
        p.spec_find_nodes_by_properties(conditions) == p.base().spec_find_nodes_by_properties(
            conditions,
        ),
        p.spec_find_nodes_in_range(key, min, max, min_inclusive, max_inclusive)
            == p.base().spec_find_nodes_in_range(key, min, max, min_inclusive, max_inclusive),
        p.spec_node_count() == p.base().spec_node_ids().len(),
        p.spec_edge_count() == p.base().spec_edge_count(),
        p.spec_all_labels() == p.base().spec_all_labels(),
        p.spec_all_edge_types() == p.base().spec_all_edge_types(),
{
    let keep = |id: NodeId| p.node_visible(id);
    lemma_filter_all(p.base().spec_node_ids(), keep);
    lemma_filter_all(p.base().spec_all_node_ids(), keep);
    lemma_filter_all(p.base().spec_find_nodes_by_property(key, value), keep);
    lemma_filter_all(p.base().spec_find_nodes_by_properties(conditions), keep);
    lemma_filter_all(
        p.base().spec_find_nodes_in_range(key, min, max, min_inclusive, max_inclusive),
        keep,
    );
}

/// A projection without filters gives every traversal of the store that lists edges
/// which have a type.
pub proof fn law_unfiltered_traversal_is_the_stores<S: GraphStoreSearch + ?Sized>(
    p: &GraphProjection<S>,
    node: NodeId,
    direction: Direction,
)
    requires
        !p.filter().filters_labels(),
        !p.filter().filters_edge_types(),
        forall|k: int|
            0 <= k < p.base().spec_edges_from(node, direction).len() ==> p.base().spec_edge_type(
                (#[trigger] p.base().spec_edges_from(node, direction)[k]).1,
            ) is Some,
    ensures
        p.spec_edges_from(node, direction) == p.base().spec_edges_from(node, direction),
{
    let steps = p.base().spec_edges_from(node, direction);
    let keep = |step: (NodeId, EdgeId)| p.step_visible(step);
    assert forall|i: int| 0 <= i < steps.len() implies keep(#[trigger] steps[i]) by {
        assert(p.base().spec_edge_type(steps[i].1) is Some);
    }
    lemma_filter_all(steps, keep);
}

/// Nothing of a node that is not in the projection can be read.
pub proof fn law_hidden_node_shows_nothing<S: GraphStoreSearch + ?Sized>(
    p: &GraphProjection<S>,
    id: NodeId,
    key: Seq<char>,
    keys: Seq<Seq<char>>,
    direction: Direction,
)
    requires
        !p.node_visible(id),
    ensures
        p.spec_get_node(id) is None,
        p.spec_get_node_property(id, key) is None,
        p.spec_get_node_property_batch(seq![id], key) == seq![None::<ValueView>],
        p.spec_get_nodes_properties_batch(seq![id]) == seq![Properties::empty()],
        p.spec_get_nodes_properties_selective_batch(seq![id], keys) == seq![Properties::empty()],
        p.spec_edges_from(id, direction) == Seq::<(NodeId, EdgeId)>::empty(),
        p.spec_neighbors(id, direction) == Seq::<NodeId>::empty(),
        p.spec_out_degree(id) == 0,
        p.spec_in_degree(id) == 0,
        !p.spec_node_ids().contains(id),
        !p.spec_all_node_ids().contains(id),
{
    assert(p.spec_neighbors(id, direction) =~= Seq::<NodeId>::empty());
    lemma_shown_ids(p, p.base().spec_node_ids());
    lemma_shown_ids(p, p.base().spec_all_node_ids());
}

/// Nothing of an edge that is not in the projection can be read.
pub proof fn law_hidden_edge_shows_nothing<S: GraphStoreSearch + ?Sized>(
    p: &GraphProjection<S>,
    id: EdgeId,
    key: Seq<char>,
    keys: Seq<Seq<char>>,
)
    requires
        p.spec_get_edge(id) is None,
    ensures
        p.spec_get_edge_property(id, key) is None,
        p.spec_get_edges_properties_selective_batch(seq![id], keys) == seq![Properties::empty()],
{
}

/// A batch has one entry for each node id: what the store gives for that id alone
/// if the node is in the projection, and nothing otherwise.
pub proof fn law_node_batches_are_pointwise<S: GraphStoreSearch + ?Sized>(
    p: &GraphProjection<S>,
    ids: Seq<NodeId>,
    key: Seq<char>,
    keys: Seq<Seq<char>>,
    i: int,
)
    requires
        0 <= i < ids.len(),
    ensures
        p.spec_get_node_property_batch(ids, key).len() == ids.len(),
        p.spec_get_node_property_batch(ids, key)[i] == p.spec_get_node_property(ids[i], key),
        p.spec_get_nodes_properties_batch(ids).len() == ids.len(),
        p.spec_get_nodes_properties_batch(ids)[i] == if p.node_visible(ids[i]) {
            first_or_empty(p.base().spec_get_nodes_properties_batch(seq![ids[i]]))
        } else {
            Properties::empty()
        },
        p.spec_get_nodes_properties_selective_batch(ids, keys).len() == ids.len(),
        p.spec_get_nodes_properties_selective_batch(ids, keys)[i] == if p.node_visible(ids[i]) {
            first_or_empty(p.base().spec_get_nodes_properties_selective_batch(seq![ids[i]], keys))
        } else {
            Properties::empty()
        },
{
}

/// A batch has one entry for each edge id: what the store gives for that id alone
/// if a lookup of the edge succeeds in the projection, and nothing otherwise.
pub proof fn law_edge_batches_are_pointwise<S: GraphStoreSearch + ?Sized>(
    p: &GraphProjection<S>,
    ids: Seq<EdgeId>,
    keys: Seq<Seq<char>>,
    i: int,
)
    requires
        0 <= i < ids.len(),
    ensures
        p.spec_get_edges_properties_selective_batch(ids, keys).len() == ids.len(),
        p.spec_get_edges_properties_selective_batch(ids, keys)[i] == if p.spec_get_edge(
            ids[i],
        ) is Some {
            first_or_empty(p.base().spec_get_edges_properties_selective_batch(seq![ids[i]], keys))
        } else {
            Properties::empty()
        },
{
}

/// A traversal stays inside the projection: the node that it starts from, the
/// nodes that it reaches and the types of the edges that it takes are shown.
pub proof fn law_traversal_stays_inside<S: GraphStoreSearch + ?Sized>(
    p: &GraphProjection<S>,
    node: NodeId,
    direction: Direction,
    step: (NodeId, EdgeId),
)
    requires
        p.spec_edges_from(node, direction).contains(step),
    ensures
        p.node_visible(node),
        p.node_visible(step.0),
        p.base().spec_edges_from(node, direction).contains(step),
        match p.base().spec_edge_type(step.1) {
            Some(t) => p.filter().keeps_type(t),
            None => false,
        },
        p.spec_neighbors(node, direction).contains(step.0),
{
    lemma_steps(p, node, direction, step);
    let i = choose|i: int|
        0 <= i < p.spec_edges_from(node, direction).len() && p.spec_edges_from(node, direction)[i]
            == step;
    assert(p.spec_neighbors(node, direction)[i] == step.0);
}

/// Traversal and lookup agree, where they do in the store: a step is listed just
/// when the store lists it and a lookup of its edge succeeds in the projection.
pub proof fn law_traversal_agrees_with_lookup<S: GraphStoreSearch + ?Sized>(
    p: &GraphProjection<S>,
    node: NodeId,
    direction: Direction,
    step: (NodeId, EdgeId),
)
    requires
        type_agrees(&*p.base(), step.1),
        steps_join(&*p.base(), node, direction),
    ensures
        p.spec_edges_from(node, direction).contains(step) <==> p.base().spec_edges_from(
            node,
            direction,
        ).contains(step) && p.spec_get_edge(step.1) is Some,
{
    lemma_steps(p, node, direction, step);
    let steps = p.base().spec_edges_from(node, direction);
    if steps.contains(step) {
        let k = choose|k: int| 0 <= k < steps.len() && steps[k] == step;
        assert(p.base().spec_edges_from(node, direction)[k] == step);
        assert(p.base().spec_edge_type(step.1) is Some);
    }
}

/// The type of an edge can be read just when the edge can, and is the type in the
/// edge that a lookup gives, where that is so in the store.
pub proof fn law_edge_type_agrees_with_lookup<S: GraphStoreSearch + ?Sized>(
    p: &GraphProjection<S>,
    id: EdgeId,
)
    requires
        type_agrees(&*p.base(), id),
    ensures
        p.spec_edge_type(id) == match p.spec_get_edge(id) {
            Some(e) => Some(e.edge_type),
            None => None,
        },
{
    assert(p.base().spec_edge_type(id) == match p.base().spec_get_edge(id) {
        Some(x) => Some(x.edge_type),
        None => None,
    });
}

/// Scans and searches list those nodes of the store's answer that are in the
/// projection, and no others.
pub proof fn law_listings_show_the_visible_nodes<S: GraphStoreSearch + ?Sized>(
    p: &GraphProjection<S>,
    id: NodeId,
    property: Seq<char>,
    value: ValueView,
    conditions: Seq<(Seq<char>, ValueView)>,
    min: Option<ValueView>,
    max: Option<ValueView>,
    min_inclusive: bool,
    max_inclusive: bool,
)
    ensures
        p.spec_node_ids().contains(id) <==> p.base().spec_node_ids().contains(id)
            && p.node_visible(id),
        p.spec_all_node_ids().contains(id) <==> p.base().spec_all_node_ids().contains(id)
            && p.node_visible(id),
        p.spec_find_nodes_by_property(property, value).contains(id)
            <==> p.base().spec_find_nodes_by_property(property, value).contains(id)
            && p.node_visible(id),
        p.spec_find_nodes_by_properties(conditions).contains(id)
            <==> p.base().spec_find_nodes_by_properties(conditions).contains(id)
            && p.node_visible(id),
        p.spec_find_nodes_in_range(property, min, max, min_inclusive, max_inclusive).contains(id)
            <==> p.base().spec_find_nodes_in_range(
            property,
            min,
            max,
            min_inclusive,
            max_inclusive,
        ).contains(id) && p.node_visible(id),
{
    lemma_shown_ids(p, p.base().spec_node_ids());
    lemma_shown_ids(p, p.base().spec_all_node_ids());
    lemma_shown_ids(p, p.base().spec_find_nodes_by_property(property, value));
    lemma_shown_ids(p, p.base().spec_find_nodes_by_properties(conditions));
    lemma_shown_ids(
        p,
        p.base().spec_find_nodes_in_range(property, min, max, min_inclusive, max_inclusive),
    );
}

/// A listing by label lists only nodes that are in the projection, where the store
/// lists only nodes that have the label.
pub proof fn law_label_listing_is_visible<S: GraphStoreSearch + ?Sized>(
    p: &GraphProjection<S>,
    label: Seq<char>,
    id: NodeId,
)
    requires
        lists_labelled(&*p.base(), label),
        p.spec_nodes_by_label(label).contains(id),
    ensures
        p.node_visible(id),
{
    let listed = p.base().spec_nodes_by_label(label);
    let k = choose|k: int| 0 <= k < listed.len() && listed[k] == id;
    assert(p.base().spec_nodes_by_label(label)[k] == id);
    let labels = p.base().spec_get_node(id)->0.labels;
    let i = choose|i: int| 0 <= i < labels.len() && labels[i] == label;
    assert(labels[i] == label);
}

/// Whether one spec shows no more than another.
pub open spec fn narrower(a: ProjectionSpecView, b: ProjectionSpecView) -> bool {
    &&& b.filters_labels() ==> a.filters_labels() && a.node_labels.subset_of(b.node_labels)
    &&& b.filters_edge_types() ==> a.filters_edge_types() && a.edge_types.subset_of(b.edge_types)
}

/// A wider spec shows at least as much: what a narrower projection of the same
/// store shows, the wider one shows too.
pub proof fn law_wider_spec_shows_more<S: GraphStoreSearch + ?Sized>(
    p: &GraphProjection<S>,
    q: &GraphProjection<S>,
    id: NodeId,
    edge: EdgeId,
    direction: Direction,
    step: (NodeId, EdgeId),
)
    requires
        p.base() == q.base(),
        narrower(p.filter(), q.filter()),
    ensures
        p.node_visible(id) ==> q.node_visible(id),
        p.spec_get_node(id) is Some ==> q.spec_get_node(id) == p.spec_get_node(id),
        p.spec_get_edge(edge) is Some ==> q.spec_get_edge(edge) == p.spec_get_edge(edge),
        p.spec_node_ids().contains(id) ==> q.spec_node_ids().contains(id),
        p.spec_edges_from(id, direction).contains(step) ==> q.spec_edges_from(
            id,
            direction,
        ).contains(step),
{
    lemma_wider_node(p, q, id);
    lemma_wider_node(p, q, step.0);
    match p.base().spec_get_edge(edge) {
        Some(e) => {
            lemma_wider_node(p, q, e.src);
            lemma_wider_node(p, q, e.dst);
        },
        None => {},
    }
    lemma_shown_ids(p, p.base().spec_node_ids());
    lemma_shown_ids(q, q.base().spec_node_ids());
    lemma_steps(p, id, direction, step);
    lemma_steps(q, id, direction, step);
    if let Some(n) = p.base().spec_get_node(id) {
        lemma_wider_labels(p.filter(), q.filter(), n.labels);
    }
}

/// A projection of a projection shows what both specs show.
pub proof fn law_nested_projection_applies_both<S: GraphStoreSearch + ?Sized>(
    outer: &GraphProjection<GraphProjection<S>>,
    id: NodeId,
    n: NodeView,
    edge: EdgeId,
    e: EdgeView,
)
    ensures
        outer.spec_get_node(id) == Some(n) <==> outer.base().base().spec_get_node(id) == Some(n)
            && outer.base().filter().keeps_labels(n.labels) && outer.filter().keeps_labels(
            n.labels,
        ),
        outer.spec_get_edge(edge) == Some(e) <==> outer.base().base().spec_get_edge(edge) == Some(e)
            && outer.base().filter().keeps_type(e.edge_type) && outer.filter().keeps_type(
            e.edge_type,
        ) && outer.base().node_visible(e.src) && outer.base().node_visible(e.dst)
            && outer.node_visible(e.src) && outer.node_visible(e.dst),
{
}

/// Projecting twice with one spec is projecting once.
pub proof fn law_projection_is_idempotent<S: GraphStoreSearch + ?Sized>(
    outer: &GraphProjection<GraphProjection<S>>,
    id: NodeId,
    edge: EdgeId,
    direction: Direction,
)
    requires
        outer.filter() == outer.base().filter(),
        forall|x: EdgeId| #[trigger] type_agrees(&*outer.base().base(), x),
        steps_join(&*outer.base().base(), id, direction),
    ensures
        outer.spec_get_node(id) == outer.base().spec_get_node(id),
        outer.spec_get_edge(edge) == outer.base().spec_get_edge(edge),
        outer.spec_edge_type(edge) == outer.base().spec_edge_type(edge),
        outer.spec_node_ids() == outer.base().spec_node_ids(),
        outer.spec_edges_from(id, direction) == outer.base().spec_edges_from(id, direction),
{
    let inner = outer.base();
    assert forall|x: NodeId| outer.node_visible(x) == inner.node_visible(x) by {}
    law_edge_type_agrees_with_lookup(&*inner, edge);
    lemma_shown_ids(&*inner, inner.base().spec_node_ids());
    let ids = inner.spec_node_ids();
    assert forall|i: int| 0 <= i < ids.len() implies outer.node_visible(#[trigger] ids[i]) by {
        assert(ids.contains(ids[i]));
    }
    lemma_filter_all(ids, |x: NodeId| outer.node_visible(x));
    let steps = inner.spec_edges_from(id, direction);
    assert forall|i: int| 0 <= i < steps.len() implies outer.step_visible(#[trigger] steps[i]) by {
        assert(steps.contains(steps[i]));
        law_traversal_agrees_with_lookup(&*inner, id, direction, steps[i]);
        law_traversal_stays_inside(&*inner, id, direction, steps[i]);
        law_edge_type_agrees_with_lookup(&*inner, steps[i].1);
    }
    lemma_filter_all(steps, |step: (NodeId, EdgeId)| outer.step_visible(step));
}

/// Whether a traversal of a store, node by node along outgoing edges, meets every
/// edge once.
pub open spec fn traversable<S: GraphStore + ?Sized>(s: &S) -> bool {
    &&& forall|e: EdgeId| #[trigger] type_agrees(s, e)
    &&& forall|n: NodeId| #[trigger] steps_join(s, n, Direction::Outgoing)
    &&& s.spec_node_ids().no_duplicates()
    &&& forall|e: EdgeId|
        match #[trigger] s.spec_get_edge(e) {
            Some(x) => s.spec_node_ids().contains(x.src) && s.spec_edges_from(
                x.src,
                Direction::Outgoing,
            ).contains((x.dst, e)),
            None => true,
        }
    &&& forall|n: NodeId, i: int, j: int|
        0 <= i < j < s.spec_edges_from(n, Direction::Outgoing).len() ==> (
        #[trigger] s.spec_edges_from(n, Direction::Outgoing)[i]).1 != (
        #[trigger] s.spec_edges_from(n, Direction::Outgoing)[j]).1
}

/// The edges that lookups in a store give.
pub open spec fn edges_in<S: GraphStore + ?Sized>(s: &S) -> Set<EdgeId> {
    Set::new(|e: EdgeId| s.spec_get_edge(e) is Some)
}

/// The number of edges is the number of edges that lookups give. Without a filter
/// the number is the store's own, and has to be right there.
pub proof fn law_edge_count_counts_visible_edges<S: GraphStoreSearch + ?Sized>(
    p: &GraphProjection<S>,
)
    requires
        traversable(&*p.base()),
        !p.filter().filters_labels() && !p.filter().filters_edge_types()
            ==> p.base().spec_edge_count() == edges_in(&*p.base()).len(),
    ensures
        edges_in(p).finite(),
        p.spec_edge_count() == edges_in(p).len(),
{
    let ids = p.spec_node_ids();
    lemma_filter_distinct(p.base().spec_node_ids(), |id: NodeId| p.node_visible(id));
    lemma_edges_of(p, ids);
    let listed = edges_of(p, ids);
    assert(listed.to_set() =~= edges_in(p)) by {
        lemma_shown_ids(p, p.base().spec_node_ids());
        assert forall|e: EdgeId| listed.contains(e) == (p.spec_get_edge(e) is Some) by {
            if let Some(x) = p.spec_get_edge(e) {
                assert(p.base().spec_get_edge(e) == Some(x));
                assert(ids.contains(x.src));
            }
        }
    }
    listed.unique_seq_to_set();
    vstd::seq_lib::seq_to_set_is_finite(listed);
    if !p.filter().filters_labels() && !p.filter().filters_edge_types() {
        assert(edges_in(p) =~= edges_in(&*p.base()));
    }
}

/// The edges that leave some nodes of a projection, node by node.
spec fn edges_of<S: GraphStoreSearch + ?Sized>(
    p: &GraphProjection<S>,
    ids: Seq<NodeId>,
) -> Seq<EdgeId>
    decreases ids.len(),
{
    if ids.len() == 0 {
        Seq::empty()
    } else {
        edges_of(p, ids.drop_last()) + p.spec_edges_from(
            ids.last(),
            Direction::Outgoing,
        ).map_values(|step: (NodeId, EdgeId)| step.1)
    }
}

proof fn lemma_edges_of<S: GraphStoreSearch + ?Sized>(p: &GraphProjection<S>, ids: Seq<NodeId>)
    requires
        traversable(&*p.base()),
        ids.no_duplicates(),
    ensures
        edges_of(p, ids).len() == total(
            ids.map_values(|id: NodeId| p.spec_out_degree(id)),
        ),
        edges_of(p, ids).no_duplicates(),
        forall|e: EdgeId| #[trigger]
            edges_of(p, ids).contains(e) <==> match p.spec_get_edge(e) {
                Some(x) => ids.contains(x.src),
                None => false,
            },
    decreases ids.len(),
{
    let degrees = ids.map_values(|id: NodeId| p.spec_out_degree(id));
    if ids.len() > 0 {
        let rest = ids.drop_last();
        let last = ids.last();
        lemma_edges_of(p, rest);
        assert(degrees.drop_last() =~= rest.map_values(|id: NodeId| p.spec_out_degree(id)));
        let before = edges_of(p, rest);
        let steps = p.spec_edges_from(last, Direction::Outgoing);
        let added = steps.map_values(|step: (NodeId, EdgeId)| step.1);
        assert(!rest.contains(last)) by {
            if rest.contains(last) {
                let k = choose|k: int| 0 <= k < rest.len() && rest[k] == last;
                assert(ids[k] == ids[ids.len() - 1]);
            }
        }
        lemma_added_edges(p, last);
        assert(ids =~= rest.push(last));
        assert forall|n: NodeId| ids.contains(n) <==> rest.contains(n) || n == last by {
            if rest.contains(n) {
                let k = choose|k: int| 0 <= k < rest.len() && rest[k] == n;
                assert(ids[k] == n);
            }
            assert(ids[ids.len() - 1] == last);
        }
        assert forall|e: EdgeId| #[trigger]
            edges_of(p, ids).contains(e) <==> match p.spec_get_edge(e) {
                Some(x) => ids.contains(x.src),
                None => false,
            } by {
            lemma_concat_contains(before, added, e);
        }
        assert(edges_of(p, ids).no_duplicates()) by {
            assert forall|i: int, j: int|
                0 <= i < before.len() && 0 <= j < added.len() implies before[i] != added[j] by {
                assert(before.contains(before[i]));
                assert(added.contains(added[j]));
            }
        }
    }
}

/// The edges that a traversal lists at a node are the visible ones that leave it.
proof fn lemma_added_edges<S: GraphStoreSearch + ?Sized>(p: &GraphProjection<S>, node: NodeId)
    requires
        traversable(&*p.base()),
    ensures
        ({
            let added = p.spec_edges_from(node, Direction::Outgoing).map_values(
                |step: (NodeId, EdgeId)| step.1,
            );
            &&& added.no_duplicates()
            &&& forall|e: EdgeId| #[trigger]
                added.contains(e) <==> match p.spec_get_edge(e) {
                    Some(x) => x.src == node,
                    None => false,
                }
        }),
{
    let base = p.base();
    let all = base.spec_edges_from(node, Direction::Outgoing);
    let steps = p.spec_edges_from(node, Direction::Outgoing);
    let added = steps.map_values(|step: (NodeId, EdgeId)| step.1);
    let keep = |s: (NodeId, EdgeId)| p.step_visible(s);
    lemma_filter_distinct_edges(all, keep);
    assert(steps_join(&*base, node, Direction::Outgoing));
    assert forall|e: EdgeId| #[trigger]
        added.contains(e) <==> match p.spec_get_edge(e) {
            Some(x) => x.src == node,
            None => false,
        } by {
        if added.contains(e) {
            let k = choose|k: int| 0 <= k < added.len() && added[k] == e;
            assert(type_agrees(&*base, steps[k].1));
            assert(steps.contains(steps[k]));
            law_traversal_agrees_with_lookup(p, node, Direction::Outgoing, steps[k]);
            let m = choose|m: int| 0 <= m < all.len() && all[m] == steps[k];
            assert(base.spec_edges_from(node, Direction::Outgoing)[m] == steps[k]);
        }
        if let Some(x) = p.spec_get_edge(e) {
            if x.src == node {
                assert(base.spec_get_edge(e) == Some(x));
                assert(type_agrees(&*base, e));
                law_traversal_agrees_with_lookup(p, node, Direction::Outgoing, (x.dst, e));
                let k = choose|k: int| 0 <= k < steps.len() && steps[k] == (x.dst, e);
                assert(added[k] == e);
            }
        }
    }
}

proof fn lemma_wider_labels(a: ProjectionSpecView, b: ProjectionSpecView, labels: Seq<Seq<char>>)
    requires
        narrower(a, b),
    ensures
        a.keeps_labels(labels) ==> b.keeps_labels(labels),
{
    if b.filters_labels() && a.keeps_labels(labels) {
        let i = choose|i: int|
            0 <= i < labels.len() && a.node_labels.contains(#[trigger] labels[i]);
        assert(b.node_labels.contains(labels[i]));
    }
}

proof fn lemma_wider_node<S: GraphStoreSearch + ?Sized>(
    p: &GraphProjection<S>,
    q: &GraphProjection<S>,
    id: NodeId,
)
    requires
        p.base() == q.base(),
        narrower(p.filter(), q.filter()),
    ensures
        p.node_visible(id) ==> q.node_visible(id),
{
    if p.node_visible(id) && q.filter().filters_labels() {
        lemma_wider_labels(p.filter(), q.filter(), p.base().spec_get_node(id)->0.labels);
    }
}

/// A filtered list of nodes holds those that are in the list and visible.
proof fn lemma_shown_ids<S: GraphStoreSearch + ?Sized>(p: &GraphProjection<S>, ids: Seq<NodeId>)
    ensures
        forall|id: NodeId| #[trigger]
            p.shown_ids(ids).contains(id) <==> ids.contains(id) && p.node_visible(id),
{
    let keep = |id: NodeId| p.node_visible(id);
    lemma_filter_contains(ids, keep);
}

/// A traversal lists the steps of the store's own that are visible.
proof fn lemma_steps<S: GraphStoreSearch + ?Sized>(
    p: &GraphProjection<S>,
    node: NodeId,
    direction: Direction,
    step: (NodeId, EdgeId),
)
    ensures
        p.spec_edges_from(node, direction).contains(step) <==> p.node_visible(node)
            && p.base().spec_edges_from(node, direction).contains(step) && p.step_visible(step),
{
    let keep = |s: (NodeId, EdgeId)| p.step_visible(s);
    lemma_filter_contains(p.base().spec_edges_from(node, direction), keep);
}

/// A filtered list of steps names no edge twice if the list does not.
proof fn lemma_filter_distinct_edges(
    s: Seq<(NodeId, EdgeId)>,
    keep: spec_fn((NodeId, EdgeId)) -> bool,
)
    requires
        forall|i: int, j: int|
            0 <= i < j < s.len() ==> (#[trigger] s[i]).1 != (#[trigger] s[j]).1,
    ensures
        s.filter(keep).map_values(|step: (NodeId, EdgeId)| step.1).no_duplicates(),
    decreases s.len(),
{
    reveal(Seq::filter);
    if s.len() > 0 {
        let t = s.drop_last();
        assert forall|i: int, j: int| 0 <= i < j < t.len() implies (#[trigger] t[i]).1 != (
        #[trigger] t[j]).1 by {
            assert(s[i].1 != s[j].1);
        }
        lemma_filter_distinct_edges(t, keep);
        lemma_filter_contains(t, keep);
        let f = t.filter(keep);
        let ids = f.map_values(|step: (NodeId, EdgeId)| step.1);
        assert forall|i: int| 0 <= i < f.len() implies (#[trigger] f[i]).1 != s.last().1 by {
            assert(f.contains(f[i]));
            let k = choose|k: int| 0 <= k < t.len() && t[k] == f[i];
            assert(s[k].1 != s[s.len() - 1].1);
        }
        assert forall|i: int, j: int| 0 <= i < j < f.len() implies (#[trigger] f[i]).1 != (
        #[trigger] f[j]).1 by {
            assert(ids[i] != ids[j]);
        }
    }
}

} // verus!
