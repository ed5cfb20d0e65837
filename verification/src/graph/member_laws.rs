//! What each read of a projection gives, in terms of the store and of the labels and
//! edge types that the projection was made with.

use vstd::multiset::Multiset;
use vstd::prelude::*;

use super::entity::{CompareOp, Direction, EdgeView, NodeView};
use super::projection::{GraphProjection, ProjectionSpecView};
use super::store::{GraphStore, GraphStoreSearch, Properties};
use crate::seqs::total;
use crate::types::{EdgeId, EpochId, FloatBits, NodeId, TransactionId, ValueView};

verus! {

/// Whether some labels are among those asked for, where none asked for means all.
pub open spec fn has_wanted_label(spec: ProjectionSpecView, labels: Seq<Seq<char>>) -> bool {
    (forall|l: Seq<char>| !(#[trigger] spec.node_labels.contains(l))) || (exists|l: Seq<char>|
        spec.node_labels.contains(l) && #[trigger] labels.contains(l))
}

/// Whether a type is among those asked for, where none asked for means all.
pub open spec fn has_wanted_type(spec: ProjectionSpecView, edge_type: Seq<char>) -> bool {
    (forall|t: Seq<char>| !(#[trigger] spec.edge_types.contains(t))) || spec.edge_types.contains(
        edge_type,
    )
}

/// Whether a node belongs to a projection: labels are not asked for, or the store
/// has the node with one of them.
pub open spec fn is_member<S: GraphStoreSearch + ?Sized>(
    p: &GraphProjection<S>,
    id: NodeId,
) -> bool {
    (forall|l: Seq<char>| !(#[trigger] p.filter().node_labels.contains(l))) || (exists|n: NodeView|
        p.base().spec_get_node(id) == Some(n) && #[trigger] has_wanted_label(p.filter(), n.labels))
}

/// Whether an edge belongs to a projection: its type is asked for, and the nodes at
/// both ends belong to it now.
pub open spec fn is_member_edge<S: GraphStoreSearch + ?Sized>(
    p: &GraphProjection<S>,
    e: EdgeView,
) -> bool {
    has_wanted_type(p.filter(), e.edge_type) && is_member(p, e.src) && is_member(p, e.dst)
}

proof fn lemma_wanted(spec: ProjectionSpecView)
    ensures
        spec.filters_labels() <==> exists|l: Seq<char>| #[trigger] spec.node_labels.contains(l),
        spec.filters_edge_types() <==> exists|t: Seq<char>| #[trigger] spec.edge_types.contains(t),
        forall|labels: Seq<Seq<char>>| #[trigger]
            spec.keeps_labels(labels) <==> has_wanted_label(spec, labels),
        forall|t: Seq<char>| #[trigger] spec.keeps_type(t) <==> has_wanted_type(spec, t),
{
    if forall|l: Seq<char>| !(#[trigger] spec.node_labels.contains(l)) {
        assert(spec.node_labels =~= Set::<Seq<char>>::empty());
    }
    if forall|t: Seq<char>| !(#[trigger] spec.edge_types.contains(t)) {
        assert(spec.edge_types =~= Set::<Seq<char>>::empty());
    }
    assert forall|labels: Seq<Seq<char>>| #[trigger]
        spec.keeps_labels(labels) <==> has_wanted_label(spec, labels) by {
        if spec.filters_labels() {
            if spec.keeps_labels(labels) {
                let i = choose|i: int|
                    0 <= i < labels.len() && spec.node_labels.contains(#[trigger] labels[i]);
                assert(labels.contains(labels[i]));
            }
            if exists|l: Seq<char>| spec.node_labels.contains(l) && #[trigger] labels.contains(l) {
                let l = choose|l: Seq<char>|
                    spec.node_labels.contains(l) && #[trigger] labels.contains(l);
                let i = choose|i: int| 0 <= i < labels.len() && labels[i] == l;
                assert(spec.node_labels.contains(labels[i]));
            }
        }
    }
}

proof fn lemma_member<S: GraphStoreSearch + ?Sized>(p: &GraphProjection<S>)
    ensures
        forall|id: NodeId| #[trigger] p.node_visible(id) <==> is_member(p, id),
        forall|e: EdgeView| #[trigger] p.edge_visible(e) <==> is_member_edge(p, e),
{
    lemma_wanted(p.filter());
    assert forall|id: NodeId| #[trigger] p.node_visible(id) <==> is_member(p, id) by {
        if let Some(n) = p.base().spec_get_node(id) {
            assert(p.filter().keeps_labels(n.labels) <==> has_wanted_label(p.filter(), n.labels));
        }
    }
}

/// A lookup of a node, now, in a transaction or as of an epoch, gives it just when
/// the store does and the node has a label that is asked for.
pub proof fn law_node_lookups<S: GraphStoreSearch + ?Sized>(
    p: &GraphProjection<S>,
    id: NodeId,
    epoch: EpochId,
    tx: TransactionId,
    n: NodeView,
)
    ensures
        p.spec_get_node(id) == Some(n) <==> p.base().spec_get_node(id) == Some(n)
            && has_wanted_label(p.filter(), n.labels),
        p.spec_get_node_versioned(id, epoch, tx) == Some(n)
            <==> p.base().spec_get_node_versioned(id, epoch, tx) == Some(n) && has_wanted_label(
            p.filter(),
            n.labels,
        ),
        p.spec_get_node_at_epoch(id, epoch) == Some(n)
            <==> p.base().spec_get_node_at_epoch(id, epoch) == Some(n) && has_wanted_label(
            p.filter(),
            n.labels,
        ),
{
    lemma_wanted(p.filter());
    assert(p.filter().keeps_labels(n.labels) <==> has_wanted_label(p.filter(), n.labels));
}

/// A lookup of an edge, now, in a transaction or as of an epoch, gives it just when
/// the store does, its type is asked for, and the nodes at both of its ends belong
/// to the projection now.
pub proof fn law_edge_lookups<S: GraphStoreSearch + ?Sized>(
    p: &GraphProjection<S>,
    id: EdgeId,
    epoch: EpochId,
    tx: TransactionId,
    e: EdgeView,
)
    ensures
        p.spec_get_edge(id) == Some(e) <==> p.base().spec_get_edge(id) == Some(e)
            && has_wanted_type(p.filter(), e.edge_type) && is_member(p, e.src) && is_member(
            p,
            e.dst,
        ),
        p.spec_get_edge_versioned(id, epoch, tx) == Some(e)
            <==> p.base().spec_get_edge_versioned(id, epoch, tx) == Some(e) && has_wanted_type(
            p.filter(),
            e.edge_type,
        ) && is_member(p, e.src) && is_member(p, e.dst),
        p.spec_get_edge_at_epoch(id, epoch) == Some(e)
            <==> p.base().spec_get_edge_at_epoch(id, epoch) == Some(e) && has_wanted_type(
            p.filter(),
            e.edge_type,
        ) && is_member(p, e.src) && is_member(p, e.dst),
{
    lemma_member(p);
    assert(p.edge_visible(e) <==> is_member_edge(p, e));
}

/// The type of an edge, now or in a transaction, is given just when the store gives
/// it, it is asked for, and, where labels are asked for, the store gives the edge
/// and the nodes at both of its ends belong to the projection now.
pub proof fn law_edge_type_reads<S: GraphStoreSearch + ?Sized>(
    p: &GraphProjection<S>,
    id: EdgeId,
    epoch: EpochId,
    tx: TransactionId,
    t: Seq<char>,
)
    ensures
        p.spec_edge_type(id) == Some(t) <==> {
            &&& p.base().spec_edge_type(id) == Some(t)
            &&& has_wanted_type(p.filter(), t)
            &&& (exists|l: Seq<char>| #[trigger] p.filter().node_labels.contains(l)) ==> (
            p.base().spec_get_edge(id) is Some && is_member(p, p.base().spec_get_edge(id)->0.src)
                && is_member(p, p.base().spec_get_edge(id)->0.dst))
        },
        p.spec_edge_type_versioned(id, epoch, tx) == Some(t) <==> {
            &&& p.base().spec_edge_type_versioned(id, epoch, tx) == Some(t)
            &&& has_wanted_type(p.filter(), t)
            &&& (exists|l: Seq<char>| #[trigger] p.filter().node_labels.contains(l)) ==> (
            p.base().spec_get_edge_versioned(id, epoch, tx) is Some && is_member(
                p,
                p.base().spec_get_edge_versioned(id, epoch, tx)->0.src,
            ) && is_member(p, p.base().spec_get_edge_versioned(id, epoch, tx)->0.dst))
        },
{
    lemma_member(p);
    lemma_wanted(p.filter());
    assert(p.filter().keeps_type(t) <==> has_wanted_type(p.filter(), t));
    if let Some(e) = p.base().spec_get_edge(id) {
        assert(p.node_visible(e.src) <==> is_member(p, e.src));
        assert(p.node_visible(e.dst) <==> is_member(p, e.dst));
    }
    if let Some(e) = p.base().spec_get_edge_versioned(id, epoch, tx) {
        assert(p.node_visible(e.src) <==> is_member(p, e.src));
        assert(p.node_visible(e.dst) <==> is_member(p, e.dst));
    }
}

/// A property of a node can be read just when the node belongs to the projection,
/// and one of an edge just when the edge does; it is then the store's.
pub proof fn law_property_reads<S: GraphStoreSearch + ?Sized>(
    p: &GraphProjection<S>,
    id: NodeId,
    edge: EdgeId,
    key: Seq<char>,
)
    ensures
        is_member(p, id) ==> p.spec_get_node_property(id, key) == p.base().spec_get_node_property(
            id,
            key,
        ),
        !is_member(p, id) ==> p.spec_get_node_property(id, key) is None,
        match p.base().spec_get_edge(edge) {
            Some(e) => if has_wanted_type(p.filter(), e.edge_type) && is_member(p, e.src)
                && is_member(p, e.dst) {
                p.spec_get_edge_property(edge, key) == p.base().spec_get_edge_property(edge, key)
            } else {
                p.spec_get_edge_property(edge, key) is None
            },
            None => p.spec_get_edge_property(edge, key) is None,
        },
{
    lemma_member(p);
    assert(p.node_visible(id) <==> is_member(p, id));
    if let Some(e) = p.base().spec_get_edge(edge) {
        assert(p.edge_visible(e) <==> is_member_edge(p, e));
    }
}

/// What a store gives for the only id of a batch.
pub open spec fn only(maps: Seq<Properties>) -> Properties {
    if maps.len() == 0 {
        Map::empty()
    } else {
        maps.first()
    }
}

/// A batch has one entry for each id, in order: what the store gives for that id
/// alone if the node or edge belongs to the projection, and nothing otherwise.
pub proof fn law_batch_reads<S: GraphStoreSearch + ?Sized>(
    p: &GraphProjection<S>,
    ids: Seq<NodeId>,
    edges: Seq<EdgeId>,
    key: Seq<char>,
    keys: Seq<Seq<char>>,
)
    ensures
        p.spec_get_node_property_batch(ids, key).len() == ids.len(),
        p.spec_get_nodes_properties_batch(ids).len() == ids.len(),
        p.spec_get_nodes_properties_selective_batch(ids, keys).len() == ids.len(),
        p.spec_get_edges_properties_selective_batch(edges, keys).len() == edges.len(),
        forall|i: int|
            0 <= i < ids.len() ==> #[trigger] p.spec_get_node_property_batch(ids, key)[i]
                == if is_member(p, ids[i]) {
                p.base().spec_get_node_property(ids[i], key)
            } else {
                None
            },
        forall|i: int|
            0 <= i < ids.len() ==> #[trigger] p.spec_get_nodes_properties_batch(ids)[i]
                == if is_member(p, ids[i]) {
                only(p.base().spec_get_nodes_properties_batch(seq![ids[i]]))
            } else {
                Map::empty()
            },
        forall|i: int|
            0 <= i < ids.len() ==> #[trigger] p.spec_get_nodes_properties_selective_batch(
                ids,
                keys,
            )[i] == if is_member(p, ids[i]) {
                only(p.base().spec_get_nodes_properties_selective_batch(seq![ids[i]], keys))
            } else {
                Map::empty()
            },
        forall|i: int|
            0 <= i < edges.len() ==> #[trigger] p.spec_get_edges_properties_selective_batch(
                edges,
                keys,
            )[i] == match p.base().spec_get_edge(edges[i]) {
                Some(e) => if is_member_edge(p, e) {
                    only(p.base().spec_get_edges_properties_selective_batch(seq![edges[i]], keys))
                } else {
                    Map::empty()
                },
                None => Map::empty(),
            },
{
    lemma_member(p);
    assert forall|i: int| 0 <= i < ids.len() implies #[trigger] p.spec_get_nodes_properties_batch(
        ids,
    )[i] == if is_member(p, ids[i]) {
        only(p.base().spec_get_nodes_properties_batch(seq![ids[i]]))
    } else {
        Map::empty()
    } by {
        assert(p.node_visible(ids[i]) <==> is_member(p, ids[i]));
    }
    assert forall|i: int|
        0 <= i < ids.len() implies #[trigger] p.spec_get_nodes_properties_selective_batch(ids, keys)[i]
        == if is_member(p, ids[i]) {
        only(p.base().spec_get_nodes_properties_selective_batch(seq![ids[i]], keys))
    } else {
        Map::empty()
    } by {
        assert(p.node_visible(ids[i]) <==> is_member(p, ids[i]));
    }
}

/// Whether a step of a traversal stays in a projection: the node that it reaches
/// belongs to it, and the type that the store gives for its edge is asked for.
pub open spec fn is_member_step<S: GraphStoreSearch + ?Sized>(
    p: &GraphProjection<S>,
    step: (NodeId, EdgeId),
) -> bool {
    is_member(p, step.0) && p.base().spec_edge_type(step.1) is Some && has_wanted_type(
        p.filter(),
        p.base().spec_edge_type(step.1)->0,
    )
}

/// A traversal from a node that belongs to the projection lists the steps of the
/// store that stay in it, in the store's order; from another node it lists nothing.
/// The neighbours are the nodes that it reaches, one for each step; the degrees are
/// the numbers of its outgoing and of its incoming steps.
pub proof fn law_traversals<S: GraphStoreSearch + ?Sized>(
    p: &GraphProjection<S>,
    node: NodeId,
    direction: Direction,
)
    ensures
        is_member(p, node) ==> p.spec_edges_from(node, direction) == p.base().spec_edges_from(
            node,
            direction,
        ).filter(|step: (NodeId, EdgeId)| is_member_step(p, step)),
        !is_member(p, node) ==> p.spec_edges_from(node, direction).len() == 0,
        p.spec_neighbors(node, direction).len() == p.spec_edges_from(node, direction).len(),
        forall|i: int|
            0 <= i < p.spec_edges_from(node, direction).len() ==> #[trigger] p.spec_neighbors(
                node,
                direction,
            )[i] == p.spec_edges_from(node, direction)[i].0,
        p.spec_out_degree(node) == p.spec_edges_from(node, Direction::Outgoing).len(),
        p.spec_in_degree(node) == p.spec_edges_from(node, Direction::Incoming).len(),
{
    lemma_member(p);
    lemma_wanted(p.filter());
    assert(p.node_visible(node) <==> is_member(p, node));
    let a = |step: (NodeId, EdgeId)| p.step_visible(step);
    let b = |step: (NodeId, EdgeId)| is_member_step(p, step);
    assert forall|step: (NodeId, EdgeId)| #[trigger] a(step) == b(step) by {
        assert(p.node_visible(step.0) <==> is_member(p, step.0));
        if let Some(t) = p.base().spec_edge_type(step.1) {
            assert(p.filter().keeps_type(t) <==> has_wanted_type(p.filter(), t));
        }
    }
    assert(a =~= b);
}

/// The number of edges is the store's where nothing is asked for; otherwise it is the
/// number of outgoing steps that traversals list at the listed nodes.
pub proof fn law_edge_counts<S: GraphStoreSearch + ?Sized>(p: &GraphProjection<S>)
    ensures
        p.spec_edge_count() == if p.filter().node_labels == Set::<Seq<char>>::empty()
            && p.filter().edge_types == Set::<Seq<char>>::empty() {
            p.base().spec_edge_count()
        } else {
            total(
                Seq::new(
                    p.spec_node_ids().len(),
                    |i: int| p.spec_edges_from(p.spec_node_ids()[i], Direction::Outgoing).len(),
                ),
            )
        },
{
    let ids = p.spec_node_ids();
    assert(ids.map_values(|id: NodeId| p.spec_out_degree(id)) =~= Seq::new(
        ids.len(),
        |i: int| p.spec_edges_from(ids[i], Direction::Outgoing).len(),
    ));
}

/// Scans and searches list those nodes of the store's answer that belong to the
/// projection, in the store's order; the number of nodes is the number listed.
pub proof fn law_scans_and_searches<S: GraphStoreSearch + ?Sized>(
    p: &GraphProjection<S>,
    property: Seq<char>,
    value: ValueView,
    conditions: Seq<(Seq<char>, ValueView)>,
    min: Option<ValueView>,
    max: Option<ValueView>,
    min_inclusive: bool,
    max_inclusive: bool,
)
    ensures
        ({
            let member = |id: NodeId| is_member(p, id);
            &&& p.spec_node_ids() == p.base().spec_node_ids().filter(member)
            &&& p.spec_all_node_ids() == p.base().spec_all_node_ids().filter(member)
            &&& p.spec_find_nodes_by_property(property, value)
                == p.base().spec_find_nodes_by_property(property, value).filter(member)
            &&& p.spec_find_nodes_by_properties(conditions)
                == p.base().spec_find_nodes_by_properties(conditions).filter(member)
            &&& p.spec_find_nodes_in_range(property, min, max, min_inclusive, max_inclusive)
                == p.base().spec_find_nodes_in_range(
                property,
                min,
                max,
                min_inclusive,
                max_inclusive,
            ).filter(member)
        }),
        p.spec_node_count() == p.spec_node_ids().len(),
{
    lemma_member(p);
    let a = |id: NodeId| p.node_visible(id);
    let b = |id: NodeId| is_member(p, id);
    assert forall|id: NodeId| #[trigger] a(id) == b(id) by {
        assert(p.node_visible(id) <==> is_member(p, id));
    }
    assert(a =~= b);
}

/// The nodes with a label, their number and its estimate are the store's where the
/// label is asked for or no label is, and are nothing and zero otherwise; the same
/// holds of the estimate for an edge type.
pub proof fn law_label_and_type_reads<S: GraphStoreSearch + ?Sized>(
    p: &GraphProjection<S>,
    label: Seq<char>,
    edge_type: Seq<char>,
    outgoing: bool,
)
    ensures
        has_wanted_label(p.filter(), seq![label]) ==> {
            &&& p.spec_nodes_by_label(label) == p.base().spec_nodes_by_label(label)
            &&& p.spec_nodes_by_label_count(label) == p.base().spec_nodes_by_label_count(label)
            &&& p.spec_estimate_label_cardinality(label)
                == p.base().spec_estimate_label_cardinality(label)
        },
        !has_wanted_label(p.filter(), seq![label]) ==> {
            &&& p.spec_nodes_by_label(label).len() == 0
            &&& p.spec_nodes_by_label_count(label) == 0
            &&& p.spec_estimate_label_cardinality(label) == FloatBits(0)
        },
        p.spec_estimate_avg_degree(edge_type, outgoing) == if has_wanted_type(
            p.filter(),
            edge_type,
        ) {
            p.base().spec_estimate_avg_degree(edge_type, outgoing)
        } else {
            FloatBits(0)
        },
{
    lemma_wanted(p.filter());
    assert(p.filter().keeps_type(edge_type) <==> has_wanted_type(p.filter(), edge_type));
    assert(seq![label][0] == label);
    assert(p.filter().keeps_labels(seq![label]) <==> has_wanted_label(p.filter(), seq![label]));
    assert(p.filter().lists_label(label) <==> p.filter().keeps_labels(seq![label]));
}

/// The labels and edge types that are asked for are listed once each, and no others;
/// where none are asked for the store's are listed. The property keys are the
/// store's.
pub proof fn law_schema_reads<S: GraphStoreSearch + ?Sized>(p: &GraphProjection<S>, name: Seq<char>)
    requires
        p.filter().node_labels.finite(),
        p.filter().edge_types.finite(),
    ensures
        (forall|l: Seq<char>| !(#[trigger] p.filter().node_labels.contains(l)))
            ==> p.spec_all_labels() == p.base().spec_all_labels(),
        (exists|l: Seq<char>| #[trigger] p.filter().node_labels.contains(l))
            ==> p.spec_all_labels().count(name) == if p.filter().node_labels.contains(name) {
            1nat
        } else {
            0
        },
        (forall|t: Seq<char>| !(#[trigger] p.filter().edge_types.contains(t)))
            ==> p.spec_all_edge_types() == p.base().spec_all_edge_types(),
        (exists|t: Seq<char>| #[trigger] p.filter().edge_types.contains(t))
            ==> p.spec_all_edge_types().count(name) == if p.filter().edge_types.contains(name) {
            1nat
        } else {
            0
        },
        p.spec_all_property_keys() == p.base().spec_all_property_keys(),
{
    lemma_wanted(p.filter());
    lemma_count_in_set(p.filter().node_labels, name);
    lemma_count_in_set(p.filter().edge_types, name);
}

proof fn lemma_count_in_set(names: Set<Seq<char>>, name: Seq<char>)
    requires
        names.finite(),
    ensures
        Multiset::from_set(names).count(name) == if names.contains(name) {
            1nat
        } else {
            0
        },
{
    broadcast use vstd::multiset::group_multiset_axioms;

    let m = Map::<Seq<char>, nat>::new(|k: Seq<char>| names.contains(k), |v: Seq<char>| 1nat);
    assert(m.dom() =~= names);
    assert(Multiset::from_set(names) == Multiset::from_map(m));
}

/// What a projection does not filter it reads from the store.
pub proof fn law_unfiltered_kinds_of_read<S: GraphStoreSearch + ?Sized>(
    p: &GraphProjection<S>,
    property: Seq<char>,
    op: CompareOp,
    value: ValueView,
)
    ensures
        p.spec_has_backward_adjacency() == p.base().spec_has_backward_adjacency(),
        p.spec_has_property_index(property) == p.base().spec_has_property_index(property),
        p.spec_node_property_might_match(property, op, value)
            == p.base().spec_node_property_might_match(property, op, value),
        p.spec_edge_property_might_match(property, op, value)
            == p.base().spec_edge_property_might_match(property, op, value),
        p.spec_statistics() == p.base().spec_statistics(),
        p.spec_current_epoch() == p.base().spec_current_epoch(),
{
}

/// A projection has no search index.
pub proof fn law_no_search_index<S: GraphStoreSearch + ?Sized>(
    p: &GraphProjection<S>,
    label: Seq<char>,
    property: Seq<char>,
)
    ensures
        !p.spec_has_text_index(label, property),
        !p.spec_has_vector_index(label, property),
{
}

} // verus!
