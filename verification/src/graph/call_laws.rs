//! What the calls of a projection return.
//!
//! The laws of a projection speak of the names that its reads have in the model.
//! These tie a call and what it returned to the name, and the arguments of a
//! constructor to what it made.

use std::sync::Arc;

use arcstr::ArcStr;
use vstd::prelude::*;

use super::entity::{opt_text, CompareOp, Direction, Edge, Node};
use super::projection::{GraphProjection, ProjectionSpec};
use super::store::{conditions_view, opt_values_view, GraphStore, GraphStoreSearch};
use crate::text::{opt_view, seq_view};
use crate::types::{
    EdgeId, EpochId, FloatBits, NodeId, PropertyKey, PropertyMap, TransactionId, Value,
};

verus! {

/// The spec that asks for nothing names no label and no type. Asking for labels or
/// types makes the spec name those that are listed, and leaves the others as they
/// were. A copy names the same.
pub proof fn law_specs_name_what_is_asked_for(
    empty: ProjectionSpec,
    fresh: ProjectionSpec,
    spec: ProjectionSpec,
    names: &[&str],
    labelled: ProjectionSpec,
    typed: ProjectionSpec,
    copy: ProjectionSpec,
    name: Seq<char>,
)
    requires
        call_ensures(ProjectionSpec::new, (), empty),
        call_ensures(ProjectionSpec::default, (), fresh),
        call_ensures(ProjectionSpec::with_node_labels, (spec, names), labelled),
        call_ensures(ProjectionSpec::with_edge_types, (spec, names), typed),
        call_ensures(ProjectionSpec::clone, (&spec,), copy),
    ensures
        !empty@.node_labels.contains(name) && !empty@.edge_types.contains(name),
        !fresh@.node_labels.contains(name) && !fresh@.edge_types.contains(name),
        labelled@.node_labels.contains(name) <==> exists|i: int|
            0 <= i < names@.len() && (#[trigger] names@[i])@ == name,
        labelled@.edge_types == spec@.edge_types,
        typed@.edge_types.contains(name) <==> exists|i: int|
            0 <= i < names@.len() && (#[trigger] names@[i])@ == name,
        typed@.node_labels == spec@.node_labels,
        copy@.node_labels == spec@.node_labels && copy@.edge_types == spec@.edge_types,
{
    let views = seq_view(names@);
    if exists|i: int| 0 <= i < names@.len() && (#[trigger] names@[i])@ == name {
        let i = choose|i: int| 0 <= i < names@.len() && (#[trigger] names@[i])@ == name;
        assert(views[i] == name);
        assert(views.contains(name));
    }
    if views.contains(name) {
        let i = choose|i: int| 0 <= i < views.len() && views[i] == name;
        assert(names@[i]@ == name);
    }
}

/// A new projection reads the store that it was given, by the spec that it was
/// given.
pub proof fn law_a_projection_is_of_its_store_and_spec<S: GraphStoreSearch + ?Sized>(
    store: Arc<S>,
    spec: ProjectionSpec,
    p: GraphProjection<S>,
)
    requires
        call_ensures(GraphProjection::<S>::new, (store, spec), p),
    ensures
        p.base() == store,
        p.filter().node_labels == spec@.node_labels,
        p.filter().edge_types == spec@.edge_types,
{
}

/// What the model says of lookups is what they return.
pub proof fn law_lookups_return_what_the_model_says<S: GraphStoreSearch + ?Sized>(
    p: &GraphProjection<S>,
    id: NodeId,
    edge_id: EdgeId,
    epoch: EpochId,
    transaction_id: TransactionId,
    r_get_node: Option<Node>,
    r_get_edge: Option<Edge>,
    r_get_node_versioned: Option<Node>,
    r_get_edge_versioned: Option<Edge>,
    r_get_node_at_epoch: Option<Node>,
    r_get_edge_at_epoch: Option<Edge>,
)
    requires
        call_ensures(GraphProjection::<S>::get_node, (p, id), r_get_node),
        call_ensures(GraphProjection::<S>::get_edge, (p, edge_id), r_get_edge),
        call_ensures(GraphProjection::<S>::get_node_versioned, (p, id, epoch, transaction_id), r_get_node_versioned),
        call_ensures(GraphProjection::<S>::get_edge_versioned, (p, edge_id, epoch, transaction_id), r_get_edge_versioned),
        call_ensures(GraphProjection::<S>::get_node_at_epoch, (p, id, epoch), r_get_node_at_epoch),
        call_ensures(GraphProjection::<S>::get_edge_at_epoch, (p, edge_id, epoch), r_get_edge_at_epoch),
    ensures
        opt_view(r_get_node) == p.spec_get_node(id),
        opt_view(r_get_edge) == p.spec_get_edge(edge_id),
        opt_view(r_get_node_versioned) == p.spec_get_node_versioned(id, epoch, transaction_id),
        opt_view(r_get_edge_versioned) == p.spec_get_edge_versioned(edge_id, epoch, transaction_id),
        opt_view(r_get_node_at_epoch) == p.spec_get_node_at_epoch(id, epoch),
        opt_view(r_get_edge_at_epoch) == p.spec_get_edge_at_epoch(edge_id, epoch),
{
}

/// What the model says of reads of properties is what they return.
pub proof fn law_property_reads_return_what_the_model_says<S: GraphStoreSearch + ?Sized>(
    p: &GraphProjection<S>,
    id: NodeId,
    key: &PropertyKey,
    edge_id: EdgeId,
    ids: &[NodeId],
    keys: &[PropertyKey],
    edge_ids: &[EdgeId],
    r_get_node_property: Option<Value>,
    r_get_edge_property: Option<Value>,
    r_get_node_property_batch: Vec<Option<Value>>,
    r_get_nodes_properties_batch: Vec<PropertyMap>,
    r_get_nodes_properties_selective_batch: Vec<PropertyMap>,
    r_get_edges_properties_selective_batch: Vec<PropertyMap>,
)
    requires
        call_ensures(GraphProjection::<S>::get_node_property, (p, id, key), r_get_node_property),
        call_ensures(GraphProjection::<S>::get_edge_property, (p, edge_id, key), r_get_edge_property),
        call_ensures(GraphProjection::<S>::get_node_property_batch, (p, ids, key), r_get_node_property_batch),
        call_ensures(GraphProjection::<S>::get_nodes_properties_batch, (p, ids), r_get_nodes_properties_batch),
        call_ensures(GraphProjection::<S>::get_nodes_properties_selective_batch, (p, ids, keys), r_get_nodes_properties_selective_batch),
        call_ensures(GraphProjection::<S>::get_edges_properties_selective_batch, (p, edge_ids, keys), r_get_edges_properties_selective_batch),
    ensures
        opt_view(r_get_node_property) == p.spec_get_node_property(id, key@),
        opt_view(r_get_edge_property) == p.spec_get_edge_property(edge_id, key@),
        opt_values_view(r_get_node_property_batch@) == p.spec_get_node_property_batch(ids@, key@),
        seq_view(r_get_nodes_properties_batch@) == p.spec_get_nodes_properties_batch(ids@),
        seq_view(r_get_nodes_properties_selective_batch@) == p.spec_get_nodes_properties_selective_batch(ids@, seq_view(keys@)),
        seq_view(r_get_edges_properties_selective_batch@) == p.spec_get_edges_properties_selective_batch(edge_ids@, seq_view(keys@)),
{
}

/// What the model says of traversals is what they return.
pub proof fn law_traversals_return_what_the_model_says<S: GraphStoreSearch + ?Sized>(
    p: &GraphProjection<S>,
    node: NodeId,
    direction: Direction,
    r_neighbors: Vec<NodeId>,
    r_edges_from: Vec<(NodeId, EdgeId)>,
    r_out_degree: usize,
    r_in_degree: usize,
    r_has_backward_adjacency: bool,
)
    requires
        call_ensures(GraphProjection::<S>::neighbors, (p, node, direction), r_neighbors),
        call_ensures(GraphProjection::<S>::edges_from, (p, node, direction), r_edges_from),
        call_ensures(GraphProjection::<S>::out_degree, (p, node), r_out_degree),
        call_ensures(GraphProjection::<S>::in_degree, (p, node), r_in_degree),
        call_ensures(GraphProjection::<S>::has_backward_adjacency, (p,), r_has_backward_adjacency),
    ensures
        r_neighbors@ == p.spec_neighbors(node, direction),
        r_edges_from@ == p.spec_edges_from(node, direction),
        r_out_degree == p.spec_out_degree(node),
        r_in_degree == p.spec_in_degree(node),
        r_has_backward_adjacency == p.spec_has_backward_adjacency(),
{
}

/// What the model says of scans and counts is what they return.
pub proof fn law_scans_return_what_the_model_says<S: GraphStoreSearch + ?Sized>(
    p: &GraphProjection<S>,
    label: &str,
    r_node_ids: Vec<NodeId>,
    r_all_node_ids: Vec<NodeId>,
    r_nodes_by_label: Vec<NodeId>,
    r_nodes_by_label_count: usize,
    r_node_count: usize,
    r_edge_count: usize,
)
    requires
        call_ensures(GraphProjection::<S>::node_ids, (p,), r_node_ids),
        call_ensures(GraphProjection::<S>::all_node_ids, (p,), r_all_node_ids),
        call_ensures(GraphProjection::<S>::nodes_by_label, (p, label), r_nodes_by_label),
        call_ensures(GraphProjection::<S>::nodes_by_label_count, (p, label), r_nodes_by_label_count),
        call_ensures(GraphProjection::<S>::node_count, (p,), r_node_count),
        call_ensures(GraphProjection::<S>::edge_count, (p,), r_edge_count),
        p.spec_edge_count() <= usize::MAX,
    ensures
        r_node_ids@ == p.spec_node_ids(),
        r_all_node_ids@ == p.spec_all_node_ids(),
        r_nodes_by_label@ == p.spec_nodes_by_label(label@),
        r_nodes_by_label_count == p.spec_nodes_by_label_count(label@),
        r_node_count == p.spec_node_count(),
        r_edge_count == p.spec_edge_count(),
{
}

/// What the model says of reads of edge types is what they return.
pub proof fn law_edge_types_return_what_the_model_says<S: GraphStoreSearch + ?Sized>(
    p: &GraphProjection<S>,
    id: EdgeId,
    epoch: EpochId,
    transaction_id: TransactionId,
    r_edge_type: Option<ArcStr>,
    r_edge_type_versioned: Option<ArcStr>,
)
    requires
        call_ensures(GraphProjection::<S>::edge_type, (p, id), r_edge_type),
        call_ensures(GraphProjection::<S>::edge_type_versioned, (p, id, epoch, transaction_id), r_edge_type_versioned),
    ensures
        opt_text(r_edge_type) == p.spec_edge_type(id),
        opt_text(r_edge_type_versioned) == p.spec_edge_type_versioned(id, epoch, transaction_id),
{
}

/// What the model says of reads that nothing filters is what they return.
pub proof fn law_delegated_return_what_the_model_says<S: GraphStoreSearch + ?Sized>(
    p: &GraphProjection<S>,
    property: &str,
    property_key: &PropertyKey,
    op: CompareOp,
    value: &Value,
    r_has_property_index: bool,
    r_node_property_might_match: bool,
    r_edge_property_might_match: bool,
    r_current_epoch: EpochId,
)
    requires
        call_ensures(GraphProjection::<S>::has_property_index, (p, property), r_has_property_index),
        call_ensures(GraphProjection::<S>::node_property_might_match, (p, property_key, op, value), r_node_property_might_match),
        call_ensures(GraphProjection::<S>::edge_property_might_match, (p, property_key, op, value), r_edge_property_might_match),
        call_ensures(GraphProjection::<S>::current_epoch, (p,), r_current_epoch),
    ensures
        r_has_property_index == p.spec_has_property_index(property@),
        r_node_property_might_match == p.spec_node_property_might_match(property_key@, op, value@),
        r_edge_property_might_match == p.spec_edge_property_might_match(property_key@, op, value@),
        r_current_epoch == p.spec_current_epoch(),
{
}

/// What the model says of searches is what they return.
pub proof fn law_searches_return_what_the_model_says<S: GraphStoreSearch + ?Sized>(
    p: &GraphProjection<S>,
    property: &str,
    value: &Value,
    conditions: &[(&str, Value)],
    min: Option<&Value>,
    max: Option<&Value>,
    min_inclusive: bool,
    max_inclusive: bool,
    r_find_nodes_by_property: Vec<NodeId>,
    r_find_nodes_by_properties: Vec<NodeId>,
    r_find_nodes_in_range: Vec<NodeId>,
)
    requires
        call_ensures(GraphProjection::<S>::find_nodes_by_property, (p, property, value), r_find_nodes_by_property),
        call_ensures(GraphProjection::<S>::find_nodes_by_properties, (p, conditions), r_find_nodes_by_properties),
        call_ensures(GraphProjection::<S>::find_nodes_in_range, (p, property, min, max, min_inclusive, max_inclusive), r_find_nodes_in_range),
    ensures
        r_find_nodes_by_property@ == p.spec_find_nodes_by_property(property@, value@),
        r_find_nodes_by_properties@ == p.spec_find_nodes_by_properties(conditions_view(conditions@)),
        r_find_nodes_in_range@ == p.spec_find_nodes_in_range(property@, opt_view(min), opt_view(max), min_inclusive, max_inclusive),
{
}

/// What the model says of estimates is what they return.
pub proof fn law_estimates_return_what_the_model_says<S: GraphStoreSearch + ?Sized>(
    p: &GraphProjection<S>,
    label: &str,
    edge_type: &str,
    outgoing: bool,
    r_statistics: Arc<S::Statistics>,
    r_estimate_label_cardinality: FloatBits,
    r_estimate_avg_degree: FloatBits,
)
    requires
        call_ensures(GraphProjection::<S>::statistics, (p,), r_statistics),
        call_ensures(GraphProjection::<S>::estimate_label_cardinality, (p, label), r_estimate_label_cardinality),
        call_ensures(GraphProjection::<S>::estimate_avg_degree, (p, edge_type, outgoing), r_estimate_avg_degree),
    ensures
        r_statistics == p.spec_statistics(),
        r_estimate_label_cardinality == p.spec_estimate_label_cardinality(label@),
        r_estimate_avg_degree == p.spec_estimate_avg_degree(edge_type@, outgoing),
{
}

/// What the model says of lists of the schema is what they return.
pub proof fn law_schema_lists_return_what_the_model_says<S: GraphStoreSearch + ?Sized>(
    p: &GraphProjection<S>,
    r_all_labels: Vec<String>,
    r_all_edge_types: Vec<String>,
    r_all_property_keys: Vec<String>,
)
    requires
        call_ensures(GraphProjection::<S>::all_labels, (p,), r_all_labels),
        call_ensures(GraphProjection::<S>::all_edge_types, (p,), r_all_edge_types),
        call_ensures(GraphProjection::<S>::all_property_keys, (p,), r_all_property_keys),
    ensures
        seq_view(r_all_labels@).to_multiset() == p.spec_all_labels(),
        seq_view(r_all_edge_types@).to_multiset() == p.spec_all_edge_types(),
        seq_view(r_all_property_keys@).to_multiset() == p.spec_all_property_keys(),
{
}

/// Where nothing is asked for, the labels and edge types are listed as the store
/// lists them; the property keys always are.
pub proof fn law_unfiltered_lists_are_the_stores<S: GraphStoreSearch + ?Sized>(
    p: &GraphProjection<S>,
    labels: Vec<String>,
    types: Vec<String>,
    keys: Vec<String>,
)
    requires
        call_ensures(GraphProjection::<S>::all_labels, (p,), labels),
        call_ensures(GraphProjection::<S>::all_edge_types, (p,), types),
        call_ensures(GraphProjection::<S>::all_property_keys, (p,), keys),
    ensures
        p.filter().node_labels == Set::<Seq<char>>::empty() ==> call_ensures(
            S::all_labels,
            (&*p.base(),),
            labels,
        ),
        p.filter().edge_types == Set::<Seq<char>>::empty() ==> call_ensures(
            S::all_edge_types,
            (&*p.base(),),
            types,
        ),
        call_ensures(S::all_property_keys, (&*p.base(),), keys),
{
}

} // verus!
