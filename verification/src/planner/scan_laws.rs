//! What a plan gives, where the engine's scans do what their fields say.
//!
//! A scan of a text index gives the nodes with its label whose score for its terms
//! passes its threshold; a scan of a vector index gives the nodes with its label that
//! are as similar and as near as it asks. This module follows one node through the
//! plans of an engine with such scans.

use vstd::prelude::*;

use super::expression::{BinaryOp, ExprView, LogicalExpression};
use super::hybrid::{finds_vector, is_vector_scan, pairs_predicates};
use super::laws::{
    bare, conjuncts, law_scalar_rest_is_implied, law_text_split_keeps_meaning, or_view,
    respects_and, respects_or, rest_holds, text_conjunct,
};
use super::operator::{
    ExtractedVectorPredicate, FilterOp, LogicalOperator, PhysicalOperator, QueryEngine, TextScanOp,
    VectorMetric, VectorScanOp,
};
use super::rows::{converts_faithfully, gives, lemma_finished_gives, lemma_join_gives};
use super::search_laws::{
    compares_scores, lemma_text_conjunct, lemma_text_conjunct_searches, searches, searches_by,
};
use super::text_filter::{is_text_scan, Planner};
use super::text_predicate::{text_predicate, TextPredicateView, Threshold};
use crate::graph::GraphStoreSearch;
use crate::text::opt_view;
use crate::types::FloatBits;

verus! {

/// What is true of one node.
pub struct Facts {
    /// Whether it has a label.
    pub has_label: spec_fn(Seq<char>) -> bool,
    /// Its score, by variable, property and terms.
    pub score: spec_fn(Seq<char>, Seq<char>, ExprView) -> int,
    /// Its similarity, by variable, property, vector and measure.
    pub similarity: spec_fn(Seq<char>, Seq<char>, ExprView, Option<VectorMetric>) -> int,
    /// Its distance, by variable, property, vector and measure.
    pub distance: spec_fn(Seq<char>, Seq<char>, ExprView, Option<VectorMetric>) -> int,
    /// The expressions that it meets.
    pub holds: spec_fn(ExprView) -> bool,
    /// Where numbers stand on the scale of scores, similarities and distances.
    pub number: spec_fn(Threshold) -> int,
    /// Whether a text scan gives the node if it scores just the threshold.
    pub at_threshold: bool,
}

/// Whether a node passes a threshold; no threshold admits all.
pub open spec fn passes(threshold: Option<Threshold>, score: int, f: Facts) -> bool {
    match threshold {
        Some(c) => score > (f.number)(c) || (f.at_threshold && score == (f.number)(c)),
        None => true,
    }
}

/// Whether a node is as similar and as near as two bounds ask; an absent bound admits
/// all.
pub open spec fn within(
    variable: Seq<char>,
    property: Seq<char>,
    vector: ExprView,
    metric: Option<VectorMetric>,
    min_similarity: Option<FloatBits>,
    max_distance: Option<FloatBits>,
    f: Facts,
) -> bool {
    &&& min_similarity matches Some(b) ==> (f.similarity)(variable, property, vector, metric)
        >= (f.number)(Threshold::Float64(b))
    &&& max_distance matches Some(b) ==> (f.distance)(variable, property, vector, metric) <= (
    f.number)(Threshold::Float64(b))
}

/// Whether a scan of a text index, without a limit and with a score column, gives a
/// node.
pub open spec fn text_scan_gives(scan: TextScanOp, f: Facts) -> bool {
    (f.has_label)(scan.label@) && passes(
        scan.threshold,
        (f.score)(scan.variable@, scan.property@, scan.query@),
        f,
    )
}

/// Whether a scan of a vector index, without a limit or an input, gives a node.
pub open spec fn vector_scan_gives(scan: VectorScanOp, f: Facts) -> bool {
    &&& scan.label matches Some(label) ==> (f.has_label)(label@)
    &&& within(
        scan.variable@,
        scan.property@,
        scan.query_vector@,
        scan.metric,
        scan.min_similarity,
        scan.max_distance,
        f,
    )
}

/// Whether a scan of a vector index names the index on its property of the nodes with
/// its label.
pub open spec fn names_its_index(scan: VectorScanOp) -> bool {
    match (scan.index_name, scan.label) {
        (Some(name), Some(label)) => name@ == label@ + seq![':'] + scan.property@,
        _ => false,
    }
}

/// Whether the scans that an engine plans give the node just when their fields say
/// so.
pub open spec fn scans_do_what_they_say<E: QueryEngine>(
    engine: E,
    finds: spec_fn(E::Operator) -> bool,
    f: Facts,
) -> bool {
    &&& forall|scan: TextScanOp, planned: (E::Operator, Vec<String>)| #[trigger]
        call_ensures(
            E::plan_operator,
            (&engine, &LogicalOperator::TextScan(scan)),
            Ok::<(E::Operator, Vec<String>), E::Error>(planned),
        ) && scan.k is None && scan.score_column is Some ==> finds(planned.0) == text_scan_gives(
            scan,
            f,
        )
    &&& forall|scan: VectorScanOp, planned: (E::Operator, Vec<String>)| #[trigger]
        call_ensures(
            E::plan_operator,
            (&engine, &LogicalOperator::VectorScan(scan)),
            Ok::<(E::Operator, Vec<String>), E::Error>(planned),
        ) && scan.k is None && scan.input is None && names_its_index(scan) ==> finds(planned.0)
            == vector_scan_gives(scan, f)
}

/// Whether the vector predicates that an engine finds mean what their fields say: a
/// node meets an expression just when it is within the bounds of the predicate that
/// is found in it, and meets what the predicate leaves over.
pub open spec fn vector_predicates_mean_their_bounds<E: QueryEngine>(engine: E, f: Facts) -> bool {
    forall|e: LogicalExpression, v: ExtractedVectorPredicate| #[trigger]
        finds_vector(engine, e, Some(v)) ==> (f.holds)(e@) == (within_bounds_of(v, f) && rest_holds(
            f.holds,
            opt_view(v.remaining),
        ))
}

/// Whether a node is within the bounds of a vector predicate.
pub open spec fn within_bounds_of(v: ExtractedVectorPredicate, f: Facts) -> bool {
    within(
        v.variable@,
        v.property@,
        v.query_vector@,
        Some(v.metric),
        v.min_similarity,
        v.max_distance,
        f,
    )
}

/// Whether text scans treat a node that scores just the number of a text search in an
/// expression as the search does: the fields of a scan do not tell `>` from `>=`.
pub open spec fn treats_ties_alike(e: ExprView, f: Facts) -> bool {
    forall|c: ExprView, t: TextPredicateView|
        conjuncts(e).contains(c) && #[trigger] searches(c, t) && (f.score)(
            t.variable,
            t.property,
            t.query_expr,
        ) == (f.number)(t.threshold) ==> (f.holds)(c) == f.at_threshold
}

/// Whether expressions mean for the node what they say.
pub open spec fn means_what_it_says(f: Facts) -> bool {
    &&& respects_and(f.holds)
    &&& respects_or(f.holds)
    &&& compares_scores(f.holds, f.score, f.number)
}

/// A node passes the threshold of a text predicate just when it meets the search that
/// the predicate comes from.
proof fn lemma_search_passes(e: ExprView, t: TextPredicateView, f: Facts)
    requires
        text_predicate(e) == Some(t),
        means_what_it_says(f),
        treats_ties_alike(e, f),
    ensures
        passes(Some(t.threshold), (f.score)(t.variable, t.property, t.query_expr), f) == (f.holds)(
            text_conjunct(e),
        ),
{
    let c = text_conjunct(e);
    let b = bare(t);
    lemma_text_conjunct(e);
    lemma_text_conjunct_searches(e, t);
    assert(searches(c, b));
    let distinct = choose|distinct: bool| #[trigger] searches_by(c, b, distinct);
    assert(searches_by(c, b, distinct));
    let holds = f.holds;
    assert(holds(c) == holds(c));
}

/// What a planned text scan finds.
proof fn lemma_text_scan<E: QueryEngine>(
    engine: E,
    op: LogicalOperator,
    variable: Seq<char>,
    label: Seq<char>,
    t: TextPredicateView,
    column: Seq<char>,
    planned: (E::Operator, Vec<String>),
    finds: spec_fn(E::Operator) -> bool,
    f: Facts,
)
    requires
        is_text_scan(op, variable, label, t, column),
        call_ensures(
            E::plan_operator,
            (&engine, &op),
            Ok::<(E::Operator, Vec<String>), E::Error>(planned),
        ),
        scans_do_what_they_say(engine, finds, f),
    ensures
        finds(planned.0) == ((f.has_label)(label) && passes(
            Some(t.threshold),
            (f.score)(variable, t.property, t.query_expr),
            f,
        )),
{
    let scan = op->TextScan_0;
    assert(op == LogicalOperator::TextScan(scan));
}

/// What a planned vector scan finds.
proof fn lemma_vector_scan<E: QueryEngine>(
    engine: E,
    op: LogicalOperator,
    variable: Seq<char>,
    label: Seq<char>,
    v: ExtractedVectorPredicate,
    planned: (E::Operator, Vec<String>),
    finds: spec_fn(E::Operator) -> bool,
    f: Facts,
)
    requires
        is_vector_scan(op, variable, label, v),
        variable == v.variable@,
        call_ensures(
            E::plan_operator,
            (&engine, &op),
            Ok::<(E::Operator, Vec<String>), E::Error>(planned),
        ),
        scans_do_what_they_say(engine, finds, f),
    ensures
        finds(planned.0) == ((f.has_label)(label) && within_bounds_of(v, f)),
{
    let scan = op->VectorScan_0;
    assert(op == LogicalOperator::VectorScan(scan));
    reveal_strlit(":");
    assert(":"@ =~= seq![':']);
    assert(names_its_index(scan));
}

/// The plan of a filter by a text index gives a node just when the label scan under
/// the filter does and it meets the filter, for an engine whose scans do what their
/// fields say. In particular a node that a comparison of its score with a number
/// rules out is not given.
pub proof fn law_text_plan_gives_by_the_fields_of_its_scan<
    S: GraphStoreSearch + ?Sized,
    E: QueryEngine,
>(
    planner: &Planner<S, E>,
    filter: FilterOp,
    op: PhysicalOperator<S, E>,
    columns: Vec<String>,
    label: String,
    finds: spec_fn(E::Operator) -> bool,
    means: spec_fn(E::Expression) -> bool,
    f: Facts,
)
    requires
        call_ensures(
            Planner::<S, E>::try_plan_filter_with_text_index,
            (planner, &filter),
            Ok::<Option<(PhysicalOperator<S, E>, Vec<String>)>, E::Error>(Some((op, columns))),
        ),
        *filter.input matches LogicalOperator::NodeScan(scan) ==> scan.label == Some(label),
        means_what_it_says(f),
        treats_ties_alike(filter.predicate@, f),
        converts_faithfully(planner.engine, f.holds, means),
        scans_do_what_they_say(planner.engine, finds, f),
    ensures
        gives(op, finds, means) == ((f.has_label)(label@) && (f.holds)(filter.predicate@)),
{
    let r = Ok::<Option<(PhysicalOperator<S, E>, Vec<String>)>, E::Error>(Some((op, columns)));
    assert(planner.plans_text_filter(filter, r));
    let e = filter.predicate@;
    let (variable, l, t) = planner.text_pushdown(filter)->0;
    let (column, scan_op, planned) = choose|
        column: Seq<char>,
        scan_op: LogicalOperator,
        planned: Result<(E::Operator, Vec<String>), E::Error>,
    |
        #![trigger is_text_scan(scan_op, variable, l, t, column), call_ensures(E::plan_operator, (&planner.engine, &scan_op), planned)]
        is_text_scan(scan_op, variable, l, t, column) && call_ensures(
            E::plan_operator,
            (&planner.engine, &scan_op),
            planned,
        ) && match planned {
            Ok((scan, scan_columns)) => planner.finishes(
                PhysicalOperator::Planned(scan),
                scan_columns,
                t.remaining,
                r,
            ),
            Err(_) => false,
        };
    let (scan, scan_columns) = planned->Ok_0;
    assert(planned == Ok::<(E::Operator, Vec<String>), E::Error>((scan, scan_columns)));
    lemma_finished_gives(
        planner,
        PhysicalOperator::Planned(scan),
        scan_columns,
        t.remaining,
        op,
        columns,
        f.holds,
        finds,
        means,
    );
    lemma_text_scan(
        planner.engine,
        scan_op,
        variable,
        l,
        t,
        column,
        (scan, scan_columns),
        finds,
        f,
    );
    lemma_search_passes(e, t, f);
    law_text_split_keeps_meaning(e, t, f.holds);
}

/// The plan of a filter by a vector and a text index gives a node just when the label
/// scan under the filter does and it meets the filter, for an engine whose scans do
/// what their fields say and whose vector predicates mean their bounds. In particular
/// a node that is too far or not similar enough for a conjunction is not given.
pub proof fn law_hybrid_plan_gives_by_the_fields_of_its_scans<
    S: GraphStoreSearch + ?Sized,
    E: QueryEngine,
>(
    planner: &Planner<S, E>,
    filter: FilterOp,
    op: PhysicalOperator<S, E>,
    columns: Vec<String>,
    label: String,
    finds: spec_fn(E::Operator) -> bool,
    means: spec_fn(E::Expression) -> bool,
    f: Facts,
)
    requires
        call_ensures(
            Planner::<S, E>::try_plan_filter_compound_hybrid,
            (planner, &filter),
            Ok::<Option<(PhysicalOperator<S, E>, Vec<String>)>, E::Error>(Some((op, columns))),
        ),
        *filter.input matches LogicalOperator::NodeScan(scan) ==> scan.label == Some(label),
        means_what_it_says(f),
        match filter.predicate {
            LogicalExpression::Binary { left, op: BinaryOp::Or, right } => treats_ties_alike(
                left@,
                f,
            ) && treats_ties_alike(right@, f),
            e => treats_ties_alike(e@, f),
        },
        converts_faithfully(planner.engine, f.holds, means),
        scans_do_what_they_say(planner.engine, finds, f),
        vector_predicates_mean_their_bounds(planner.engine, f),
    ensures
        gives(op, finds, means) == ((f.has_label)(label@) && (f.holds)(filter.predicate@)),
{
    let e = filter.predicate;
    let engine = planner.engine;
    let holds = f.holds;
    let r = Ok::<Option<(PhysicalOperator<S, E>, Vec<String>)>, E::Error>(Some((op, columns)));
    assert(planner.plans_compound_filter(filter, r));
    let scan = filter.input->NodeScan_0;
    let variable = scan.variable@;
    let l = label@;
    let pair = choose|pair: Option<(ExtractedVectorPredicate, TextPredicateView, bool)>| #[trigger]
        pairs_predicates(engine, e, pair) && match pair {
            None => false,
            Some((v, t, is_or)) => planner.can_scan_both(variable, l, v, t) && planner.scans_both(
                e,
                variable,
                l,
                v,
                t,
                is_or,
                r,
            ),
        };
    let (v, t, is_or) = pair->0;
    let (vector_op, vector_planned) = choose|
        vector_op: LogicalOperator,
        planned: Result<(E::Operator, Vec<String>), E::Error>,
    |
        is_vector_scan(vector_op, variable, l, v) && #[trigger] call_ensures(
            E::plan_operator,
            (&engine, &vector_op),
            planned,
        ) && match planned {
            Err(_) => false,
            Ok((left, left_cols)) => planner.scans_text_too(
                e,
                variable,
                l,
                t,
                left,
                left_cols,
                opt_view(v.remaining),
                is_or,
                r,
            ),
        };
    let (left, left_cols) = vector_planned->Ok_0;
    assert(vector_planned == Ok::<(E::Operator, Vec<String>), E::Error>((left, left_cols)));
    let (column, text_op, text_planned) = choose|
        column: Seq<char>,
        text_op: LogicalOperator,
        planned: Result<(E::Operator, Vec<String>), E::Error>,
    |
        #![trigger is_text_scan(text_op, variable, l, t, column), call_ensures(E::plan_operator, (&engine, &text_op), planned)]
        is_text_scan(text_op, variable, l, t, column) && call_ensures(
            E::plan_operator,
            (&engine, &text_op),
            planned,
        ) && match planned {
            Err(_) => false,
            Ok((right, right_cols)) => planner.joins_scans(
                e,
                left,
                left_cols,
                opt_view(v.remaining),
                right,
                right_cols,
                t.remaining,
                is_or,
                r,
            ),
        };
    let (right, right_cols) = text_planned->Ok_0;
    assert(text_planned == Ok::<(E::Operator, Vec<String>), E::Error>((right, right_cols)));
    let rest = lemma_join_gives(
        planner,
        e,
        left,
        left_cols,
        opt_view(v.remaining),
        right,
        right_cols,
        t.remaining,
        is_or,
        op,
        columns,
        holds,
        finds,
        means,
    );
    lemma_vector_scan(engine, vector_op, variable, l, v, (left, left_cols), finds, f);
    lemma_text_scan(engine, text_op, variable, l, t, column, (right, right_cols), finds, f);
    let (vs, ts) = match e {
        LogicalExpression::Binary { left: a, op: BinaryOp::Or, right: b } => if finds_vector(
            engine,
            *a,
            Some(v),
        ) && text_predicate(b@) == Some(t) {
            (*a, *b)
        } else {
            (*b, *a)
        },
        _ => (e, e),
    };
    assert(finds_vector(engine, vs, Some(v)) && text_predicate(ts@) == Some(t));
    lemma_search_passes(ts@, t, f);
    law_text_split_keeps_meaning(ts@, t, holds);
    law_scalar_rest_is_implied(engine, e, rest, holds);
    if is_or {
        assert(holds(or_view(vs@, ts@)) == (holds(vs@) || holds(ts@)));
        assert(holds(or_view(ts@, vs@)) == (holds(ts@) || holds(vs@)));
    }
}

} // verus!
