//! When a filter is planned, and what the plan is made of.

use std::sync::Arc;

use vstd::prelude::*;

use super::expression::{BinaryOp, ExprView, LogicalExpression};
use super::hybrid::{
    finds_vector, hybrid_layout, is_hybrid_join, is_vector_scan, leaves_scalar, merged_columns,
    pairs_predicates, HybridLayout, PlanResult,
};
use super::laws::{bare, conjuncts};
use super::operator::{
    ExtractedVectorPredicate, FilterOp, LogicalOperator, NodeScanOp, PhysicalJoinType,
    PhysicalOperator, QueryEngine, TextScanOp, VectorScanOp,
};
use super::row_laws::are_sides;
use super::search_laws::{
    first_search, law_text_predicate_is_of_the_first_search, law_there_is_one_first_search,
};
use super::text_filter::{is_text_scan, names_score_column, Planner, TextPushdown};
use super::text_predicate::{text_predicate, ExtractedTextPredicate, TextPredicateView};
use crate::graph::GraphStoreSearch;
use crate::text::{opt_view, seq_view};
use crate::types::{EpochId, TransactionId};

verus! {

/// Whether a filter stands directly on a scan of the nodes with a label.
pub open spec fn stands_on(filter: FilterOp, scan: NodeScanOp, label: String) -> bool {
    *filter.input == LogicalOperator::NodeScan(scan) && scan.label == Some(label)
}

/// Whether a text index can answer a filter: the filter stands on a label scan that no
/// operator feeds, the first text search among its conjuncts is about the scanned
/// nodes, and the store has a text index for it.
pub open spec fn text_index_answers<S: GraphStoreSearch + ?Sized, E: QueryEngine>(
    planner: &Planner<S, E>,
    filter: FilterOp,
    scan: NodeScanOp,
    label: String,
    t: TextPredicateView,
    i: int,
) -> bool {
    &&& stands_on(filter, scan, label)
    &&& scan.input is None
    &&& first_search(filter.predicate@, t, i)
    &&& t.variable == scan.variable@
    &&& planner.store.spec_has_text_index(label@, t.property)
}

/// A filter is planned by a text index, or planning fails, just when an index can
/// answer it; otherwise it is left alone.
pub proof fn law_text_filter_is_planned_just_when_an_index_answers_it<
    S: GraphStoreSearch + ?Sized,
    E: QueryEngine,
>(planner: &Planner<S, E>, filter: FilterOp, r: PlanResult<S, E>)
    requires
        call_ensures(
            Planner::<S, E>::try_plan_filter_with_text_index,
            (planner, &filter),
            r,
        ),
    ensures
        r != Ok::<Option<(PhysicalOperator<S, E>, Vec<String>)>, E::Error>(None) <==> exists|
            scan: NodeScanOp,
            label: String,
            t: TextPredicateView,
            i: int,
        | #[trigger]
            text_index_answers(planner, filter, scan, label, t, i),
{
    assert(planner.plans_text_filter(filter, r));
    let e = filter.predicate@;
    law_text_predicate_is_of_the_first_search(e);
    if planner.text_pushdown(filter) is Some {
        let t = text_predicate(e)->0;
        let scan = filter.input->NodeScan_0;
        let label = scan.label->0;
        let i = choose|i: int| #[trigger] first_search(e, bare(t), i);
        assert(text_index_answers(planner, filter, scan, label, bare(t), i));
    }
    if exists|scan: NodeScanOp, label: String, t: TextPredicateView, i: int| #[trigger]
        text_index_answers(planner, filter, scan, label, t, i) {
        let (scan, label, t, i) = choose|
            scan: NodeScanOp,
            label: String,
            t: TextPredicateView,
            i: int,
        | #[trigger]
            text_index_answers(planner, filter, scan, label, t, i);
        match text_predicate(e) {
            Some(u) => {
                let j = choose|j: int| #[trigger] first_search(e, bare(u), j);
                law_there_is_one_first_search(e, t, i, bare(u), j);
            },
            None => {},
        }
        assert(planner.text_pushdown(filter) is Some);
        lemma_planned_text_is_not_nothing(planner, filter, r);
    }
}

proof fn lemma_planned_text_is_not_nothing<S: GraphStoreSearch + ?Sized, E: QueryEngine>(
    planner: &Planner<S, E>,
    filter: FilterOp,
    r: PlanResult<S, E>,
)
    requires
        planner.plans_text_filter(filter, r),
        planner.text_pushdown(filter) is Some,
    ensures
        r != Ok::<Option<(PhysicalOperator<S, E>, Vec<String>)>, E::Error>(None),
{
}

/// The decision to push a filter down is the same one.
pub proof fn law_pushdown_is_found_just_when_an_index_answers<
    S: GraphStoreSearch + ?Sized,
    E: QueryEngine,
>(
    planner: &Planner<S, E>,
    filter: FilterOp,
    found: Option<TextPushdown>,
)
    requires
        call_ensures(Planner::<S, E>::find_text_pushdown, (planner, &filter), found),
    ensures
        match found {
            Some(p) => exists|scan: NodeScanOp, label: String, i: int| #[trigger]
                text_index_answers(planner, filter, scan, label, bare(p.predicate@), i)
                    && p.variable@ == scan.variable@ && p.label@ == label@,
            None => forall|scan: NodeScanOp, label: String, t: TextPredicateView, i: int|
                !(#[trigger] text_index_answers(planner, filter, scan, label, t, i)),
        },
{
    let e = filter.predicate@;
    law_text_predicate_is_of_the_first_search(e);
    match found {
        Some(p) => {
            let t = text_predicate(e)->0;
            let scan = filter.input->NodeScan_0;
            let label = scan.label->0;
            let i = choose|i: int| #[trigger] first_search(e, bare(t), i);
            assert(text_index_answers(planner, filter, scan, label, bare(t), i));
        },
        None => {
            assert forall|scan: NodeScanOp, label: String, t: TextPredicateView, i: int| !(
            #[trigger] text_index_answers(planner, filter, scan, label, t, i)) by {
                if text_index_answers(planner, filter, scan, label, t, i) {
                    let u = text_predicate(e)->0;
                    let j = choose|j: int| #[trigger] first_search(e, bare(u), j);
                    law_there_is_one_first_search(e, t, i, bare(u), j);
                }
            }
        },
    }
}

/// Whether the score column of a scan is the one that the engine named for it.
pub open spec fn has_its_score_column<E: QueryEngine>(engine: E, scan: TextScanOp) -> bool {
    exists|variable: &str, property: &str, query: LogicalExpression, name: String| #[trigger]
        call_ensures(E::text_score_column_name, (&engine, variable, property, &query), name)
            && variable@ == scan.variable@ && property@ == scan.property@ && query@ == scan.query@
            && opt_view(scan.score_column) == Some(name@)
}

/// Whether a scan of a text index is for a predicate: its terms, property and number,
/// on the nodes of a label scan, without a limit, with its score.
pub open spec fn scans_for_text<E: QueryEngine>(
    engine: E,
    scan: TextScanOp,
    variable: Seq<char>,
    label: Seq<char>,
    t: TextPredicateView,
) -> bool {
    &&& scan.variable@ == variable
    &&& scan.label@ == label
    &&& scan.property@ == t.property
    &&& scan.query@ == t.query_expr
    &&& scan.threshold == Some(t.threshold)
    &&& scan.k is None
    &&& has_its_score_column(engine, scan)
}

/// Whether a scan of a vector index is for a predicate: its vector, property, measure
/// and bounds, on the nodes of a label scan, without a limit.
pub open spec fn scans_for_vectors(
    scan: VectorScanOp,
    variable: Seq<char>,
    label: Seq<char>,
    v: ExtractedVectorPredicate,
) -> bool {
    &&& scan.variable@ == variable
    &&& opt_view(scan.label) == Some(label)
    &&& scan.property@ == v.property@
    &&& opt_view(scan.index_name) == Some(label + seq![':'] + v.property@)
    &&& scan.query_vector@ == v.query_vector@
    &&& scan.metric == Some(v.metric)
    &&& scan.min_similarity == v.min_similarity
    &&& scan.max_distance == v.max_distance
    &&& scan.k is None
    &&& scan.input is None
}

proof fn lemma_is_text_scan<E: QueryEngine>(
    engine: E,
    op: LogicalOperator,
    variable: Seq<char>,
    label: Seq<char>,
    t: TextPredicateView,
    column: Seq<char>,
)
    requires
        names_score_column(engine, variable, t.property, t.query_expr, column),
        is_text_scan(op, variable, label, t, column),
    ensures
        op matches LogicalOperator::TextScan(scan) && scans_for_text(
            engine,
            scan,
            variable,
            label,
            t,
        ),
{
}

proof fn lemma_is_vector_scan(
    op: LogicalOperator,
    variable: Seq<char>,
    label: Seq<char>,
    v: ExtractedVectorPredicate,
)
    requires
        is_vector_scan(op, variable, label, v),
    ensures
        op matches LogicalOperator::VectorScan(scan) && scans_for_vectors(scan, variable, label, v),
{
    reveal_strlit(":");
    assert(":"@ =~= seq![':']);
}

/// The scans that are built carry the whole of the predicates that they are for.
pub proof fn law_scans_carry_their_predicates<S: GraphStoreSearch + ?Sized, E: QueryEngine>(
    planner: &Planner<S, E>,
    variable: String,
    label: String,
    t: ExtractedTextPredicate,
    v: ExtractedVectorPredicate,
    text_op: LogicalOperator,
    vector_op: LogicalOperator,
)
    requires
        call_ensures(Planner::<S, E>::text_scan, (planner, &variable, &label, &t), text_op),
        call_ensures(Planner::<S, E>::vector_scan, (planner, &variable, &label, &v), vector_op),
    ensures
        text_op matches LogicalOperator::TextScan(scan) && scans_for_text(
            planner.engine,
            scan,
            variable@,
            label@,
            t@,
        ),
        vector_op matches LogicalOperator::VectorScan(scan) && scans_for_vectors(
            scan,
            variable@,
            label@,
            v,
        ),
{
    let column = choose|column: Seq<char>|
        names_score_column(
            planner.engine,
            variable@,
            t@.property,
            t@.query_expr,
            column,
        ) && #[trigger] is_text_scan(text_op, variable@, label@, t@, column);
    lemma_is_text_scan(planner.engine, text_op, variable@, label@, t@, column);
    lemma_is_vector_scan(vector_op, variable@, label@, v);
}

/// A plan without the filter on top of it.
pub open spec fn under_filter<S: GraphStoreSearch + ?Sized, E: QueryEngine>(
    op: PhysicalOperator<S, E>,
) -> PhysicalOperator<S, E> {
    match op {
        PhysicalOperator::Filter { input, .. } => *input,
        _ => op,
    }
}

/// Whether a plan has a filter on top for a condition, which evaluates what the engine
/// made of the condition, or no filter where there is no condition.
pub open spec fn is_filtered_by<S: GraphStoreSearch + ?Sized, E: QueryEngine>(
    engine: E,
    op: PhysicalOperator<S, E>,
    condition: Option<ExprView>,
) -> bool {
    match (op, condition) {
        (PhysicalOperator::Filter { predicate, .. }, Some(e)) => exists|x: LogicalExpression|
            #[trigger] call_ensures(
                E::convert_expression,
                (&engine, &x),
                Ok::<E::Expression, E::Error>(predicate.expression),
            ) && x@ == e,
        (PhysicalOperator::Filter { .. }, None) => false,
        (_, condition) => condition is None,
    }
}

/// Whether a condition is the conjunction of all conjuncts of an expression but one.
pub open spec fn is_rest_of(rest: Option<ExprView>, e: ExprView, i: int) -> bool {
    match rest {
        Some(x) => conjuncts(x) == conjuncts(e).remove(i),
        None => conjuncts(e).len() == 1,
    }
}

/// Whether an error is one that the engine gave on converting an expression.
pub open spec fn fails_to_convert<E: QueryEngine>(engine: E, error: E::Error) -> bool {
    exists|x: LogicalExpression| #[trigger]
        call_ensures(
            E::convert_expression,
            (&engine, &x),
            Err::<E::Expression, E::Error>(error),
        )
}

/// The plan of a filter by a text index is the scan for the first text search, as the
/// engine plans it, with a filter for the other conjuncts, in order, on it just when
/// there are any; planning fails only with the error that the engine gave for the scan or, where there are
/// other conjuncts, for a condition.
pub proof fn law_text_plan_is_the_scan_for_the_first_search<
    S: GraphStoreSearch + ?Sized,
    E: QueryEngine,
>(
    planner: &Planner<S, E>,
    filter: FilterOp,
    node_scan: NodeScanOp,
    label: String,
    t: TextPredicateView,
    i: int,
    r: PlanResult<S, E>,
)
    requires
        call_ensures(
            Planner::<S, E>::try_plan_filter_with_text_index,
            (planner, &filter),
            r,
        ),
        text_index_answers(planner, filter, node_scan, label, t, i),
    ensures
        exists|scan: TextScanOp, planned: Result<(E::Operator, Vec<String>), E::Error>| #[trigger]
            call_ensures(
                E::plan_operator,
                (&planner.engine, &LogicalOperator::TextScan(scan)),
                planned,
            ) && scans_for_text(planner.engine, scan, node_scan.variable@, label@, t) && match (
                planned,
                r,
            ) {
                (Err(error), Err(given)) => error == given,
                (Ok((o, columns)), Ok(Some((op, given)))) => given == columns && under_filter(op)
                    == PhysicalOperator::<S, E>::Planned(o) && (op is Filter <==> conjuncts(
                    filter.predicate@,
                ).len() > 1) && exists|rest: Option<ExprView>| #[trigger]
                    is_filtered_by(planner.engine, op, rest) && is_rest_of(
                        rest,
                        filter.predicate@,
                        i,
                    ),
                (Ok(_), Err(error)) => conjuncts(filter.predicate@).len() > 1 && fails_to_convert(
                    planner.engine,
                    error,
                ),
                _ => false,
            },
{
    assert(planner.plans_text_filter(filter, r));
    let e = filter.predicate@;
    let engine = planner.engine;
    law_text_predicate_is_of_the_first_search(e);
    let u = text_predicate(e)->0;
    let j = choose|j: int| #[trigger]
        first_search(e, bare(u), j) && match u.remaining {
            Some(rest) => conjuncts(rest) == conjuncts(e).remove(j),
            None => conjuncts(e).len() == 1,
        };
    law_there_is_one_first_search(e, t, i, bare(u), j);
    if let Some(rest) = u.remaining {
        lemma_conjuncts_not_empty(rest);
        assert(conjuncts(e).remove(j).len() == conjuncts(e).len() - 1);
    }
    let variable = node_scan.variable@;
    let l = label@;
    let (column, scan_op, planned) = choose|
        column: Seq<char>,
        scan_op: LogicalOperator,
        planned: Result<(E::Operator, Vec<String>), E::Error>,
    |
        #![trigger is_text_scan(scan_op, variable, l, u, column), call_ensures(E::plan_operator, (&engine, &scan_op), planned)]
        names_score_column(engine, variable, u.property, u.query_expr, column)
            && is_text_scan(scan_op, variable, l, u, column) && call_ensures(
            E::plan_operator,
            (&engine, &scan_op),
            planned,
        ) && match planned {
            Ok((scan, scan_columns)) => planner.finishes(
                PhysicalOperator::Planned(scan),
                scan_columns,
                u.remaining,
                r,
            ),
            Err(error) => r == Err::<
                Option<(PhysicalOperator<S, E>, Vec<String>)>,
                E::Error,
            >(error),
        };
    lemma_is_text_scan(engine, scan_op, variable, l, u, column);
    let scan = scan_op->TextScan_0;
    assert(scan_op == LogicalOperator::TextScan(scan));
    assert(scans_for_text(engine, scan, variable, l, t));
    if let Ok((o, columns)) = planned {
        lemma_finishes(planner, PhysicalOperator::Planned(o), columns, u.remaining, r);
        if let Ok(Some((op, _))) = r {
            assert(is_filtered_by(engine, op, u.remaining));
            assert(is_rest_of(u.remaining, e, i));
        }
    }
}

proof fn lemma_conjuncts_not_empty(e: ExprView)
    ensures
        conjuncts(e).len() > 0,
    decreases e,
{
    if let ExprView::Binary { left, op: BinaryOp::And, right } = e {
        lemma_conjuncts_not_empty(*left);
        lemma_conjuncts_not_empty(*right);
    }
}

/// What finishing a plan gives: the operator, with a filter on it just when something
/// remains.
proof fn lemma_finishes<S: GraphStoreSearch + ?Sized, E: QueryEngine>(
    planner: &Planner<S, E>,
    op: PhysicalOperator<S, E>,
    columns: Vec<String>,
    remaining: Option<ExprView>,
    r: PlanResult<S, E>,
)
    requires
        planner.finishes(op, columns, remaining, r),
    ensures
        match r {
            Ok(Some((done, given))) => given == columns && (match remaining {
                Some(_) => done is Filter && under_filter(done) == op,
                None => done == op,
            }) && (!(op is Filter) ==> is_filtered_by(planner.engine, done, remaining)),
            Ok(None) => false,
            Err(error) => remaining is Some && fails_to_convert(planner.engine, error),
        },
{
    let w = choose|w: Result<PhysicalOperator<S, E>, E::Error>| #[trigger]
        planner.wraps_if_any(op, seq_view(columns@), remaining, w) && match w {
            Ok(done) => r == Ok::<Option<(PhysicalOperator<S, E>, Vec<String>)>, E::Error>(
                Some((done, columns)),
            ),
            Err(error) => r == Err::<
                Option<(PhysicalOperator<S, E>, Vec<String>)>,
                E::Error,
            >(error),
        };
    lemma_wraps(planner, op, seq_view(columns@), remaining, w);
}

proof fn lemma_wraps<S: GraphStoreSearch + ?Sized, E: QueryEngine>(
    planner: &Planner<S, E>,
    op: PhysicalOperator<S, E>,
    columns: Seq<Seq<char>>,
    remaining: Option<ExprView>,
    w: Result<PhysicalOperator<S, E>, E::Error>,
)
    requires
        planner.wraps_if_any(op, columns, remaining, w),
    ensures
        match w {
            Ok(done) => (match remaining {
                Some(_) => done is Filter && under_filter(done) == op,
                None => done == op,
            }) && (!(op is Filter) ==> is_filtered_by(planner.engine, done, remaining)),
            Err(error) => remaining is Some && fails_to_convert(planner.engine, error),
        },
{
    if let Some(e) = remaining {
        assert(planner.wraps(op, columns, e, w));
        let (x, converted) = choose|
            x: LogicalExpression,
            converted: Result<E::Expression, E::Error>,
        |
            x@ == e && #[trigger] call_ensures(
                E::convert_expression,
                (&planner.engine, &x),
                converted,
            ) && match converted {
                Ok(expression) => match w {
                    Ok(PhysicalOperator::Filter { input, predicate }) => *input == op
                        && predicate.expression == expression,
                    _ => false,
                },
                Err(error) => w == Err::<PhysicalOperator<S, E>, E::Error>(error),
            };
        if let Ok(expression) = converted {
            assert(call_ensures(
                E::convert_expression,
                (&planner.engine, &x),
                Ok::<E::Expression, E::Error>(expression),
            ));
        }
        if let Err(error) = converted {
            assert(call_ensures(
                E::convert_expression,
                (&planner.engine, &x),
                Err::<E::Expression, E::Error>(error),
            ));
        }
    }
}

/// What the plan of a filter by a vector and a text index is made of.
pub struct HybridParts<E: QueryEngine> {
    pub node_scan: NodeScanOp,
    pub label: String,
    pub vector_side: LogicalExpression,
    pub text_side: LogicalExpression,
    pub v: ExtractedVectorPredicate,
    pub t: TextPredicateView,
    pub i: int,
    pub resolved: Result<(), E::Error>,
    pub vector_scan: VectorScanOp,
    pub vector_planned: Result<(E::Operator, Vec<String>), E::Error>,
    pub text_scan: TextScanOp,
    pub text_planned: Result<(E::Operator, Vec<String>), E::Error>,
    pub text_rest: Option<ExprView>,
    pub scalar_rest: Option<ExprView>,
}

/// Whether an expression is a disjunction.
pub open spec fn is_disjunction(e: LogicalExpression) -> bool {
    e matches LogicalExpression::Binary { op: BinaryOp::Or, .. }
}

/// Whether a vector and a text index can answer a filter: the filter stands on a label
/// scan; a vector predicate and a text search are found in the two sides of it, which
/// leave nothing over, if it is a disjunction, and else in the whole; both are about
/// the scanned nodes, the store has an index for each, and the engine resolves the
/// query vector.
pub open spec fn both_indexes_answer<S: GraphStoreSearch + ?Sized, E: QueryEngine>(
    planner: &Planner<S, E>,
    filter: FilterOp,
    w: HybridParts<E>,
) -> bool {
    &&& stands_on(filter, w.node_scan, w.label)
    &&& are_sides(filter.predicate, w.vector_side, w.text_side)
    &&& finds_vector(planner.engine, w.vector_side, Some(w.v))
    &&& first_search(w.text_side@, w.t, w.i)
    &&& is_disjunction(filter.predicate) ==> w.v.remaining is None && conjuncts(
        w.text_side@,
    ).len() == 1
    &&& w.v.variable@ == w.node_scan.variable@
    &&& w.t.variable == w.node_scan.variable@
    &&& planner.store.spec_has_vector_index(w.label@, w.v.property@)
    &&& planner.store.spec_has_text_index(w.label@, w.t.property)
    &&& call_ensures(
        E::resolve_vector_literal,
        (&planner.engine, &w.v.query_vector),
        w.resolved,
    )
    &&& w.resolved is Ok
}

/// Whether an operator joins two planned scans on their first columns, each filtered by
/// what is left over for it: the rows that both give, or those that either gives.
pub open spec fn joins_on_first_columns<S: GraphStoreSearch + ?Sized, E: QueryEngine>(
    engine: E,
    op: PhysicalOperator<S, E>,
    a: E::Operator,
    a_rest: Option<ExprView>,
    b: E::Operator,
    b_rest: Option<ExprView>,
    either: bool,
) -> bool {
    match op {
        PhysicalOperator::Project { input, .. } => match *input {
            PhysicalOperator::HashJoin {
                left,
                right,
                probe_keys,
                build_keys,
                join_type,
                ..
            } => {
                &&& under_filter(*left) == PhysicalOperator::<S, E>::Planned(a)
                &&& is_filtered_by(engine, *left, a_rest)
                &&& under_filter(*right) == PhysicalOperator::<S, E>::Planned(b)
                &&& is_filtered_by(engine, *right, b_rest)
                &&& probe_keys@ == seq![0usize]
                &&& build_keys@ == seq![0usize]
                &&& join_type == PhysicalJoinType::Full <==> either
                &&& join_type == PhysicalJoinType::Inner <==> !either
            },
            _ => false,
        },
        _ => false,
    }
}

/// Whether the schemas of a projected join are those that the engine derives from the
/// columns that come out of it and from those that go into it.
pub open spec fn has_derived_schemas<S: GraphStoreSearch + ?Sized, E: QueryEngine>(
    engine: E,
    op: PhysicalOperator<S, E>,
    joined: Seq<String>,
    output: Seq<String>,
) -> bool {
    match op {
        PhysicalOperator::Project { input, schema: out, .. } => match *input {
            PhysicalOperator::HashJoin { schema, .. } => {
                &&& exists|names: &[String]| #[trigger]
                    call_ensures(E::derive_schema_from_columns, (&engine, names), out) && names@
                        == output
                &&& exists|names: &[String]| #[trigger]
                    call_ensures(E::derive_schema_from_columns, (&engine, names), schema) && names@
                        == joined
            },
            _ => false,
        },
        _ => false,
    }
}

/// Whether a result follows from what the engine planned.
pub open spec fn is_made_of<S: GraphStoreSearch + ?Sized, E: QueryEngine>(
    planner: &Planner<S, E>,
    filter: FilterOp,
    w: HybridParts<E>,
    h: PlanResult<S, E>,
) -> bool {
    let engine = planner.engine;
    let variable = w.node_scan.variable@;
    &&& call_ensures(
        E::plan_operator,
        (&engine, &LogicalOperator::VectorScan(w.vector_scan)),
        w.vector_planned,
    )
    &&& scans_for_vectors(w.vector_scan, variable, w.label@, w.v)
    &&& match w.vector_planned {
        Err(error) => h == Err::<Option<(PhysicalOperator<S, E>, Vec<String>)>, E::Error>(error),
        Ok((a, a_columns)) => {
            &&& call_ensures(
                E::plan_operator,
                (&engine, &LogicalOperator::TextScan(w.text_scan)),
                w.text_planned,
            )
            &&& scans_for_text(engine, w.text_scan, variable, w.label@, w.t)
            &&& match (w.text_planned, h) {
                (Err(error), Err(given)) => error == given,
                (Ok((b, b_columns)), Ok(Some((op, columns)))) => {
                    &&& joins_on_first_columns(
                        engine,
                        under_filter(op),
                        a,
                        opt_view(w.v.remaining),
                        b,
                        w.text_rest,
                        is_disjunction(filter.predicate),
                    )
                    &&& is_rest_of(w.text_rest, w.text_side@, w.i)
                    &&& is_filtered_by(engine, op, w.scalar_rest)
                    &&& leaves_scalar(engine, filter.predicate, w.scalar_rest)
                    &&& has_derived_schemas(
                        engine,
                        under_filter(op),
                        a_columns@ + b_columns@,
                        columns@,
                    )
                    &&& columns@.take(a_columns@.len() as int) == a_columns@
                    &&& columns@.skip(a_columns@.len() as int) == b_columns@.skip(
                        if b_columns@.len() == 0 {
                            0
                        } else {
                            1
                        },
                    )
                },
                (Ok(_), Err(error)) => fails_to_convert(engine, error),
                _ => false,
            }
        },
    }
}

/// A filter is planned by a vector and a text index, or planning fails, only when both
/// indexes can answer it. The plan is the join of the scans for the two predicates, as
/// the engine plans them, each filtered by what its predicate leaves over; on the join
/// is a filter for the conditions that no index answers, if there are any. Its columns are those of the vector scan, then those of the text
/// scan without the first. Planning fails only with an error that the engine gave.
pub proof fn law_hybrid_plan_is_the_join_of_the_scans<S: GraphStoreSearch + ?Sized, E: QueryEngine>(
    planner: &Planner<S, E>,
    filter: FilterOp,
    h: PlanResult<S, E>,
) -> (w: HybridParts<E>)
    requires
        call_ensures(Planner::<S, E>::try_plan_filter_compound_hybrid, (planner, &filter), h),
        h != Ok::<Option<(PhysicalOperator<S, E>, Vec<String>)>, E::Error>(None),
    ensures
        both_indexes_answer(planner, filter, w),
        is_made_of(planner, filter, w, h),
{
    assert(planner.plans_compound_filter(filter, h));
    let e = filter.predicate;
    let engine = planner.engine;
    let node_scan = filter.input->NodeScan_0;
    let label = node_scan.label->0;
    let variable = node_scan.variable@;
    let l = label@;
    let pair = choose|pair: Option<(ExtractedVectorPredicate, TextPredicateView, bool)>| #[trigger]
        pairs_predicates(engine, e, pair) && match pair {
            None => false,
            Some((v, t, is_or)) => planner.can_scan_both(variable, l, v, t) && exists|
                resolved: Result<(), E::Error>,
            | #[trigger]
                call_ensures(E::resolve_vector_literal, (&engine, &v.query_vector), resolved)
                    && resolved is Ok && planner.scans_both(e, variable, l, v, t, is_or, h),
        };
    let (v, u, is_or) = pair->0;
    let resolved = choose|resolved: Result<(), E::Error>| #[trigger]
        call_ensures(E::resolve_vector_literal, (&engine, &v.query_vector), resolved) && resolved
            is Ok && planner.scans_both(e, variable, l, v, u, is_or, h);
    let (vector_side, text_side) = match e {
        LogicalExpression::Binary { left: a, op: BinaryOp::Or, right: b } => if finds_vector(
            engine,
            *a,
            Some(v),
        ) && text_predicate(b@) == Some(u) {
            (*a, *b)
        } else {
            (*b, *a)
        },
        _ => (e, e),
    };
    assert(finds_vector(engine, vector_side, Some(v)) && text_predicate(text_side@) == Some(u));
    law_text_predicate_is_of_the_first_search(text_side@);
    let i = choose|i: int| #[trigger]
        first_search(text_side@, bare(u), i) && match u.remaining {
            Some(rest) => conjuncts(rest) == conjuncts(text_side@).remove(i),
            None => conjuncts(text_side@).len() == 1,
        };
    if let Some(rest) = u.remaining {
        lemma_conjuncts_not_empty(rest);
        assert(conjuncts(text_side@).remove(i).len() == conjuncts(text_side@).len() - 1);
    }
    let t = bare(u);
    let (vector_op, vector_planned) = choose|
        vector_op: LogicalOperator,
        planned: Result<(E::Operator, Vec<String>), E::Error>,
    |
        is_vector_scan(vector_op, variable, l, v) && #[trigger] call_ensures(
            E::plan_operator,
            (&engine, &vector_op),
            planned,
        ) && match planned {
            Err(error) => h == Err::<
                Option<(PhysicalOperator<S, E>, Vec<String>)>,
                E::Error,
            >(error),
            Ok((left, left_cols)) => planner.scans_text_too(
                e,
                variable,
                l,
                u,
                left,
                left_cols,
                opt_view(v.remaining),
                is_or,
                h,
            ),
        };
    lemma_is_vector_scan(vector_op, variable, l, v);
    let vector_scan = vector_op->VectorScan_0;
    assert(vector_op == LogicalOperator::VectorScan(vector_scan));
    let blank = HybridParts::<E> {
        node_scan,
        label,
        vector_side,
        text_side,
        v,
        t,
        i,
        resolved,
        vector_scan,
        vector_planned,
        text_scan: arbitrary(),
        text_planned: arbitrary(),
        text_rest: u.remaining,
        scalar_rest: arbitrary(),
    };
    if vector_planned is Err {
        blank
    } else {
        let (left, left_cols) = vector_planned->Ok_0;
        let (column, text_op, text_planned) = choose|
            column: Seq<char>,
            text_op: LogicalOperator,
            planned: Result<(E::Operator, Vec<String>), E::Error>,
        |
            #![trigger is_text_scan(text_op, variable, l, u, column), call_ensures(E::plan_operator, (&engine, &text_op), planned)]
            names_score_column(
                engine,
                variable,
                u.property,
                u.query_expr,
                column,
            ) && is_text_scan(text_op, variable, l, u, column) && call_ensures(
                E::plan_operator,
                (&engine, &text_op),
                planned,
            ) && match planned {
                Err(error) => h == Err::<
                    Option<(PhysicalOperator<S, E>, Vec<String>)>,
                    E::Error,
                >(error),
                Ok((right, right_cols)) => planner.joins_scans(
                    e,
                    left,
                    left_cols,
                    opt_view(v.remaining),
                    right,
                    right_cols,
                    u.remaining,
                    is_or,
                    h,
                ),
            };
        lemma_is_text_scan(engine, text_op, variable, l, u, column);
        let text_scan = text_op->TextScan_0;
        assert(text_op == LogicalOperator::TextScan(text_scan));
        assert(scans_for_text(engine, text_scan, variable, l, t));
        let scalar_rest = if text_planned is Ok {
            let (right, right_cols) = text_planned->Ok_0;
            lemma_joins(
                planner,
                e,
                left,
                left_cols,
                opt_view(v.remaining),
                right,
                right_cols,
                u.remaining,
                is_or,
                h,
            )
        } else {
            None
        };
        HybridParts::<E> { text_scan, text_planned, scalar_rest, ..blank }
    }
}

proof fn lemma_joins<S: GraphStoreSearch + ?Sized, E: QueryEngine>(
    planner: &Planner<S, E>,
    predicate: LogicalExpression,
    left: E::Operator,
    left_cols: Vec<String>,
    left_rest: Option<ExprView>,
    right: E::Operator,
    right_cols: Vec<String>,
    right_rest: Option<ExprView>,
    is_or: bool,
    h: PlanResult<S, E>,
) -> (scalar_rest: Option<ExprView>)
    requires
        planner.joins_scans(
            predicate,
            left,
            left_cols,
            left_rest,
            right,
            right_cols,
            right_rest,
            is_or,
            h,
        ),
    ensures
        match h {
            Ok(Some((op, columns))) => {
                &&& joins_on_first_columns(
                    planner.engine,
                    under_filter(op),
                    left,
                    left_rest,
                    right,
                    right_rest,
                    is_or,
                )
                &&& is_filtered_by(planner.engine, op, scalar_rest)
                &&& leaves_scalar(planner.engine, predicate, scalar_rest)
                &&& has_derived_schemas(
                    planner.engine,
                    under_filter(op),
                    left_cols@ + right_cols@,
                    columns@,
                )
                &&& columns@.take(left_cols@.len() as int) == left_cols@
                &&& columns@.skip(left_cols@.len() as int) == right_cols@.skip(
                    if right_cols@.len() == 0 {
                        0
                    } else {
                        1
                    },
                )
            },
            Ok(None) => false,
            Err(error) => fails_to_convert(planner.engine, error),
        },
{
    let left_scan = PhysicalOperator::<S, E>::Planned(left);
    let right_scan = PhysicalOperator::<S, E>::Planned(right);
    let l = choose|l: Result<PhysicalOperator<S, E>, E::Error>| #[trigger]
        planner.wraps_if_any(left_scan, seq_view(left_cols@), left_rest, l) && match l {
            Err(error) => h == Err::<
                Option<(PhysicalOperator<S, E>, Vec<String>)>,
                E::Error,
            >(error),
            Ok(left_op) => planner.joins_filtered_left(
                predicate,
                left_op,
                left_cols,
                right,
                right_cols,
                right_rest,
                is_or,
                h,
            ),
        };
    lemma_wraps(planner, left_scan, seq_view(left_cols@), left_rest, l);
    if let Ok(left_op) = l {
        let w = choose|w: Result<PhysicalOperator<S, E>, E::Error>| #[trigger]
            planner.wraps_if_any(right_scan, seq_view(right_cols@), right_rest, w) && match w {
                Err(error) => h == Err::<
                    Option<(PhysicalOperator<S, E>, Vec<String>)>,
                    E::Error,
                >(error),
                Ok(right_op) => planner.joins_filtered(
                    predicate,
                    left_op,
                    left_cols,
                    right_op,
                    right_cols,
                    is_or,
                    h,
                ),
            };
        lemma_wraps(planner, right_scan, seq_view(right_cols@), right_rest, w);
        if let Ok(right_op) = w {
            let (op, columns, rest) = choose|
                op: PhysicalOperator<S, E>,
                columns: Vec<String>,
                rest: Option<ExprView>,
            |
                is_hybrid_join(
                    planner.engine,
                    left_op,
                    left_cols@,
                    right_op,
                    right_cols@,
                    is_or,
                    op,
                ) && columns@ == merged_columns(left_cols@, right_cols@)
                    && leaves_scalar(planner.engine, predicate, rest)
                    && #[trigger] planner.finishes(op, columns, rest, h);
            lemma_finishes(planner, op, columns, rest, h);
            assert(joins_on_first_columns(
                planner.engine,
                op,
                left,
                left_rest,
                right,
                right_rest,
                is_or,
            ));
            assert(columns@.take(left_cols@.len() as int) =~= left_cols@);
            assert(columns@.skip(left_cols@.len() as int) =~= right_cols@.skip(
                if right_cols@.len() == 0 {
                    0
                } else {
                    1
                },
            ));
            rest
        } else {
            None
        }
    } else {
        None
    }
}

/// A filter that is no disjunction is planned by a vector and a text index, or planning
/// fails, when both indexes are sure to answer it.
pub proof fn law_hybrid_conjunction_is_planned<S: GraphStoreSearch + ?Sized, E: QueryEngine>(
    planner: &Planner<S, E>,
    filter: FilterOp,
    node_scan: NodeScanOp,
    label: String,
    t: TextPredicateView,
    i: int,
    h: PlanResult<S, E>,
)
    requires
        call_ensures(Planner::<S, E>::try_plan_filter_compound_hybrid, (planner, &filter), h),
        stands_on(filter, node_scan, label),
        !is_disjunction(filter.predicate),
        first_search(filter.predicate@, t, i),
        t.variable == node_scan.variable@,
        planner.store.spec_has_text_index(label@, t.property),
        is_sure_to_answer(planner, filter.predicate, node_scan.variable@, label@),
    ensures
        h != Ok::<Option<(PhysicalOperator<S, E>, Vec<String>)>, E::Error>(None),
{
    assert(planner.plans_compound_filter(filter, h));
    let e = filter.predicate;
    law_text_predicate_is_of_the_first_search(e@);
    let u = text_predicate(e@)->0;
    let j = choose|j: int| #[trigger] first_search(e@, bare(u), j);
    law_there_is_one_first_search(e@, t, i, bare(u), j);
    lemma_hybrid_is_planned(planner, filter, node_scan, label, h);
}

/// Whether an engine is sure to find a vector predicate in an expression, about the
/// nodes that are bound to a variable and have a label, with an index for it and a
/// vector that it resolves.
pub open spec fn is_sure_to_answer<S: GraphStoreSearch + ?Sized, E: QueryEngine>(
    planner: &Planner<S, E>,
    e: LogicalExpression,
    variable: Seq<char>,
    label: Seq<char>,
) -> bool {
    forall|found: Option<ExtractedVectorPredicate>| #[trigger]
        finds_vector(planner.engine, e, found) ==> match found {
            Some(v) => v.variable@ == variable && planner.store.spec_has_vector_index(
                label,
                v.property@,
            ) && forall|resolved: Result<(), E::Error>| #[trigger]
                call_ensures(
                    E::resolve_vector_literal,
                    (&planner.engine, &v.query_vector),
                    resolved,
                ) ==> resolved is Ok,
            None => false,
        }
}

/// Whether an engine leaves nothing over of an expression that it finds a vector
/// predicate in.
pub open spec fn leaves_nothing_over<E: QueryEngine>(engine: E, e: LogicalExpression) -> bool {
    forall|v: ExtractedVectorPredicate| #[trigger]
        finds_vector(engine, e, Some(v)) ==> v.remaining is None
}

/// A disjunction of a pure vector predicate and a text search, in either order, is
/// planned by a vector and a text index, or planning fails, when both indexes are sure
/// to answer it. The vector predicate must not be a text search as well.
pub proof fn law_hybrid_disjunction_is_planned<S: GraphStoreSearch + ?Sized, E: QueryEngine>(
    planner: &Planner<S, E>,
    filter: FilterOp,
    node_scan: NodeScanOp,
    label: String,
    vector_side: LogicalExpression,
    text_side: LogicalExpression,
    t: TextPredicateView,
    h: PlanResult<S, E>,
)
    requires
        call_ensures(Planner::<S, E>::try_plan_filter_compound_hybrid, (planner, &filter), h),
        stands_on(filter, node_scan, label),
        is_disjunction(filter.predicate),
        are_sides(filter.predicate, vector_side, text_side),
        first_search(text_side@, t, 0),
        conjuncts(text_side@).len() == 1,
        t.variable == node_scan.variable@,
        planner.store.spec_has_text_index(label@, t.property),
        forall|i: int, u: TextPredicateView| !first_search(vector_side@, u, i),
        is_sure_to_answer(planner, vector_side, node_scan.variable@, label@),
        leaves_nothing_over(planner.engine, vector_side),
    ensures
        h != Ok::<Option<(PhysicalOperator<S, E>, Vec<String>)>, E::Error>(None),
{
    assert(planner.plans_compound_filter(filter, h));
    law_text_predicate_is_of_the_first_search(text_side@);
    let u = text_predicate(text_side@)->0;
    let j = choose|j: int| #[trigger]
        first_search(text_side@, bare(u), j) && match u.remaining {
            Some(rest) => conjuncts(rest) == conjuncts(text_side@).remove(j),
            None => conjuncts(text_side@).len() == 1,
        };
    law_there_is_one_first_search(text_side@, t, 0, bare(u), j);
    if let Some(rest) = u.remaining {
        lemma_conjuncts_not_empty(rest);
        assert(conjuncts(text_side@).remove(j).len() == 0);
    }
    law_text_predicate_is_of_the_first_search(vector_side@);
    assert(text_predicate(vector_side@) is None);
    lemma_hybrid_is_planned(planner, filter, node_scan, label, h);
}

/// Where every pair of predicates that may be found can be scanned for, something is
/// planned.
proof fn lemma_hybrid_is_planned<S: GraphStoreSearch + ?Sized, E: QueryEngine>(
    planner: &Planner<S, E>,
    filter: FilterOp,
    node_scan: NodeScanOp,
    label: String,
    h: PlanResult<S, E>,
)
    requires
        planner.plans_compound_filter(filter, h),
        stands_on(filter, node_scan, label),
        forall|pair: Option<(ExtractedVectorPredicate, TextPredicateView, bool)>| #[trigger]
            pairs_predicates(planner.engine, filter.predicate, pair) ==> match pair {
                Some((v, t, _)) => planner.can_scan_both(node_scan.variable@, label@, v, t)
                    && forall|resolved: Result<(), E::Error>| #[trigger]
                    call_ensures(
                        E::resolve_vector_literal,
                        (&planner.engine, &v.query_vector),
                        resolved,
                    ) ==> resolved is Ok,
                None => false,
            },
    ensures
        h != Ok::<Option<(PhysicalOperator<S, E>, Vec<String>)>, E::Error>(None),
{
    let engine = planner.engine;
    let e = filter.predicate;
    let variable = node_scan.variable@;
    let l = label@;
    let nothing = Ok::<Option<(PhysicalOperator<S, E>, Vec<String>)>, E::Error>(None);
    let pair = choose|pair: Option<(ExtractedVectorPredicate, TextPredicateView, bool)>| #[trigger]
        pairs_predicates(engine, e, pair) && match pair {
            None => h == nothing,
            Some((v, t, is_or)) => if planner.can_scan_both(variable, l, v, t) {
                exists|resolved: Result<(), E::Error>| #[trigger]
                    call_ensures(E::resolve_vector_literal, (&engine, &v.query_vector), resolved)
                        && match resolved {
                        Err(_) => h == nothing,
                        Ok(_) => planner.scans_both(e, variable, l, v, t, is_or, h),
                    }
            } else {
                h == nothing
            },
        };
    let (v, t, is_or) = pair->0;
    assert(planner.scans_both(e, variable, l, v, t, is_or, h));
    let (vector_op, vector_planned) = choose|
        vector_op: LogicalOperator,
        planned: Result<(E::Operator, Vec<String>), E::Error>,
    |
        is_vector_scan(vector_op, variable, l, v) && #[trigger] call_ensures(
            E::plan_operator,
            (&engine, &vector_op),
            planned,
        ) && match planned {
            Err(error) => h == Err::<
                Option<(PhysicalOperator<S, E>, Vec<String>)>,
                E::Error,
            >(error),
            Ok((left, left_cols)) => planner.scans_text_too(
                e,
                variable,
                l,
                t,
                left,
                left_cols,
                opt_view(v.remaining),
                is_or,
                h,
            ),
        };
    if let Ok((left, left_cols)) = vector_planned {
        let (column, text_op, text_planned) = choose|
            column: Seq<char>,
            text_op: LogicalOperator,
            planned: Result<(E::Operator, Vec<String>), E::Error>,
        |
            #![trigger is_text_scan(text_op, variable, l, t, column), call_ensures(E::plan_operator, (&engine, &text_op), planned)]
            is_text_scan(text_op, variable, l, t, column) && call_ensures(
                E::plan_operator,
                (&engine, &text_op),
                planned,
            ) && match planned {
                Err(error) => h == Err::<
                    Option<(PhysicalOperator<S, E>, Vec<String>)>,
                    E::Error,
                >(error),
                Ok((right, right_cols)) => planner.joins_scans(
                    e,
                    left,
                    left_cols,
                    opt_view(v.remaining),
                    right,
                    right_cols,
                    t.remaining,
                    is_or,
                    h,
                ),
            };
        if let Ok((right, right_cols)) = text_planned {
            let scalar_rest = lemma_joins(
                planner,
                e,
                left,
                left_cols,
                opt_view(v.remaining),
                right,
                right_cols,
                t.remaining,
                is_or,
                h,
            );
        }
    }
}

/// Joining two operators joins them on their first columns, those that both give or
/// those that either gives, and gives the columns of the left, then those of the right
/// without the first. The output columns are computed as the layout of the join says.
pub proof fn law_joining_joins_on_first_columns<S: GraphStoreSearch + ?Sized, E: QueryEngine>(
    planner: &Planner<S, E>,
    left: PhysicalOperator<S, E>,
    left_cols: &[String],
    right: PhysicalOperator<S, E>,
    right_cols: &[String],
    either: bool,
    r: (PhysicalOperator<S, E>, Vec<String>),
    layout: HybridLayout,
)
    requires
        call_ensures(
            Planner::<S, E>::join_scans,
            (planner, left, left_cols, right, right_cols, either),
            r,
        ),
        call_ensures(hybrid_layout, (left_cols, right_cols, either), layout),
    ensures
        r.1@ == layout.output_columns@,
        has_derived_schemas(planner.engine, r.0, layout.joined_columns@, layout.output_columns@),
        match r.0 {
            PhysicalOperator::Project { input, exprs, .. } => exprs@ == layout.exprs@
                && match *input {
                PhysicalOperator::HashJoin {
                    left: l,
                    right: q,
                    probe_keys,
                    build_keys,
                    join_type,
                    ..
                } => {
                    &&& *l == left
                    &&& *q == right
                    &&& probe_keys@ == seq![0usize]
                    &&& build_keys@ == seq![0usize]
                    &&& join_type == PhysicalJoinType::Full <==> either
                },
                _ => false,
            },
            _ => false,
        },
{
}

/// The predicates that are paired are found in the two sides of a disjunction, which
/// leave nothing over, or else in the whole. Where no pair is found of another
/// expression, the engine found no vector predicate in it or no conjunct is a text
/// search.
pub proof fn law_pairs_are_found_in_the_sides<S: GraphStoreSearch + ?Sized, E: QueryEngine>(
    planner: &Planner<S, E>,
    expr: LogicalExpression,
    r: Option<(ExtractedVectorPredicate, ExtractedTextPredicate, bool)>,
)
    requires
        call_ensures(Planner::<S, E>::extract_both_predicates, (planner, &expr), r),
    ensures
        match r {
            Some((v, t, is_or)) => {
                &&& is_or == is_disjunction(expr)
                &&& exists|vs: LogicalExpression, ts: LogicalExpression, i: int| #[trigger]
                    are_sides(expr, vs, ts) && finds_vector(planner.engine, vs, Some(v))
                        && #[trigger] first_search(ts@, bare(t@), i) && match t@.remaining {
                        Some(rest) => conjuncts(rest) == conjuncts(ts@).remove(i),
                        None => conjuncts(ts@).len() == 1,
                    }
                &&& is_or ==> v.remaining is None && t@.remaining is None
            },
            None => !is_disjunction(expr) ==> finds_vector(planner.engine, expr, None) || forall|
                t: TextPredicateView,
                i: int,
            |
                !first_search(expr@, t, i),
        },
{
    match r {
        Some((v, t, is_or)) => {
            let (vs, ts) = match expr {
                LogicalExpression::Binary { left: a, op: BinaryOp::Or, right: b } => if finds_vector(
                    planner.engine,
                    *a,
                    Some(v),
                ) && text_predicate(b@) == Some(t@) {
                    (*a, *b)
                } else {
                    (*b, *a)
                },
                _ => (expr, expr),
            };
            assert(are_sides(expr, vs, ts));
            assert(finds_vector(planner.engine, vs, Some(v)) && text_predicate(ts@) == Some(t@));
            law_text_predicate_is_of_the_first_search(ts@);
        },
        None => {
            if !is_disjunction(expr) {
                let found = choose|found: Option<ExtractedVectorPredicate>| #[trigger]
                    finds_vector(planner.engine, expr, found) && (found is None || text_predicate(
                        expr@,
                    ) is None);
                law_text_predicate_is_of_the_first_search(expr@);
                if found is Some {
                    assert forall|t: TextPredicateView, i: int| !first_search(expr@, t, i) by {}
                }
            }
        },
    }
}

/// A new planner plans for the store, with the engine and in the context that it was
/// given.
pub proof fn law_a_planner_keeps_what_it_is_given<S: GraphStoreSearch + ?Sized, E: QueryEngine>(
    store: Arc<S>,
    engine: E,
    viewing_epoch: EpochId,
    transaction_id: Option<TransactionId>,
    session_context: E::Session,
    r: Planner<S, E>,
)
    requires
        call_ensures(
            Planner::<S, E>::new,
            (store, engine, viewing_epoch, transaction_id, session_context),
            r,
        ),
    ensures
        r.store == store && r.engine == engine,
        r.viewing_epoch == viewing_epoch && r.transaction_id == transaction_id,
        r.session_context == session_context,
{
}

} // verus!
