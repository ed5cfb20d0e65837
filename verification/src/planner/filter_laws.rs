//! What the filters and columns of a plan are.

use vstd::hash_map::StringHashMap;
use vstd::prelude::*;

use super::alike::{
    finds_alike, keeps_conjunct, law_scalar_rest_is_the_unanswered_conjuncts, rest_conjuncts,
};
use super::expression::{ExprView, LogicalExpression};
use super::hybrid::{
    hybrid_layout, is_hybrid_join, is_vector_scan, leaves_scalar, merged_columns, pairs_predicates,
    HybridLayout, PlanResult,
};
use super::laws::conjuncts;
use super::operator::{
    ExpressionPredicate, ExtractedVectorPredicate, FilterOp, LogicalOperator, PhysicalOperator,
    ProjectExpr, QueryEngine,
};
use super::text_filter::{
    column_positions, is_text_scan, labelled_scan, maps_columns, Planner,
};
use super::text_predicate::TextPredicateView;
use crate::graph::GraphStoreSearch;
use crate::text::{opt_view, seq_view};

verus! {

/// Whether positions are those of column names: each name is mapped to the last column
/// that has it, and nothing else is mapped.
pub open spec fn are_last_positions(
    positions: Map<Seq<char>, usize>,
    columns: Seq<Seq<char>>,
) -> bool {
    &&& forall|i: int|
        0 <= i < columns.len() && (forall|j: int|
            i < j < columns.len() ==> columns[j] != columns[i]) ==> positions.contains_key(
            #[trigger] columns[i],
        ) && positions[columns[i]] == i
    &&& forall|name: Seq<char>| #[trigger]
        positions.contains_key(name) ==> columns.contains(name)
}

proof fn lemma_last_positions(positions: Map<Seq<char>, usize>, columns: Seq<Seq<char>>)
    requires
        maps_columns(positions, columns),
    ensures
        are_last_positions(positions, columns),
{
    assert forall|i: int|
        0 <= i < columns.len() && (forall|j: int|
            i < j < columns.len() ==> columns[j] != columns[i]) implies positions.contains_key(
        #[trigger] columns[i],
    ) && positions[columns[i]] == i by {
        let name = columns[i];
        assert(columns.contains(name));
        assert(positions.contains_key(name));
        let k = positions[name] as int;
        assert(columns[k] == name);
        if k < i {
            assert(columns[i] != name);
        }
    }
}

/// The positions of column names.
pub proof fn law_columns_are_mapped_to_their_last_position(
    columns: &[String],
    r: StringHashMap<usize>,
)
    requires
        call_ensures(column_positions, (columns,), r),
    ensures
        are_last_positions(r@, seq_view(columns@)),
{
    lemma_last_positions(r@, seq_view(columns@));
}

/// Whether what a filter evaluates is in the store, epoch, transaction and session of
/// a planner.
pub open spec fn is_in_context<S: GraphStoreSearch + ?Sized, E: QueryEngine>(
    planner: &Planner<S, E>,
    predicate: ExpressionPredicate<S, E>,
) -> bool {
    &&& predicate.store == planner.store
    &&& predicate.viewing_epoch == planner.viewing_epoch
    &&& predicate.transaction_id == planner.transaction_id
    &&& call_ensures(
        E::Session::clone,
        (&planner.session_context,),
        predicate.session_context,
    ) || predicate.session_context == planner.session_context
}

/// Wrapping an operator in a filter for an expression gives a filter on it that
/// evaluates what the engine made of the expression, over the operator's columns, in
/// the planner's context; or the error that the engine gave.
pub proof fn law_wrapping_filters_by_the_expression<S: GraphStoreSearch + ?Sized, E: QueryEngine>(
    planner: &Planner<S, E>,
    op: PhysicalOperator<S, E>,
    columns: &[String],
    remaining: LogicalExpression,
    r: Result<PhysicalOperator<S, E>, E::Error>,
)
    requires
        call_ensures(
            Planner::<S, E>::wrap_with_remaining_filter,
            (planner, op, columns, &remaining),
            r,
        ),
    ensures
        exists|x: LogicalExpression, converted: Result<E::Expression, E::Error>| #[trigger]
            call_ensures(E::convert_expression, (&planner.engine, &x), converted) && x@
                == remaining@ && match (converted, r) {
                (Ok(expression), Ok(PhysicalOperator::Filter { input, predicate })) => {
                    &&& *input == op
                    &&& predicate.expression == expression
                    &&& are_last_positions(predicate.variable_columns@, seq_view(columns@))
                    &&& is_in_context(planner, predicate)
                },
                (Err(error), Err(given)) => error == given,
                _ => false,
            },
{
    assert(planner.wraps(op, seq_view(columns@), remaining@, r));
    if let Ok(w) = r {
        lemma_last_positions(w->Filter_predicate.variable_columns@, seq_view(columns@));
    }
}

/// Whether all filters of a plan are in the context of a planner.
pub open spec fn all_in_context<S: GraphStoreSearch + ?Sized, E: QueryEngine>(
    planner: &Planner<S, E>,
    op: PhysicalOperator<S, E>,
) -> bool
    decreases op,
{
    match op {
        PhysicalOperator::Planned(_) => true,
        PhysicalOperator::Filter { input, predicate } => is_in_context(planner, predicate)
            && all_in_context(planner, *input),
        PhysicalOperator::HashJoin { left, right, .. } => all_in_context(planner, *left)
            && all_in_context(planner, *right),
        PhysicalOperator::Project { input, .. } => all_in_context(planner, *input),
    }
}

proof fn lemma_wrapped_in_context<S: GraphStoreSearch + ?Sized, E: QueryEngine>(
    planner: &Planner<S, E>,
    op: PhysicalOperator<S, E>,
    columns: Seq<Seq<char>>,
    remaining: Option<ExprView>,
    w: Result<PhysicalOperator<S, E>, E::Error>,
)
    requires
        planner.wraps_if_any(op, columns, remaining, w),
        all_in_context(planner, op),
    ensures
        w matches Ok(done) ==> all_in_context(planner, done),
{
}

proof fn lemma_finished_in_context<S: GraphStoreSearch + ?Sized, E: QueryEngine>(
    planner: &Planner<S, E>,
    op: PhysicalOperator<S, E>,
    columns: Vec<String>,
    remaining: Option<ExprView>,
    r: PlanResult<S, E>,
)
    requires
        planner.finishes(op, columns, remaining, r),
        all_in_context(planner, op),
    ensures
        r matches Ok(Some((done, _))) ==> all_in_context(planner, done),
{
    let w = choose|w: Result<PhysicalOperator<S, E>, E::Error>| #[trigger]
        planner.wraps_if_any(op, seq_view(columns@), remaining, w) && match w {
            Ok(done) => r == Ok::<Option<(PhysicalOperator<S, E>, Vec<String>)>, E::Error>(
                Some((done, columns)),
            ),
            Err(error) => r == Err::<
                Option<(PhysicalOperator<S, E>, Vec<String>)>,
                E::Error,
            >(error),
        };
    lemma_wrapped_in_context(planner, op, seq_view(columns@), remaining, w);
}

/// Every filter in the plan of a filter by a text index reads the planner's store, in
/// its epoch, transaction and session.
pub proof fn law_text_plans_run_in_the_context_of_the_query<
    S: GraphStoreSearch + ?Sized,
    E: QueryEngine,
>(
    planner: &Planner<S, E>,
    filter: FilterOp,
    op: PhysicalOperator<S, E>,
    columns: Vec<String>,
)
    requires
        call_ensures(
            Planner::<S, E>::try_plan_filter_with_text_index,
            (planner, &filter),
            Ok::<Option<(PhysicalOperator<S, E>, Vec<String>)>, E::Error>(Some((op, columns))),
        ),
    ensures
        all_in_context(planner, op),
{
    let r = Ok::<Option<(PhysicalOperator<S, E>, Vec<String>)>, E::Error>(Some((op, columns)));
    assert(planner.plans_text_filter(filter, r));
    let (variable, l, t) = planner.text_pushdown(filter)->0;
    let (column, scan_op, planned) = choose|
        column: Seq<char>,
        scan_op: LogicalOperator,
        planned: Result<(E::Operator, Vec<String>), E::Error>,
    |
        #![trigger is_text_scan(scan_op, variable, l, t, column), call_ensures(E::plan_operator, (&planner.engine, &scan_op), planned)]
        is_text_scan(scan_op, variable, l, t, column) && call_ensures(
            E::plan_operator,
            (&planner.engine, &scan_op),
            planned,
        ) && match planned {
            Ok((scan, scan_columns)) => planner.finishes(
                PhysicalOperator::Planned(scan),
                scan_columns,
                t.remaining,
                r,
            ),
            Err(_) => false,
        };
    let (scan, scan_columns) = planned->Ok_0;
    lemma_finished_in_context(
        planner,
        PhysicalOperator::Planned(scan),
        scan_columns,
        t.remaining,
        r,
    );
}

/// Every filter in the plan of a filter by a vector and a text index reads the
/// planner's store, in its epoch, transaction and session.
pub proof fn law_hybrid_plans_run_in_the_context_of_the_query<
    S: GraphStoreSearch + ?Sized,
    E: QueryEngine,
>(
    planner: &Planner<S, E>,
    filter: FilterOp,
    op: PhysicalOperator<S, E>,
    columns: Vec<String>,
)
    requires
        call_ensures(
            Planner::<S, E>::try_plan_filter_compound_hybrid,
            (planner, &filter),
            Ok::<Option<(PhysicalOperator<S, E>, Vec<String>)>, E::Error>(Some((op, columns))),
        ),
    ensures
        all_in_context(planner, op),
{
    let e = filter.predicate;
    let engine = planner.engine;
    let r = Ok::<Option<(PhysicalOperator<S, E>, Vec<String>)>, E::Error>(Some((op, columns)));
    assert(planner.plans_compound_filter(filter, r));
    let (variable, label) = labelled_scan(filter)->0;
    let pair = choose|pair: Option<(ExtractedVectorPredicate, TextPredicateView, bool)>| #[trigger]
        pairs_predicates(engine, e, pair) && match pair {
            None => false,
            Some((v, t, is_or)) => planner.scans_both(e, variable, label, v, t, is_or, r),
        };
    let (v, t, is_or) = pair->0;
    let (vector_op, vector_planned) = choose|
        vector_op: LogicalOperator,
        planned: Result<(E::Operator, Vec<String>), E::Error>,
    |
        is_vector_scan(vector_op, variable, label, v) && #[trigger] call_ensures(
            E::plan_operator,
            (&engine, &vector_op),
            planned,
        ) && match planned {
            Err(_) => false,
            Ok((left, left_cols)) => planner.scans_text_too(
                e,
                variable,
                label,
                t,
                left,
                left_cols,
                opt_view(v.remaining),
                is_or,
                r,
            ),
        };
    let (left, left_cols) = vector_planned->Ok_0;
    let (column, text_op, text_planned) = choose|
        column: Seq<char>,
        text_op: LogicalOperator,
        planned: Result<(E::Operator, Vec<String>), E::Error>,
    |
        #![trigger is_text_scan(text_op, variable, label, t, column), call_ensures(E::plan_operator, (&engine, &text_op), planned)]
        is_text_scan(text_op, variable, label, t, column) && call_ensures(
            E::plan_operator,
            (&engine, &text_op),
            planned,
        ) && match planned {
            Err(_) => false,
            Ok((right, right_cols)) => planner.joins_scans(
                e,
                left,
                left_cols,
                opt_view(v.remaining),
                right,
                right_cols,
                t.remaining,
                is_or,
                r,
            ),
        };
    let (right, right_cols) = text_planned->Ok_0;
    let left_scan = PhysicalOperator::<S, E>::Planned(left);
    let right_scan = PhysicalOperator::<S, E>::Planned(right);
    let l = choose|l: Result<PhysicalOperator<S, E>, E::Error>| #[trigger]
        planner.wraps_if_any(left_scan, seq_view(left_cols@), opt_view(v.remaining), l) && match l {
            Err(_) => false,
            Ok(left_op) => planner.joins_filtered_left(
                e,
                left_op,
                left_cols,
                right,
                right_cols,
                t.remaining,
                is_or,
                r,
            ),
        };
    lemma_wrapped_in_context(
        planner,
        left_scan,
        seq_view(left_cols@),
        opt_view(v.remaining),
        l,
    );
    let left_op = l->Ok_0;
    let w = choose|w: Result<PhysicalOperator<S, E>, E::Error>| #[trigger]
        planner.wraps_if_any(right_scan, seq_view(right_cols@), t.remaining, w) && match w {
            Err(_) => false,
            Ok(right_op) => planner.joins_filtered(
                e,
                left_op,
                left_cols,
                right_op,
                right_cols,
                is_or,
                r,
            ),
        };
    lemma_wrapped_in_context(planner, right_scan, seq_view(right_cols@), t.remaining, w);
    let right_op = w->Ok_0;
    let (join, join_columns, rest) = choose|
        join: PhysicalOperator<S, E>,
        join_columns: Vec<String>,
        rest: Option<ExprView>,
    |
        is_hybrid_join(engine, left_op, left_cols@, right_op, right_cols@, is_or, join)
            && join_columns@ == merged_columns(left_cols@, right_cols@) && leaves_scalar(
            engine,
            e,
            rest,
        ) && #[trigger] planner.finishes(join, join_columns, rest, r);
    assert(all_in_context(planner, join)) by {
        reveal_with_fuel(all_in_context, 3);
    }
    lemma_finished_in_context(planner, join, join_columns, rest, r);
}

/// The columns around a join: all columns of both sides go in; the columns of the left
/// side come out, the first of them coalesced with the first of the right side where
/// either side may give a row, and after them the columns of the right side but the
/// first.
pub proof fn law_columns_around_a_join(
    left: &[String],
    right: &[String],
    either: bool,
    layout: HybridLayout,
)
    requires
        call_ensures(hybrid_layout, (left, right, either), layout),
        left@.len() + right@.len() <= usize::MAX,
    ensures
        layout.joined_columns@ == left@ + right@,
        layout.exprs@.len() == layout.output_columns@.len(),
        right@.len() > 0 ==> layout.exprs@.len() == left@.len() + right@.len() - 1,
        right@.len() == 0 ==> layout.exprs@.len() == left@.len(),
        forall|i: int|
            0 <= i < left@.len() ==> layout.output_columns@[i] == left@[i]
                && #[trigger] layout.exprs@[i] == (if either && i == 0 {
                ProjectExpr::Coalesce { first: 0, second: left@.len() as usize }
            } else {
                ProjectExpr::Column(i as usize)
            }),
        forall|k: int|
            1 <= k < right@.len() ==> layout.output_columns@[left@.len() + k - 1]
                == #[trigger] right@[k] && layout.exprs@[left@.len() + k - 1]
                == ProjectExpr::Column((left@.len() + k) as usize),
{
}

/// What is left of a predicate for after the join: those of its conjuncts that no index
/// answers, unchanged and in order, for an engine that finds alike.
pub proof fn law_scalar_remainder_is_the_unanswered_conjuncts<
    S: GraphStoreSearch + ?Sized,
    E: QueryEngine,
>(planner: &Planner<S, E>, expr: LogicalExpression, r: Option<LogicalExpression>)
    requires
        call_ensures(Planner::<S, E>::extract_scalar_remaining, (planner, &expr), r),
        finds_alike(planner.engine),
    ensures
        rest_conjuncts(opt_view(r)) == conjuncts(expr@).filter(
            |c: ExprView| keeps_conjunct(planner.engine, c),
        ),
{
    law_scalar_rest_is_the_unanswered_conjuncts(planner.engine, expr, opt_view(r));
}

} // verus!
