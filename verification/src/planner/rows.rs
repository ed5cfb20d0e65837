//! Which nodes a plan gives.
//!
//! The rows of a filter over a full label scan are nodes. This module follows one
//! of them through a plan, and shows that a plan gives it just when it meets the
//! filter. An operator that feeds the label scan of a hybrid plan has no part in
//! that plan, and what it gives is not spoken of. What else is in the rows is told in [`super::row_laws`].

use vstd::prelude::*;

use super::expression::{BinaryOp, ExprView, LogicalExpression};
use super::hybrid::{
    finds_vector, is_hybrid_join, is_vector_scan, leaves_scalar, pairs_predicates,
};
use super::laws::{
    law_conjunction_plan_means_the_filter, law_disjunction_plan_means_the_filter,
    law_text_split_keeps_meaning, respects_and, respects_or, rest_holds, text_conjunct,
};
use super::operator::{
    ExtractedVectorPredicate, FilterOp, LogicalOperator, PhysicalJoinType, PhysicalOperator,
    QueryEngine,
};
use super::text_filter::{is_text_scan, labelled_scan, Planner};
use super::text_predicate::{text_predicate, TextPredicateView};
use crate::graph::GraphStoreSearch;
use crate::text::{opt_view, seq_view};

verus! {

/// Whether a plan gives a node, where `finds` tells which operators of the engine
/// give it and `means` which expressions of the engine it meets.
pub open spec fn gives<S: GraphStoreSearch + ?Sized, E: QueryEngine>(
    op: PhysicalOperator<S, E>,
    finds: spec_fn(E::Operator) -> bool,
    means: spec_fn(E::Expression) -> bool,
) -> bool
    decreases op,
{
    match op {
        PhysicalOperator::Planned(scan) => finds(scan),
        PhysicalOperator::Filter { input, predicate } => gives(*input, finds, means) && means(
            predicate.expression,
        ),
        PhysicalOperator::HashJoin { left, right, join_type, .. } => match join_type {
            PhysicalJoinType::Inner => gives(*left, finds, means) && gives(*right, finds, means),
            PhysicalJoinType::Full => gives(*left, finds, means) || gives(*right, finds, means),
        },
        PhysicalOperator::Project { input, .. } => gives(*input, finds, means),
    }
}

/// Whether an engine converts expressions without changing what they mean.
pub open spec fn converts_faithfully<E: QueryEngine>(
    engine: E,
    holds: spec_fn(ExprView) -> bool,
    means: spec_fn(E::Expression) -> bool,
) -> bool {
    forall|x: LogicalExpression, converted: E::Expression| #[trigger]
        call_ensures(
            E::convert_expression,
            (&engine, &x),
            Ok::<E::Expression, E::Error>(converted),
        ) ==> means(converted) == holds(x@)
}

/// Whether the engine's scans of a text index find a node just when it meets the
/// text search of an expression.
pub open spec fn scans_text_faithfully<E: QueryEngine>(
    engine: E,
    variable: Seq<char>,
    label: Seq<char>,
    e: ExprView,
    holds: spec_fn(ExprView) -> bool,
    finds: spec_fn(E::Operator) -> bool,
) -> bool {
    forall|
        t: TextPredicateView,
        column: Seq<char>,
        op: LogicalOperator,
        planned: (E::Operator, Vec<String>),
    |
        #![trigger is_text_scan(op, variable, label, t, column), call_ensures(E::plan_operator, (&engine, &op), Ok::<(E::Operator, Vec<String>), E::Error>(planned))]
        text_predicate(e) == Some(t) && is_text_scan(op, variable, label, t, column)
            && call_ensures(
            E::plan_operator,
            (&engine, &op),
            Ok::<(E::Operator, Vec<String>), E::Error>(planned),
        ) ==> finds(planned.0) == holds(text_conjunct(e))
}

/// Whether the engine's scans of a vector index, and what they leave over of an
/// expression, give a node just when it meets the expression.
pub open spec fn scans_vectors_faithfully<E: QueryEngine>(
    engine: E,
    variable: Seq<char>,
    label: Seq<char>,
    e: LogicalExpression,
    holds: spec_fn(ExprView) -> bool,
    finds: spec_fn(E::Operator) -> bool,
) -> bool {
    forall|v: ExtractedVectorPredicate, op: LogicalOperator, planned: (E::Operator, Vec<String>)|
        #![trigger is_vector_scan(op, variable, label, v), call_ensures(E::plan_operator, (&engine, &op), Ok::<(E::Operator, Vec<String>), E::Error>(planned))]
        finds_vector(engine, e, Some(v)) && is_vector_scan(op, variable, label, v) && call_ensures(
            E::plan_operator,
            (&engine, &op),
            Ok::<(E::Operator, Vec<String>), E::Error>(planned),
        ) ==> holds(e@) == (finds(planned.0) && rest_holds(holds, opt_view(v.remaining)))
}

/// A filter over an operator gives what the operator gives and the condition
/// admits.
pub proof fn lemma_wrapped_gives<S: GraphStoreSearch + ?Sized, E: QueryEngine>(
    planner: &Planner<S, E>,
    op: PhysicalOperator<S, E>,
    columns: Seq<Seq<char>>,
    remaining: Option<ExprView>,
    wrapped: PhysicalOperator<S, E>,
    holds: spec_fn(ExprView) -> bool,
    finds: spec_fn(E::Operator) -> bool,
    means: spec_fn(E::Expression) -> bool,
)
    requires
        planner.wraps_if_any(
            op,
            columns,
            remaining,
            Ok::<PhysicalOperator<S, E>, E::Error>(wrapped),
        ),
        converts_faithfully(planner.engine, holds, means),
    ensures
        gives(wrapped, finds, means) == (gives(op, finds, means) && rest_holds(holds, remaining)),
{
}

/// A finished plan gives what its operator gives and the condition admits.
pub proof fn lemma_finished_gives<S: GraphStoreSearch + ?Sized, E: QueryEngine>(
    planner: &Planner<S, E>,
    op: PhysicalOperator<S, E>,
    op_columns: Vec<String>,
    remaining: Option<ExprView>,
    done: PhysicalOperator<S, E>,
    columns: Vec<String>,
    holds: spec_fn(ExprView) -> bool,
    finds: spec_fn(E::Operator) -> bool,
    means: spec_fn(E::Expression) -> bool,
)
    requires
        planner.finishes(
            op,
            op_columns,
            remaining,
            Ok::<Option<(PhysicalOperator<S, E>, Vec<String>)>, E::Error>(Some((done, columns))),
        ),
        converts_faithfully(planner.engine, holds, means),
    ensures
        gives(done, finds, means) == (gives(op, finds, means) && rest_holds(holds, remaining)),
{
    let wrapped = Ok::<PhysicalOperator<S, E>, E::Error>(done);
    assert(planner.wraps_if_any(op, seq_view(op_columns@), remaining, wrapped));
    lemma_wrapped_gives(
        planner,
        op,
        seq_view(op_columns@),
        remaining,
        done,
        holds,
        finds,
        means,
    );
}

/// The plan of a filter by a text index gives a node just when it meets the
/// filter, if the engine scans and converts faithfully.
pub proof fn law_text_plan_gives_what_meets_the_filter<
    S: GraphStoreSearch + ?Sized,
    E: QueryEngine,
>(
    planner: &Planner<S, E>,
    filter: FilterOp,
    op: PhysicalOperator<S, E>,
    columns: Vec<String>,
    holds: spec_fn(ExprView) -> bool,
    finds: spec_fn(E::Operator) -> bool,
    means: spec_fn(E::Expression) -> bool,
)
    requires
        planner.plans_text_filter(
            filter,
            Ok::<Option<(PhysicalOperator<S, E>, Vec<String>)>, E::Error>(Some((op, columns))),
        ),
        respects_and(holds),
        converts_faithfully(planner.engine, holds, means),
        labelled_scan(filter) matches Some((variable, label)) ==> scans_text_faithfully(
            planner.engine,
            variable,
            label,
            filter.predicate@,
            holds,
            finds,
        ),
    ensures
        gives(op, finds, means) == holds(filter.predicate@),
{
    let e = filter.predicate@;
    let t = text_predicate(e)->0;
    law_text_split_keeps_meaning(e, t, holds);
    let (variable, label) = labelled_scan(filter)->0;
    let r = Ok::<Option<(PhysicalOperator<S, E>, Vec<String>)>, E::Error>(Some((op, columns)));
    let (column, scan_op, planned) = choose|
        column: Seq<char>,
        scan_op: LogicalOperator,
        planned: Result<(E::Operator, Vec<String>), E::Error>,
    |
        #![trigger is_text_scan(scan_op, variable, label, t, column), call_ensures(E::plan_operator, (&planner.engine, &scan_op), planned)]
        is_text_scan(scan_op, variable, label, t, column) && call_ensures(
            E::plan_operator,
            (&planner.engine, &scan_op),
            planned,
        ) && match planned {
            Ok((scan, scan_columns)) => planner.finishes(
                PhysicalOperator::Planned(scan),
                scan_columns,
                t.remaining,
                r,
            ),
            Err(_) => false,
        };
    let (scan, scan_columns) = planned->Ok_0;
    assert(planned == Ok::<(E::Operator, Vec<String>), E::Error>((scan, scan_columns)));
    lemma_finished_gives(
        planner,
        PhysicalOperator::Planned(scan),
        scan_columns,
        t.remaining,
        op,
        columns,
        holds,
        finds,
        means,
    );
}

/// Whether a plan gives what one of its two scans gives, or both give, as far as
/// the condition after the join admits.
pub open spec fn gives_joined<S: GraphStoreSearch + ?Sized, E: QueryEngine>(
    engine: E,
    predicate: LogicalExpression,
    from_left: bool,
    from_right: bool,
    is_or: bool,
    rest: Option<ExprView>,
    op: PhysicalOperator<S, E>,
    holds: spec_fn(ExprView) -> bool,
    finds: spec_fn(E::Operator) -> bool,
    means: spec_fn(E::Expression) -> bool,
) -> bool {
    &&& leaves_scalar(engine, predicate, rest)
    &&& gives(op, finds, means) == ((if is_or {
        from_left || from_right
    } else {
        from_left && from_right
    }) && rest_holds(holds, rest))
}

/// The join of two planned scans gives what either gives, or both give, of what
/// the filters on them and after the join admit.
pub proof fn lemma_join_gives<S: GraphStoreSearch + ?Sized, E: QueryEngine>(
    planner: &Planner<S, E>,
    predicate: LogicalExpression,
    left: E::Operator,
    left_cols: Vec<String>,
    left_rest: Option<ExprView>,
    right: E::Operator,
    right_cols: Vec<String>,
    right_rest: Option<ExprView>,
    is_or: bool,
    op: PhysicalOperator<S, E>,
    columns: Vec<String>,
    holds: spec_fn(ExprView) -> bool,
    finds: spec_fn(E::Operator) -> bool,
    means: spec_fn(E::Expression) -> bool,
) -> (rest: Option<ExprView>)
    requires
        planner.joins_scans(
            predicate,
            left,
            left_cols,
            left_rest,
            right,
            right_cols,
            right_rest,
            is_or,
            Ok::<Option<(PhysicalOperator<S, E>, Vec<String>)>, E::Error>(Some((op, columns))),
        ),
        converts_faithfully(planner.engine, holds, means),
    ensures
        gives_joined(
            planner.engine,
            predicate,
            finds(left) && rest_holds(holds, left_rest),
            finds(right) && rest_holds(holds, right_rest),
            is_or,
            rest,
            op,
            holds,
            finds,
            means,
        ),
{
    let r = Ok::<Option<(PhysicalOperator<S, E>, Vec<String>)>, E::Error>(Some((op, columns)));
    let left_scan = PhysicalOperator::<S, E>::Planned(left);
    let right_scan = PhysicalOperator::<S, E>::Planned(right);
    let l = choose|l: Result<PhysicalOperator<S, E>, E::Error>| #[trigger]
        planner.wraps_if_any(left_scan, seq_view(left_cols@), left_rest, l) && match l {
            Err(_) => false,
            Ok(left_op) => planner.joins_filtered_left(
                predicate,
                left_op,
                left_cols,
                right,
                right_cols,
                right_rest,
                is_or,
                r,
            ),
        };
    let left_op = l->Ok_0;
    lemma_wrapped_gives(
        planner,
        left_scan,
        seq_view(left_cols@),
        left_rest,
        left_op,
        holds,
        finds,
        means,
    );
    let w = choose|w: Result<PhysicalOperator<S, E>, E::Error>| #[trigger]
        planner.wraps_if_any(right_scan, seq_view(right_cols@), right_rest, w) && match w {
            Err(_) => false,
            Ok(right_op) => planner.joins_filtered(
                predicate,
                left_op,
                left_cols,
                right_op,
                right_cols,
                is_or,
                r,
            ),
        };
    let right_op = w->Ok_0;
    lemma_wrapped_gives(
        planner,
        right_scan,
        seq_view(right_cols@),
        right_rest,
        right_op,
        holds,
        finds,
        means,
    );
    let (join, join_columns, rest) = choose|
        join: PhysicalOperator<S, E>,
        join_columns: Vec<String>,
        rest: Option<ExprView>,
    |
        is_hybrid_join(
            planner.engine,
            left_op,
            left_cols@,
            right_op,
            right_cols@,
            is_or,
            join,
        ) && leaves_scalar(planner.engine, predicate, rest) && #[trigger] planner.finishes(
            join,
            join_columns,
            rest,
            r,
        );
    lemma_finished_gives(planner, join, join_columns, rest, op, columns, holds, finds, means);
    assert(gives(join, finds, means) == (if is_or {
        gives(left_op, finds, means) || gives(right_op, finds, means)
    } else {
        gives(left_op, finds, means) && gives(right_op, finds, means)
    })) by {
        reveal_with_fuel(gives, 3);
    }
    rest
}

/// Whether the engine's index scans answer a filter expression faithfully: each
/// side of a disjunction, or else the whole.
pub open spec fn scans_both_faithfully<E: QueryEngine>(
    engine: E,
    variable: Seq<char>,
    label: Seq<char>,
    e: LogicalExpression,
    holds: spec_fn(ExprView) -> bool,
    finds: spec_fn(E::Operator) -> bool,
) -> bool {
    match e {
        LogicalExpression::Binary { left, op: BinaryOp::Or, right } => {
            &&& scans_text_faithfully(engine, variable, label, left@, holds, finds)
            &&& scans_text_faithfully(engine, variable, label, right@, holds, finds)
            &&& scans_vectors_faithfully(engine, variable, label, *left, holds, finds)
            &&& scans_vectors_faithfully(engine, variable, label, *right, holds, finds)
        },
        _ => {
            &&& scans_text_faithfully(engine, variable, label, e@, holds, finds)
            &&& scans_vectors_faithfully(engine, variable, label, e, holds, finds)
        },
    }
}

/// The plan of a filter by a vector and a text index gives a node just when it
/// meets the filter, if the engine scans and converts faithfully.
pub proof fn law_hybrid_plan_gives_what_meets_the_filter<
    S: GraphStoreSearch + ?Sized,
    E: QueryEngine,
>(
    planner: &Planner<S, E>,
    filter: FilterOp,
    op: PhysicalOperator<S, E>,
    columns: Vec<String>,
    holds: spec_fn(ExprView) -> bool,
    finds: spec_fn(E::Operator) -> bool,
    means: spec_fn(E::Expression) -> bool,
)
    requires
        planner.plans_compound_filter(
            filter,
            Ok::<Option<(PhysicalOperator<S, E>, Vec<String>)>, E::Error>(Some((op, columns))),
        ),
        respects_and(holds),
        respects_or(holds),
        converts_faithfully(planner.engine, holds, means),
        labelled_scan(filter) matches Some((variable, label)) ==> scans_both_faithfully(
            planner.engine,
            variable,
            label,
            filter.predicate,
            holds,
            finds,
        ),
    ensures
        gives(op, finds, means) == holds(filter.predicate@),
{
    let e = filter.predicate;
    let engine = planner.engine;
    let r = Ok::<Option<(PhysicalOperator<S, E>, Vec<String>)>, E::Error>(Some((op, columns)));
    let (variable, label) = labelled_scan(filter)->0;
    let pair = choose|pair: Option<(ExtractedVectorPredicate, TextPredicateView, bool)>| #[trigger]
        pairs_predicates(engine, e, pair) && match pair {
            None => false,
            Some((v, t, is_or)) => planner.scans_both(e, variable, label, v, t, is_or, r),
        };
    let (v, t, is_or) = pair->0;
    let (vector_op, vector_planned) = choose|
        vector_op: LogicalOperator,
        planned: Result<(E::Operator, Vec<String>), E::Error>,
    |
        is_vector_scan(vector_op, variable, label, v) && #[trigger] call_ensures(
            E::plan_operator,
            (&engine, &vector_op),
            planned,
        ) && match planned {
            Err(_) => false,
            Ok((left, left_cols)) => planner.scans_text_too(
                e,
                variable,
                label,
                t,
                left,
                left_cols,
                opt_view(v.remaining),
                is_or,
                r,
            ),
        };
    let (left, left_cols) = vector_planned->Ok_0;
    assert(vector_planned == Ok::<(E::Operator, Vec<String>), E::Error>((left, left_cols)));
    let (column, text_op, text_planned) = choose|
        column: Seq<char>,
        text_op: LogicalOperator,
        planned: Result<(E::Operator, Vec<String>), E::Error>,
    |
        #![trigger is_text_scan(text_op, variable, label, t, column), call_ensures(E::plan_operator, (&engine, &text_op), planned)]
        is_text_scan(text_op, variable, label, t, column) && call_ensures(
            E::plan_operator,
            (&engine, &text_op),
            planned,
        ) && match planned {
            Err(_) => false,
            Ok((right, right_cols)) => planner.joins_scans(
                e,
                left,
                left_cols,
                opt_view(v.remaining),
                right,
                right_cols,
                t.remaining,
                is_or,
                r,
            ),
        };
    let (right, right_cols) = text_planned->Ok_0;
    assert(text_planned == Ok::<(E::Operator, Vec<String>), E::Error>((right, right_cols)));
    let rest = lemma_join_gives(
        planner,
        e,
        left,
        left_cols,
        opt_view(v.remaining),
        right,
        right_cols,
        t.remaining,
        is_or,
        op,
        columns,
        holds,
        finds,
        means,
    );
    match e {
        LogicalExpression::Binary { left: l, op: BinaryOp::Or, right: q } => {
            if finds_vector(engine, *l, Some(v)) && text_predicate(q@) == Some(t) {
                law_disjunction_plan_means_the_filter(
                    engine,
                    e,
                    l@,
                    q@,
                    t,
                    rest,
                    holds,
                    finds(left),
                );
            } else {
                law_disjunction_plan_means_the_filter(
                    engine,
                    e,
                    q@,
                    l@,
                    t,
                    rest,
                    holds,
                    finds(left),
                );
            }
        },
        _ => {
            law_conjunction_plan_means_the_filter(engine, e, v, t, rest, holds, finds(left));
        },
    }
}

} // verus!
