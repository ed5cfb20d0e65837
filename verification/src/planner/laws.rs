//! What holds of every plan: splitting a filter between index scans and the
//! conditions that are left over changes nothing of what it means.

use vstd::prelude::*;

use super::expression::{and_view, BinaryOp, ExprView, LogicalExpression};
use super::hybrid::{
    and_of_rest, finds_vector, leaves_scalar, merged_columns, merged_exprs, or_of_rest,
    pairs_predicates, PlanResult,
};
use super::operator::{
    ExtractedVectorPredicate, FilterOp, LogicalOperator, PhysicalOperator, ProjectExpr, QueryEngine,
};
use super::text_filter::{labelled_scan, maps_columns, Planner};
use super::text_predicate::{
    also_after, also_before, text_atom, text_predicate, TextPredicateView,
};
use crate::graph::{GraphProjection, GraphStoreSearch};
use crate::text::opt_view;

verus! {

/// The disjunction of two expressions.
pub open spec fn or_view(left: ExprView, right: ExprView) -> ExprView {
    ExprView::Binary { left: Box::new(left), op: BinaryOp::Or, right: Box::new(right) }
}

/// Whether a meaning of expressions, for some row, takes AND as "both hold".
pub open spec fn respects_and(holds: spec_fn(ExprView) -> bool) -> bool {
    forall|l: ExprView, r: ExprView| #[trigger]
        holds(and_view(l, r)) == (holds(l) && holds(r))
}

/// Whether a meaning of expressions, for some row, takes OR as "one holds".
pub open spec fn respects_or(holds: spec_fn(ExprView) -> bool) -> bool {
    forall|l: ExprView, r: ExprView| #[trigger] holds(or_view(l, r)) == (holds(l) || holds(r))
}

/// Whether what is left over holds; nothing always does.
pub open spec fn rest_holds(holds: spec_fn(ExprView) -> bool, rest: Option<ExprView>) -> bool {
    match rest {
        Some(e) => holds(e),
        None => true,
    }
}

/// The expressions that a conjunction joins, from left to right.
pub open spec fn conjuncts(e: ExprView) -> Seq<ExprView>
    decreases e,
{
    match e {
        ExprView::Binary { left, op: BinaryOp::And, right } => conjuncts(*left) + conjuncts(
            *right,
        ),
        _ => seq![e],
    }
}

/// A text predicate without what is left over.
pub open spec fn bare(t: TextPredicateView) -> TextPredicateView {
    TextPredicateView { remaining: None, ..t }
}

/// The conjunct of an expression that its text predicate comes from.
pub open spec fn text_conjunct(e: ExprView) -> ExprView
    decreases e,
{
    match e {
        ExprView::Binary { left, op: BinaryOp::And, right } => if text_predicate(*left) is Some {
            text_conjunct(*left)
        } else {
            text_conjunct(*right)
        },
        _ => e,
    }
}

/// Whether a text predicate comes from the conjunct at a place: it is the first
/// that is a text search, and the others are what is left over, in order.
pub open spec fn is_first_text_conjunct(e: ExprView, t: TextPredicateView, i: int) -> bool {
    &&& 0 <= i < conjuncts(e).len()
    &&& forall|j: int| 0 <= j < i ==> text_atom(#[trigger] conjuncts(e)[j]) is None
    &&& text_atom(conjuncts(e)[i]) == Some(bare(t))
    &&& match t.remaining {
        Some(rest) => conjuncts(rest) == conjuncts(e).remove(i),
        None => conjuncts(e).len() == 1,
    }
}

/// A text predicate is found just when a conjunct is a text search. It is that
/// of the first such conjunct, and all other conjuncts are left over, in order.
pub proof fn law_text_predicate_is_the_first_text_conjunct(e: ExprView)
    ensures
        match text_predicate(e) {
            Some(t) => exists|i: int| is_first_text_conjunct(e, t, i),
            None => forall|j: int|
                0 <= j < conjuncts(e).len() ==> text_atom(#[trigger] conjuncts(e)[j]) is None,
        },
    decreases e,
{
    match e {
        ExprView::Binary { left, op: BinaryOp::And, right } => {
            let l = *left;
            let r = *right;
            let all = conjuncts(e);
            law_text_predicate_is_the_first_text_conjunct(l);
            law_text_predicate_is_the_first_text_conjunct(r);
            assert(text_atom(e) is None);
            assert(all =~= conjuncts(l) + conjuncts(r));
            match (text_predicate(l), text_predicate(r)) {
                (Some(t), _) => {
                    let i = choose|i: int| is_first_text_conjunct(l, t, i);
                    let u = also_after(t, r);
                    assert forall|j: int| 0 <= j < i implies text_atom(#[trigger] all[j])
                        is None by {
                        assert(all[j] == conjuncts(l)[j]);
                    }
                    assert(all[i] == conjuncts(l)[i]);
                    assert(bare(u) == bare(t));
                    assert(all.remove(i) =~= conjuncts(l).remove(i) + conjuncts(r));
                    if t.remaining is None {
                        assert(conjuncts(l).remove(i) =~= Seq::<ExprView>::empty());
                        assert(all.remove(i) =~= conjuncts(r));
                    }
                    assert(is_first_text_conjunct(e, u, i));
                },
                (None, Some(t)) => {
                    let k = choose|k: int| is_first_text_conjunct(r, t, k);
                    let n = conjuncts(l).len() as int;
                    let i = n + k;
                    let u = also_before(t, l);
                    assert forall|j: int| 0 <= j < i implies text_atom(#[trigger] all[j])
                        is None by {
                        if j < n {
                            assert(all[j] == conjuncts(l)[j]);
                        } else {
                            assert(all[j] == conjuncts(r)[j - n]);
                        }
                    }
                    assert(all[i] == conjuncts(r)[k]);
                    assert(bare(u) == bare(t));
                    assert(all.remove(i) =~= conjuncts(l) + conjuncts(r).remove(k));
                    if t.remaining is None {
                        assert(conjuncts(r).remove(k) =~= Seq::<ExprView>::empty());
                        assert(all.remove(i) =~= conjuncts(l));
                    }
                    assert(is_first_text_conjunct(e, u, i));
                },
                (None, None) => {
                    assert forall|j: int| 0 <= j < all.len() implies text_atom(#[trigger] all[j])
                        is None by {
                        if j < conjuncts(l).len() {
                            assert(all[j] == conjuncts(l)[j]);
                        } else {
                            assert(all[j] == conjuncts(r)[j - conjuncts(l).len()]);
                        }
                    }
                },
            }
        },
        _ => {
            assert(conjuncts(e) =~= seq![e]);
            if let Some(t) = text_predicate(e) {
                assert(is_first_text_conjunct(e, t, 0));
            }
        },
    }
}

/// Splitting a text predicate off a filter keeps the filter's meaning: a row
/// meets the filter just when it meets the text search and what is left over.
pub proof fn law_text_split_keeps_meaning(
    e: ExprView,
    t: TextPredicateView,
    holds: spec_fn(ExprView) -> bool,
)
    requires
        text_predicate(e) == Some(t),
        respects_and(holds),
    ensures
        text_atom(text_conjunct(e)) == Some(bare(t)),
        holds(e) == (holds(text_conjunct(e)) && rest_holds(holds, t.remaining)),
    decreases e,
{
    match e {
        ExprView::Binary { left, op: BinaryOp::And, right } => {
            let l = *left;
            let r = *right;
            assert(text_atom(e) is None);
            assert(e == and_view(l, r));
            match (text_predicate(l), text_predicate(r)) {
                (Some(u), _) => {
                    law_text_split_keeps_meaning(l, u, holds);
                    if let Some(prev) = u.remaining {
                        assert(holds(and_view(prev, r)) == (holds(prev) && holds(r)));
                    }
                    assert(bare(t) == bare(u));
                },
                (None, Some(u)) => {
                    law_text_split_keeps_meaning(r, u, holds);
                    if let Some(prev) = u.remaining {
                        assert(holds(and_view(l, prev)) == (holds(l) && holds(prev)));
                    }
                    assert(bare(t) == bare(u));
                },
                (None, None) => {},
            }
        },
        _ => {},
    }
}

/// The condition that is applied after the join drops no row that meets the
/// filter.
pub proof fn law_scalar_rest_is_implied<E: QueryEngine>(
    engine: E,
    e: LogicalExpression,
    rest: Option<ExprView>,
    holds: spec_fn(ExprView) -> bool,
)
    requires
        leaves_scalar(engine, e, rest),
        respects_and(holds),
    ensures
        holds(e@) ==> rest_holds(holds, rest),
    decreases e,
{
    match e {
        LogicalExpression::Binary { left, op: BinaryOp::And, right } => {
            let (l, r) = choose|l: Option<ExprView>, r: Option<ExprView>|
                leaves_scalar(engine, *left, l) && leaves_scalar(engine, *right, r) && rest
                    == #[trigger] and_of_rest(l, r);
            law_scalar_rest_is_implied(engine, *left, l, holds);
            law_scalar_rest_is_implied(engine, *right, r, holds);
            assert(e@ == and_view(left@, right@));
            if let (Some(x), Some(y)) = (l, r) {
                assert(holds(and_view(x, y)) == (holds(x) && holds(y)));
            }
        },
        _ => {},
    }
}

/// Whether every part of an expression that an index scan may answer holds.
pub open spec fn indexed_parts_hold<E: QueryEngine>(
    engine: E,
    e: LogicalExpression,
    holds: spec_fn(ExprView) -> bool,
) -> bool
    decreases e,
{
    match e {
        LogicalExpression::Binary { left, op: BinaryOp::And, right } => indexed_parts_hold(
            engine,
            *left,
            holds,
        ) && indexed_parts_hold(engine, *right, holds),
        LogicalExpression::Binary { left, op: BinaryOp::Or, right } => indexed_parts_hold(
            engine,
            *left,
            holds,
        ) && indexed_parts_hold(engine, *right, holds),
        _ => text_predicate(e@) is Some || (exists|found: Option<ExtractedVectorPredicate>|
            #[trigger] finds_vector(engine, e, found) && found is Some) ==> holds(e@),
    }
}

/// Only what index scans answer is dropped from a filter: a row that meets those
/// parts and the condition that is applied after the join meets the filter.
pub proof fn law_scalar_rest_drops_only_indexed_parts<E: QueryEngine>(
    engine: E,
    e: LogicalExpression,
    rest: Option<ExprView>,
    holds: spec_fn(ExprView) -> bool,
)
    requires
        leaves_scalar(engine, e, rest),
        respects_and(holds),
        respects_or(holds),
        indexed_parts_hold(engine, e, holds),
        rest_holds(holds, rest),
    ensures
        holds(e@),
    decreases e,
{
    match e {
        LogicalExpression::Binary { left, op: BinaryOp::And, right } => {
            let (l, r) = choose|l: Option<ExprView>, r: Option<ExprView>|
                leaves_scalar(engine, *left, l) && leaves_scalar(engine, *right, r) && rest
                    == #[trigger] and_of_rest(l, r);
            assert(e@ == and_view(left@, right@));
            if let (Some(x), Some(y)) = (l, r) {
                assert(holds(and_view(x, y)) == (holds(x) && holds(y)));
            }
            law_scalar_rest_drops_only_indexed_parts(engine, *left, l, holds);
            law_scalar_rest_drops_only_indexed_parts(engine, *right, r, holds);
        },
        LogicalExpression::Binary { left, op: BinaryOp::Or, right } => {
            let (l, r) = choose|l: Option<ExprView>, r: Option<ExprView>|
                leaves_scalar(engine, *left, l) && leaves_scalar(engine, *right, r) && rest
                    == #[trigger] or_of_rest(e@, l, r);
            assert(e@ == or_view(left@, right@));
            if l is None && r is None {
                law_scalar_rest_drops_only_indexed_parts(engine, *left, l, holds);
            }
        },
        _ => {},
    }
}

/// The plan of a conjunction gives just the rows that meet the filter: a row
/// does if it is found by the vector search and meets what that leaves over, is
/// found by the text search and meets what that leaves over, and meets the
/// condition that is applied after the join. `found_near` tells whether the
/// vector search finds the row; it has to split off the filter as faithfully as
/// the text search does.
pub proof fn law_conjunction_plan_means_the_filter<E: QueryEngine>(
    engine: E,
    e: LogicalExpression,
    v: ExtractedVectorPredicate,
    t: TextPredicateView,
    rest: Option<ExprView>,
    holds: spec_fn(ExprView) -> bool,
    found_near: bool,
)
    requires
        pairs_predicates(engine, e, Some((v, t, false))),
        leaves_scalar(engine, e, rest),
        respects_and(holds),
        holds(e@) == (found_near && rest_holds(holds, opt_view(v.remaining))),
    ensures
        holds(e@) == (found_near && rest_holds(holds, opt_view(v.remaining)) && holds(
            text_conjunct(e@),
        ) && rest_holds(holds, t.remaining) && rest_holds(holds, rest)),
{
    law_text_split_keeps_meaning(e@, t, holds);
    law_scalar_rest_is_implied(engine, e, rest, holds);
}

/// The plan of a disjunction gives just the rows that meet the filter: a row
/// does if the vector search that is one side of it or the text search that is
/// the other finds it, and it meets the condition that is applied after the join.
/// `found_near` tells whether the vector search finds the row.
pub proof fn law_disjunction_plan_means_the_filter<E: QueryEngine>(
    engine: E,
    e: LogicalExpression,
    vector_side: ExprView,
    text_side: ExprView,
    t: TextPredicateView,
    rest: Option<ExprView>,
    holds: spec_fn(ExprView) -> bool,
    found_near: bool,
)
    requires
        e@ == or_view(vector_side, text_side) || e@ == or_view(text_side, vector_side),
        text_predicate(text_side) == Some(t),
        t.remaining is None,
        leaves_scalar(engine, e, rest),
        respects_and(holds),
        respects_or(holds),
        holds(vector_side) == found_near,
    ensures
        text_conjunct(text_side) == text_side,
        holds(e@) == ((found_near || holds(text_conjunct(text_side))) && rest_holds(holds, rest)),
{
    law_text_split_keeps_meaning(text_side, t, holds);
    law_scalar_rest_is_implied(engine, e, rest, holds);
    assert(holds(or_view(vector_side, text_side)) == (holds(vector_side) || holds(text_side)));
    assert(holds(or_view(text_side, vector_side)) == (holds(text_side) || holds(vector_side)));
}

/// The predicates that are paired are those of the filter: of a disjunction, one
/// of each side, with nothing left over; of any other expression, both of the
/// whole.
pub proof fn law_paired_predicates_belong_to_the_filter<E: QueryEngine>(
    engine: E,
    e: LogicalExpression,
    v: ExtractedVectorPredicate,
    t: TextPredicateView,
    is_or: bool,
)
    requires
        pairs_predicates(engine, e, Some((v, t, is_or))),
    ensures
        match e {
            LogicalExpression::Binary { left, op: BinaryOp::Or, right } => is_or && v.remaining is None
                && t.remaining is None && ((finds_vector(
                engine,
                *left,
                Some(v),
            ) && text_predicate(right@) == Some(t)) || (finds_vector(engine, *right, Some(v))
                && text_predicate(left@) == Some(t))),
            _ => !is_or && finds_vector(engine, e, Some(v)) && text_predicate(e@) == Some(t),
        },
{
}

/// Where no text index is on the scanned label, nothing is planned: the filter is
/// left to evaluation row by row.
pub proof fn law_nothing_is_planned_without_a_text_index<
    S: GraphStoreSearch + ?Sized,
    E: QueryEngine,
>(planner: &Planner<S, E>, filter: FilterOp, r: PlanResult<S, E>, h: PlanResult<S, E>)
    requires
        match labelled_scan(filter) {
            Some((_, label)) => forall|property: Seq<char>|
                !planner.store.spec_has_text_index(label, property),
            None => true,
        },
        planner.plans_text_filter(filter, r),
        planner.plans_compound_filter(filter, h),
    ensures
        r == Ok::<Option<(PhysicalOperator<S, E>, Vec<String>)>, E::Error>(None),
        h == Ok::<Option<(PhysicalOperator<S, E>, Vec<String>)>, E::Error>(None),
{
}

/// Where no vector index is on the scanned label, no hybrid plan is made.
pub proof fn law_nothing_is_planned_without_a_vector_index<
    S: GraphStoreSearch + ?Sized,
    E: QueryEngine,
>(planner: &Planner<S, E>, filter: FilterOp, h: PlanResult<S, E>)
    requires
        match labelled_scan(filter) {
            Some((_, label)) => forall|property: Seq<char>|
                !planner.store.spec_has_vector_index(label, property),
            None => true,
        },
        planner.plans_compound_filter(filter, h),
    ensures
        h == Ok::<Option<(PhysicalOperator<S, E>, Vec<String>)>, E::Error>(None),
{
}

/// Where another operator feeds the scan under a filter, no text index scan is
/// planned: it would lose the rows and columns of that operator.
pub proof fn law_no_text_scan_is_planned_over_a_nested_input<
    S: GraphStoreSearch + ?Sized,
    E: QueryEngine,
>(planner: &Planner<S, E>, filter: FilterOp, r: PlanResult<S, E>)
    requires
        match *filter.input {
            LogicalOperator::NodeScan(scan) => scan.input is Some,
            _ => true,
        },
        planner.plans_text_filter(filter, r),
    ensures
        r == Ok::<Option<(PhysicalOperator<S, E>, Vec<String>)>, E::Error>(None),
{
}

/// Whether one expression is a pure vector predicate and another a pure text
/// predicate.
pub open spec fn pure_sides<E: QueryEngine>(
    engine: E,
    vector_side: LogicalExpression,
    text_side: LogicalExpression,
) -> bool {
    &&& exists|v: ExtractedVectorPredicate| #[trigger]
        finds_vector(engine, vector_side, Some(v)) && v.remaining is None
    &&& text_atom(text_side@) is Some
}

/// A disjunction is planned only where each of its sides is a pure vector or text
/// predicate, with no scalar condition beside it.
pub proof fn law_a_planned_disjunction_is_pure<S: GraphStoreSearch + ?Sized, E: QueryEngine>(
    planner: &Planner<S, E>,
    filter: FilterOp,
    left: LogicalExpression,
    right: LogicalExpression,
    h: PlanResult<S, E>,
)
    requires
        filter.predicate == (LogicalExpression::Binary {
            left: Box::new(left),
            op: BinaryOp::Or,
            right: Box::new(right),
        }),
        planner.plans_compound_filter(filter, h),
        h != Ok::<Option<(PhysicalOperator<S, E>, Vec<String>)>, E::Error>(None),
    ensures
        pure_sides(planner.engine, left, right) || pure_sides(planner.engine, right, left),
{
    let pair = choose|pair: Option<(ExtractedVectorPredicate, TextPredicateView, bool)>| #[trigger]
        pairs_predicates(planner.engine, filter.predicate, pair) && pair is Some;
    let (v, t, is_or) = pair->0;
    law_paired_predicates_belong_to_the_filter(planner.engine, filter.predicate, v, t, is_or);
}

/// Over a projection nothing is planned: the indexes of the store also find
/// nodes that the projection hides.
pub proof fn law_nothing_is_planned_over_a_projection<
    S: GraphStoreSearch + ?Sized,
    E: QueryEngine,
>(
    planner: &Planner<GraphProjection<S>, E>,
    filter: FilterOp,
    r: PlanResult<GraphProjection<S>, E>,
    h: PlanResult<GraphProjection<S>, E>,
)
    requires
        planner.plans_text_filter(filter, r),
        planner.plans_compound_filter(filter, h),
    ensures
        r == Ok::<Option<(PhysicalOperator<GraphProjection<S>, E>, Vec<String>)>, E::Error>(None),
        h == Ok::<Option<(PhysicalOperator<GraphProjection<S>, E>, Vec<String>)>, E::Error>(None),
{
}

/// Each merged column is computed from joined columns that exist, and the first
/// of them has its name; there is one column for each name.
pub proof fn law_merged_columns_name_their_inputs<T>(
    left: Seq<T>,
    right: Seq<T>,
    is_or: bool,
    i: int,
)
    requires
        right.len() > 0,
        left.len() + right.len() <= usize::MAX,
        0 <= i < merged_columns(left, right).len(),
    ensures
        merged_exprs(left.len(), right.len(), is_or).len() == merged_columns(left, right).len(),
        merged_columns(left, right).len() == left.len() + right.len() - 1,
        match merged_exprs(left.len(), right.len(), is_or)[i] {
            ProjectExpr::Column(c) => c < (left + right).len() && (left + right)[c as int]
                == merged_columns(left, right)[i],
            ProjectExpr::Coalesce { first, second } => {
                &&& is_or
                &&& i == 0
                &&& first == 0
                &&& second == left.len()
                &&& (left + right)[0] == merged_columns(left, right)[0]
                &&& (left + right)[second as int] == right[0]
            },
        },
{
}

/// Where no two columns have one name, each name is mapped to its position.
pub proof fn law_distinct_columns_keep_their_positions(
    m: Map<Seq<char>, usize>,
    columns: Seq<Seq<char>>,
    i: int,
)
    requires
        maps_columns(m, columns),
        columns.no_duplicates(),
        0 <= i < columns.len(),
    ensures
        m.contains_key(columns[i]),
        m[columns[i]] == i,
{
    assert(columns.contains(columns[i]));
    assert(m.contains_key(columns[i]));
}

} // verus!
