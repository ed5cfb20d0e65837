//! What holds of an engine that answers alike each time.
//!
//! Nothing ties two answers of an engine to each other, so that a law on two calls
//! of the planner says which answers have to agree.

use vstd::prelude::*;

use super::expression::{and_view, BinaryOp, ExprView, LogicalExpression};
use super::hybrid::{
    and_of_rest, finds_vector, is_hybrid_join, is_vector_scan, leaves_scalar, merged_columns,
    or_of_rest, pairs_predicates, pure_pair, PlanResult,
};
use super::laws::conjuncts;
use super::operator::{
    ExtractedVectorPredicate, FilterOp, LogicalOperator, PhysicalOperator, QueryEngine,
    VectorMetric,
};
use super::tables::{table, Row, Table};
use super::text_filter::{is_text_scan, labelled_scan, names_score_column, Planner};
use super::text_predicate::{text_atom, text_predicate, TextPredicateView};
use crate::graph::GraphStoreSearch;
use crate::seqs::lemma_filter_step;
use crate::text::{opt_view, seq_view};
use crate::types::FloatBits;

verus! {

/// The model of an [`ExtractedVectorPredicate`].
pub struct VectorPredicateView {
    pub property: Seq<char>,
    pub variable: Seq<char>,
    pub query_vector: ExprView,
    pub metric: VectorMetric,
    pub min_similarity: Option<FloatBits>,
    pub max_distance: Option<FloatBits>,
    pub remaining: Option<ExprView>,
}

impl View for ExtractedVectorPredicate {
    type V = VectorPredicateView;

    open spec fn view(&self) -> VectorPredicateView {
        VectorPredicateView {
            property: self.property@,
            variable: self.variable@,
            query_vector: self.query_vector@,
            metric: self.metric,
            min_similarity: self.min_similarity,
            max_distance: self.max_distance,
            remaining: opt_view(self.remaining),
        }
    }
}

/// Whether the vector predicate that an engine finds depends on the expression
/// alone.
pub open spec fn finds_alike<E: QueryEngine>(engine: E) -> bool {
    forall|
        x: LogicalExpression,
        y: LogicalExpression,
        f: Option<ExtractedVectorPredicate>,
        g: Option<ExtractedVectorPredicate>,
    | #[trigger]
        finds_vector(engine, x, f) && #[trigger] finds_vector(engine, y, g) && x@ == y@
            ==> opt_view(f) == opt_view(g)
}

/// Whether an engine may find a vector predicate in an expression.
pub open spec fn is_vector_search<E: QueryEngine>(engine: E, e: ExprView) -> bool {
    exists|x: LogicalExpression, found: Option<ExtractedVectorPredicate>| #[trigger]
        finds_vector(engine, x, found) && x@ == e && found is Some
}

/// What an expression demands beyond the predicates that index scans answer, for an
/// engine that finds alike.
pub open spec fn scalar_rest<E: QueryEngine>(engine: E, e: ExprView) -> Option<ExprView>
    decreases e,
{
    match e {
        ExprView::Binary { left, op: BinaryOp::And, right } => and_of_rest(
            scalar_rest(engine, *left),
            scalar_rest(engine, *right),
        ),
        ExprView::Binary { left, op: BinaryOp::Or, right } => or_of_rest(
            e,
            scalar_rest(engine, *left),
            scalar_rest(engine, *right),
        ),
        _ => if is_vector_search(engine, e) || text_predicate(e) is Some {
            None
        } else {
            Some(e)
        },
    }
}

/// What is left of an expression depends on the expression alone, for an engine
/// that finds alike.
pub proof fn law_scalar_rest_is_determined<E: QueryEngine>(
    engine: E,
    e: LogicalExpression,
    rest: Option<ExprView>,
)
    requires
        finds_alike(engine),
        leaves_scalar(engine, e, rest),
    ensures
        rest == scalar_rest(engine, e@),
    decreases e,
{
    match e {
        LogicalExpression::Binary { left, op: BinaryOp::And, right } => {
            let (l, r) = choose|l: Option<ExprView>, r: Option<ExprView>|
                leaves_scalar(engine, *left, l) && leaves_scalar(engine, *right, r) && rest
                    == #[trigger] and_of_rest(l, r);
            law_scalar_rest_is_determined(engine, *left, l);
            law_scalar_rest_is_determined(engine, *right, r);
        },
        LogicalExpression::Binary { left, op: BinaryOp::Or, right } => {
            let (l, r) = choose|l: Option<ExprView>, r: Option<ExprView>|
                leaves_scalar(engine, *left, l) && leaves_scalar(engine, *right, r) && rest
                    == #[trigger] or_of_rest(e@, l, r);
            law_scalar_rest_is_determined(engine, *left, l);
            law_scalar_rest_is_determined(engine, *right, r);
        },
        _ => {
            let found = choose|found: Option<ExtractedVectorPredicate>| #[trigger]
                finds_vector(engine, e, found) && rest == (if found is Some || text_predicate(e@)
                    is Some {
                    None
                } else {
                    Some(e@)
                });
            assert(is_vector_search(engine, e@) == (found is Some));
        },
    }
}

/// Whether a conjunct is kept in what is left over: a disjunction if something is
/// left of one of its sides, any other conjunct if it is no vector or text
/// predicate.
pub open spec fn keeps_conjunct<E: QueryEngine>(engine: E, c: ExprView) -> bool {
    match c {
        ExprView::Binary { left, op: BinaryOp::Or, right } => scalar_rest(engine, *left) is Some
            || scalar_rest(engine, *right) is Some,
        _ => !is_vector_search(engine, c) && text_predicate(c) is None,
    }
}

/// The conjuncts of what is left over; nothing has none.
pub open spec fn rest_conjuncts(rest: Option<ExprView>) -> Seq<ExprView> {
    match rest {
        Some(e) => conjuncts(e),
        None => Seq::empty(),
    }
}

proof fn lemma_rest_conjuncts<E: QueryEngine>(engine: E, e: ExprView)
    ensures
        rest_conjuncts(scalar_rest(engine, e)) == conjuncts(e).filter(
            |c: ExprView| keeps_conjunct(engine, c),
        ),
    decreases e,
{
    let keep = |c: ExprView| keeps_conjunct(engine, c);
    match e {
        ExprView::Binary { left, op: BinaryOp::And, right } => {
            lemma_rest_conjuncts(engine, *left);
            lemma_rest_conjuncts(engine, *right);
            let l = conjuncts(*left);
            let r = conjuncts(*right);
            Seq::filter_distributes_over_add(l, r, keep);
            let a = scalar_rest(engine, *left);
            let b = scalar_rest(engine, *right);
            assert(rest_conjuncts(and_of_rest(a, b)) =~= rest_conjuncts(a) + rest_conjuncts(b));
        },
        _ => {
            let one = conjuncts(e);
            assert(one =~= seq![e]);
            assert(one.take(1) =~= one);
            assert(one.take(0).filter(keep) =~= Seq::<ExprView>::empty()) by {
                reveal(Seq::filter);
            }
            lemma_filter_step(one, keep, 0);
            assert(Seq::<ExprView>::empty().push(e) =~= one);
        },
    }
}

/// The conjuncts of what is left of an expression are those of its conjuncts that
/// no index answers, unchanged and in order: a disjunction is kept or dropped as a
/// whole.
pub proof fn law_scalar_rest_is_the_unanswered_conjuncts<E: QueryEngine>(
    engine: E,
    e: LogicalExpression,
    rest: Option<ExprView>,
)
    requires
        finds_alike(engine),
        leaves_scalar(engine, e, rest),
    ensures
        rest_conjuncts(rest) == conjuncts(e@).filter(|c: ExprView| keeps_conjunct(engine, c)),
{
    law_scalar_rest_is_determined(engine, e, rest);
    lemma_rest_conjuncts(engine, e@);
}

proof fn lemma_scalar_rest_again<E: QueryEngine>(engine: E, e: ExprView)
    ensures
        scalar_rest(engine, e) matches Some(r) ==> scalar_rest(engine, r) == Some(r),
    decreases e,
{
    match e {
        ExprView::Binary { left, op: BinaryOp::And, right } => {
            lemma_scalar_rest_again(engine, *left);
            lemma_scalar_rest_again(engine, *right);
            if let (Some(l), Some(r)) = (scalar_rest(engine, *left), scalar_rest(engine, *right)) {
                assert(scalar_rest(engine, and_view(l, r)) == and_of_rest(
                    scalar_rest(engine, l),
                    scalar_rest(engine, r),
                ));
            }
        },
        _ => {},
    }
}

/// Taking what is left over of what is left over changes nothing.
pub proof fn law_scalar_rest_leaves_itself<E: QueryEngine>(
    engine: E,
    e: LogicalExpression,
    r: LogicalExpression,
    again: Option<ExprView>,
)
    requires
        finds_alike(engine),
        leaves_scalar(engine, e, Some(r@)),
        leaves_scalar(engine, r, again),
    ensures
        again == Some(r@),
{
    law_scalar_rest_is_determined(engine, e, Some(r@));
    law_scalar_rest_is_determined(engine, r, again);
    lemma_scalar_rest_again(engine, e@);
}

/// Whether two operators are scans of one index for one search.
pub open spec fn same_scan(a: LogicalOperator, b: LogicalOperator) -> bool {
    match (a, b) {
        (LogicalOperator::TextScan(x), LogicalOperator::TextScan(y)) => {
            &&& x.variable@ == y.variable@
            &&& x.property@ == y.property@
            &&& x.label@ == y.label@
            &&& x.query@ == y.query@
            &&& x.k == y.k
            &&& x.threshold == y.threshold
            &&& opt_view(x.score_column) == opt_view(y.score_column)
        },
        (LogicalOperator::VectorScan(x), LogicalOperator::VectorScan(y)) => {
            &&& x.variable@ == y.variable@
            &&& opt_view(x.index_name) == opt_view(y.index_name)
            &&& x.property@ == y.property@
            &&& opt_view(x.label) == opt_view(y.label)
            &&& x.query_vector@ == y.query_vector@
            &&& x.k == y.k
            &&& x.metric == y.metric
            &&& x.min_similarity == y.min_similarity
            &&& x.max_distance == y.max_distance
            &&& x.input is None && y.input is None
        },
        _ => false,
    }
}

/// Whether two answers to planning an operator agree: both fail, or both give the
/// same columns and an operator with the same table.
pub open spec fn planned_alike<E: QueryEngine>(
    p: Result<(E::Operator, Vec<String>), E::Error>,
    q: Result<(E::Operator, Vec<String>), E::Error>,
    scan: spec_fn(E::Operator) -> Table,
) -> bool {
    match (p, q) {
        (Ok((a, c)), Ok((b, d))) => scan(a) == scan(b) && seq_view(c@) == seq_view(d@),
        (Err(_), Err(_)) => true,
        _ => false,
    }
}

/// Whether an engine answers alike each time: what it finds, whether it resolves a
/// query vector, how it names a score column and how it plans a scan depend on what
/// it is asked alone.
pub open spec fn answers_alike<E: QueryEngine>(
    engine: E,
    scan: spec_fn(E::Operator) -> Table,
) -> bool {
    &&& finds_alike(engine)
    &&& forall|
        x: LogicalExpression,
        y: LogicalExpression,
        r: Result<(), E::Error>,
        s: Result<(), E::Error>,
    | #[trigger]
        call_ensures(E::resolve_vector_literal, (&engine, &x), r) && #[trigger] call_ensures(
            E::resolve_vector_literal,
            (&engine, &y),
            s,
        ) && x@ == y@ ==> (r is Ok) == (s is Ok)
    &&& forall|
        variable: Seq<char>,
        property: Seq<char>,
        query: ExprView,
        a: Seq<char>,
        b: Seq<char>,
    | #[trigger]
        names_score_column(engine, variable, property, query, a) && #[trigger] names_score_column(
            engine,
            variable,
            property,
            query,
            b,
        ) ==> a == b
    &&& forall|
        a: LogicalOperator,
        b: LogicalOperator,
        p: Result<(E::Operator, Vec<String>), E::Error>,
        q: Result<(E::Operator, Vec<String>), E::Error>,
    | #[trigger]
        call_ensures(E::plan_operator, (&engine, &a), p) && #[trigger] call_ensures(
            E::plan_operator,
            (&engine, &b),
            q,
        ) && same_scan(a, b) ==> planned_alike::<E>(p, q, scan)
}

/// The engine's answers on the way to the plan of a disjunction.
struct Answers<E: QueryEngine> {
    found: Option<ExtractedVectorPredicate>,
    resolved: Result<(), E::Error>,
    vector_op: LogicalOperator,
    vector_planned: Result<(E::Operator, Vec<String>), E::Error>,
    column: Seq<char>,
    text_op: LogicalOperator,
    text_planned: Result<(E::Operator, Vec<String>), E::Error>,
}

/// Whether a result follows from the engine's answers, where a vector predicate can
/// only be on one side of a disjunction and the text predicate is the other.
spec fn follows<S: GraphStoreSearch + ?Sized, E: QueryEngine>(
    planner: &Planner<S, E>,
    filter: FilterOp,
    variable: Seq<char>,
    label: Seq<char>,
    vector_side: LogicalExpression,
    t: TextPredicateView,
    r: PlanResult<S, E>,
    w: Answers<E>,
) -> bool {
    let nothing = Ok::<Option<(PhysicalOperator<S, E>, Vec<String>)>, E::Error>(None);
    &&& finds_vector(planner.engine, vector_side, w.found)
    &&& match pure_pair(w.found, Some(t)) {
        None => r == nothing,
        Some((v, _)) => if !planner.can_scan_both(variable, label, v, t) {
            r == nothing
        } else {
            &&& call_ensures(
                E::resolve_vector_literal,
                (&planner.engine, &v.query_vector),
                w.resolved,
            )
            &&& if w.resolved is Err {
                r == nothing
            } else {
                &&& is_vector_scan(w.vector_op, variable, label, v)
                &&& call_ensures(
                    E::plan_operator,
                    (&planner.engine, &w.vector_op),
                    w.vector_planned,
                )
                &&& match w.vector_planned {
                    Err(_) => r is Err,
                    Ok((left, left_cols)) => {
                        &&& names_score_column(
                            planner.engine,
                            variable,
                            t.property,
                            t.query_expr,
                            w.column,
                        )
                        &&& is_text_scan(w.text_op, variable, label, t, w.column)
                        &&& call_ensures(
                            E::plan_operator,
                            (&planner.engine, &w.text_op),
                            w.text_planned,
                        )
                        &&& match w.text_planned {
                            Err(_) => r is Err,
                            Ok((right, right_cols)) => planner.joins_scans(
                                filter.predicate,
                                left,
                                left_cols,
                                None,
                                right,
                                right_cols,
                                None,
                                true,
                                r,
                            ),
                        }
                    },
                }
            }
        },
    }
}

/// Whether an expression is neither a conjunction nor a disjunction.
pub open spec fn is_leaf(e: LogicalExpression) -> bool {
    match e {
        LogicalExpression::Binary { op, .. } => op != BinaryOp::And && op != BinaryOp::Or,
        _ => true,
    }
}

/// The disjunction of two expressions.
pub open spec fn or_of(left: LogicalExpression, right: LogicalExpression) -> LogicalExpression {
    LogicalExpression::Binary { left: Box::new(left), op: BinaryOp::Or, right: Box::new(right) }
}

/// The answers that the plan of a disjunction follows from.
proof fn lemma_answers<S: GraphStoreSearch + ?Sized, E: QueryEngine>(
    planner: &Planner<S, E>,
    filter: FilterOp,
    v: LogicalExpression,
    t: LogicalExpression,
    r: PlanResult<S, E>,
) -> (w: Answers<E>)
    requires
        filter.predicate == or_of(v, t) || filter.predicate == or_of(t, v),
        is_leaf(v),
        text_atom(v@) is None,
        text_atom(t@) is Some,
        labelled_scan(filter) is Some,
        planner.plans_compound_filter(filter, r),
    ensures
        follows(
            planner,
            filter,
            (labelled_scan(filter)->0).0,
            (labelled_scan(filter)->0).1,
            v,
            text_atom(t@)->0,
            r,
            w,
        ),
{
    let engine = planner.engine;
    let (variable, label) = labelled_scan(filter)->0;
    let text = text_atom(t@)->0;
    let nothing = Ok::<Option<(PhysicalOperator<S, E>, Vec<String>)>, E::Error>(None);
    assert(text_predicate(v@) is None);
    assert(text_predicate(t@) == Some(text));
    let pair = choose|pair: Option<(ExtractedVectorPredicate, TextPredicateView, bool)>| #[trigger]
        pairs_predicates(engine, filter.predicate, pair) && match pair {
            None => r == nothing,
            Some((p, q, is_or)) => if planner.can_scan_both(variable, label, p, q) {
                exists|resolved: Result<(), E::Error>| #[trigger]
                    call_ensures(
                        E::resolve_vector_literal,
                        (&engine, &p.query_vector),
                        resolved,
                    ) && match resolved {
                        Err(_) => r == nothing,
                        Ok(_) => planner.scans_both(
                            filter.predicate,
                            variable,
                            label,
                            p,
                            q,
                            is_or,
                            r,
                        ),
                    }
            } else {
                r == nothing
            },
        };
    let found = choose|found: Option<ExtractedVectorPredicate>| #[trigger]
        finds_vector(engine, v, found) && pair == match pure_pair(found, Some(text)) {
            Some((p, q)) => Some((p, q, true)),
            None => None,
        };
    assert(finds_vector(engine, v, found));
    let any_planned: Result<(E::Operator, Vec<String>), E::Error> = arbitrary();
    let blank = Answers::<E> {
        found,
        resolved: arbitrary(),
        vector_op: arbitrary(),
        vector_planned: any_planned,
        column: arbitrary(),
        text_op: arbitrary(),
        text_planned: any_planned,
    };
    match pure_pair(found, Some(text)) {
        None => blank,
        Some((p, _)) => if !planner.can_scan_both(variable, label, p, text) {
            blank
        } else {
            let resolved = choose|resolved: Result<(), E::Error>| #[trigger]
                call_ensures(E::resolve_vector_literal, (&engine, &p.query_vector), resolved)
                    && match resolved {
                    Err(_) => r == nothing,
                    Ok(_) => planner.scans_both(
                        filter.predicate,
                        variable,
                        label,
                        p,
                        text,
                        true,
                        r,
                    ),
                };
            if resolved is Err {
                Answers { resolved, ..blank }
            } else {
                let (vector_op, vector_planned) = choose|
                    vector_op: LogicalOperator,
                    planned: Result<(E::Operator, Vec<String>), E::Error>,
                |
                    is_vector_scan(vector_op, variable, label, p) && #[trigger] call_ensures(
                        E::plan_operator,
                        (&engine, &vector_op),
                        planned,
                    ) && match planned {
                        Err(error) => r == Err::<
                            Option<(PhysicalOperator<S, E>, Vec<String>)>,
                            E::Error,
                        >(error),
                        Ok((left, left_cols)) => planner.scans_text_too(
                            filter.predicate,
                            variable,
                            label,
                            text,
                            left,
                            left_cols,
                            opt_view(p.remaining),
                            true,
                            r,
                        ),
                    };
                if vector_planned is Err {
                    Answers { resolved, vector_op, vector_planned, ..blank }
                } else {
                    let (left, left_cols) = vector_planned->Ok_0;
                    let (column, text_op, text_planned) = choose|
                        column: Seq<char>,
                        text_op: LogicalOperator,
                        planned: Result<(E::Operator, Vec<String>), E::Error>,
                    |
                        #![trigger is_text_scan(text_op, variable, label, text, column), call_ensures(E::plan_operator, (&engine, &text_op), planned)]
                        {
                            &&& names_score_column(
                                engine,
                                variable,
                                text.property,
                                text.query_expr,
                                column,
                            )
                            &&& is_text_scan(text_op, variable, label, text, column)
                            &&& call_ensures(E::plan_operator, (&engine, &text_op), planned)
                            &&& match planned {
                                Err(error) => r == Err::<
                                    Option<(PhysicalOperator<S, E>, Vec<String>)>,
                                    E::Error,
                                >(error),
                                Ok((right, right_cols)) => planner.joins_scans(
                                    filter.predicate,
                                    left,
                                    left_cols,
                                    opt_view(p.remaining),
                                    right,
                                    right_cols,
                                    text.remaining,
                                    true,
                                    r,
                                ),
                            }
                        };
                    Answers {
                        resolved,
                        vector_op,
                        vector_planned,
                        column,
                        text_op,
                        text_planned,
                        ..blank
                    }
                }
            }
        },
    }
}

/// The join of two scans that leave nothing over, where no condition is left for
/// after the join, always gives a plan.
proof fn lemma_plain_join<S: GraphStoreSearch + ?Sized, E: QueryEngine>(
    planner: &Planner<S, E>,
    predicate: LogicalExpression,
    left: E::Operator,
    left_cols: Vec<String>,
    right: E::Operator,
    right_cols: Vec<String>,
    r: PlanResult<S, E>,
)
    requires
        planner.joins_scans(
            predicate,
            left,
            left_cols,
            None,
            right,
            right_cols,
            None,
            true,
            r,
        ),
        forall|rest: Option<ExprView>| #[trigger]
            leaves_scalar(planner.engine, predicate, rest) ==> rest is None,
    ensures
        match r {
            Ok(Some((op, columns))) => is_hybrid_join(
                planner.engine,
                PhysicalOperator::Planned(left),
                left_cols@,
                PhysicalOperator::Planned(right),
                right_cols@,
                true,
                op,
            ) && columns@ == merged_columns(left_cols@, right_cols@),
            _ => false,
        },
{
    let left_op = PhysicalOperator::<S, E>::Planned(left);
    let right_op = PhysicalOperator::<S, E>::Planned(right);
    assert(planner.joins_filtered_left(
        predicate,
        left_op,
        left_cols,
        right,
        right_cols,
        None,
        true,
        r,
    ));
    assert(planner.joins_filtered(
        predicate,
        left_op,
        left_cols,
        right_op,
        right_cols,
        true,
        r,
    ));
    let (op, columns, rest) = choose|
        op: PhysicalOperator<S, E>,
        columns: Vec<String>,
        rest: Option<ExprView>,
    |
        is_hybrid_join(
            planner.engine,
            left_op,
            left_cols@,
            right_op,
            right_cols@,
            true,
            op,
        ) && columns@ == merged_columns(left_cols@, right_cols@) && leaves_scalar(
            planner.engine,
            predicate,
            rest,
        ) && #[trigger] planner.finishes(op, columns, rest, r);
    assert(rest is None);
}

/// Nothing is left for after the join of a disjunction of two bare predicates.
proof fn lemma_nothing_left<E: QueryEngine>(
    engine: E,
    e: LogicalExpression,
    v: LogicalExpression,
    t: LogicalExpression,
    found: Option<ExtractedVectorPredicate>,
)
    requires
        finds_alike(engine),
        e == or_of(v, t) || e == or_of(t, v),
        is_leaf(v),
        finds_vector(engine, v, found),
        found is Some,
        text_atom(t@) is Some,
    ensures
        forall|rest: Option<ExprView>| #[trigger] leaves_scalar(engine, e, rest) ==> rest is None,
{
    assert(is_vector_search(engine, v@));
    assert(text_predicate(t@) is Some);
    assert(scalar_rest(engine, v@) is None);
    assert(scalar_rest(engine, t@) is None);
    assert(scalar_rest(engine, e@) is None);
    assert forall|rest: Option<ExprView>| #[trigger] leaves_scalar(
        engine,
        e,
        rest,
    ) implies rest is None by {
        law_scalar_rest_is_determined(engine, e, rest);
    }
}

/// Two joins of scans with the same tables and columns have the same table.
proof fn lemma_same_join_table<S: GraphStoreSearch + ?Sized, E: QueryEngine>(
    engine: E,
    left: E::Operator,
    left_cols: Seq<String>,
    right: E::Operator,
    right_cols: Seq<String>,
    op: PhysicalOperator<S, E>,
    left2: E::Operator,
    left_cols2: Seq<String>,
    right2: E::Operator,
    right_cols2: Seq<String>,
    op2: PhysicalOperator<S, E>,
    scan: spec_fn(E::Operator) -> Table,
    means: spec_fn(E::Expression, Map<Seq<char>, usize>, Row) -> bool,
)
    requires
        is_hybrid_join(
            engine,
            PhysicalOperator::Planned(left),
            left_cols,
            PhysicalOperator::Planned(right),
            right_cols,
            true,
            op,
        ),
        is_hybrid_join(
            engine,
            PhysicalOperator::Planned(left2),
            left_cols2,
            PhysicalOperator::Planned(right2),
            right_cols2,
            true,
            op2,
        ),
        scan(left) == scan(left2),
        scan(right) == scan(right2),
        left_cols.len() == left_cols2.len(),
        right_cols.len() == right_cols2.len(),
    ensures
        table(op, scan, means) == table(op2, scan, means),
{
    let join = *op->Project_input;
    let join2 = *op2->Project_input;
    reveal_with_fuel(table, 2);
    assert(table(join, scan, means) == table(join2, scan, means));
    assert(op->Project_exprs@ == op2->Project_exprs@);
    assert(table(op, scan, means).rows =~= table(op2, scan, means).rows);
}

/// Swapping the sides of a disjunction of a bare vector predicate and a bare text
/// predicate changes nothing: the planner fails, falls through or plans in both
/// orders, and the two plans have the same columns and the same rows; for an engine
/// that answers alike each time.
pub proof fn law_swapped_disjunction_plans_alike<S: GraphStoreSearch + ?Sized, E: QueryEngine>(
    planner: &Planner<S, E>,
    v: LogicalExpression,
    t: LogicalExpression,
    f: FilterOp,
    g: FilterOp,
    r: PlanResult<S, E>,
    s: PlanResult<S, E>,
    scan: spec_fn(E::Operator) -> Table,
    means: spec_fn(E::Expression, Map<Seq<char>, usize>, Row) -> bool,
)
    requires
        is_leaf(v),
        text_atom(v@) is None,
        text_atom(t@) is Some,
        f.predicate == or_of(v, t),
        g.predicate == or_of(t, v),
        f.input == g.input,
        planner.plans_compound_filter(f, r),
        planner.plans_compound_filter(g, s),
        answers_alike(planner.engine, scan),
    ensures
        match (r, s) {
            (Ok(Some((op, columns))), Ok(Some((op2, columns2)))) => seq_view(columns@) == seq_view(
                columns2@,
            ) && table(op, scan, means) == table(op2, scan, means),
            (Ok(None), Ok(None)) => true,
            (Err(_), Err(_)) => true,
            _ => false,
        },
{
    assert(labelled_scan(f) == labelled_scan(g));
    if labelled_scan(f) is Some {
        let (variable, label) = labelled_scan(f)->0;
        let text = text_atom(t@)->0;
        let w = lemma_answers(planner, f, v, t, r);
        let x = lemma_answers(planner, g, v, t, s);
        assert(opt_view(w.found) == opt_view(x.found));
        match (pure_pair(w.found, Some(text)), pure_pair(x.found, Some(text))) {
            (Some((p, _)), Some((q, _))) => {
                assert(p@ == q@);
                if planner.can_scan_both(variable, label, p, text) && w.resolved is Ok {
                    assert(p.query_vector@ == q.query_vector@);
                    assert(x.resolved is Ok);
                    assert(same_scan(w.vector_op, x.vector_op));
                    assert(planned_alike::<E>(w.vector_planned, x.vector_planned, scan));
                    if w.vector_planned is Ok {
                        assert(w.column == x.column);
                        assert(same_scan(w.text_op, x.text_op));
                        assert(planned_alike::<E>(w.text_planned, x.text_planned, scan));
                        if w.text_planned is Ok {
                            let (left, left_cols) = w.vector_planned->Ok_0;
                            let (right, right_cols) = w.text_planned->Ok_0;
                            let (left2, left_cols2) = x.vector_planned->Ok_0;
                            let (right2, right_cols2) = x.text_planned->Ok_0;
                            let engine = planner.engine;
                            lemma_nothing_left(engine, f.predicate, v, t, w.found);
                            lemma_nothing_left(engine, g.predicate, v, t, x.found);
                            lemma_plain_join(
                                planner,
                                f.predicate,
                                left,
                                left_cols,
                                right,
                                right_cols,
                                r,
                            );
                            lemma_plain_join(
                                planner,
                                g.predicate,
                                left2,
                                left_cols2,
                                right2,
                                right_cols2,
                                s,
                            );
                            assert(seq_view(left_cols@).len() == seq_view(left_cols2@).len());
                            assert(seq_view(right_cols@).len() == seq_view(right_cols2@).len());
                            let (op, columns) = r->Ok_0->0;
                            let (op2, columns2) = s->Ok_0->0;
                            lemma_same_join_table(
                                engine,
                                left,
                                left_cols@,
                                right,
                                right_cols@,
                                op,
                                left2,
                                left_cols2@,
                                right2,
                                right_cols2@,
                                op2,
                                scan,
                                means,
                            );
                            assert(seq_view(columns@) =~= merged_columns(
                                seq_view(left_cols@),
                                seq_view(right_cols@),
                            ));
                            assert(seq_view(columns2@) =~= merged_columns(
                                seq_view(left_cols2@),
                                seq_view(right_cols2@),
                            ));
                        }
                    }
                }
            },
            _ => {},
        }
    }
}

} // verus!
