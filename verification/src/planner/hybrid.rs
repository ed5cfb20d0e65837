//! Pushdown of filters that search by text and by vector at once.
//!
//! Both index scans run on their own and a hash join merges them: the rows that
//! both find for a conjunction, the rows that either finds for a disjunction.

use vstd::prelude::*;

use super::expression::{and_expr, and_view, BinaryOp, ExprView, LogicalExpression};
use super::operator::{
    ExtractedVectorPredicate, FilterOp, LogicalOperator, PhysicalJoinType, PhysicalOperator,
    ProjectExpr, QueryEngine, VectorScanOp,
};
use super::text_filter::{is_text_scan, labelled_scan, names_score_column, Planner};
use super::text_predicate::{text_predicate, ExtractedTextPredicate, TextPredicateView};
use crate::graph::GraphStoreSearch;
use crate::text::{opt_view, seq_view};

verus! {

/// Whether an engine may find this vector predicate, or none, in an expression.
pub open spec fn finds_vector<E: QueryEngine>(
    engine: E,
    expr: LogicalExpression,
    found: Option<ExtractedVectorPredicate>,
) -> bool {
    call_ensures(E::extract_vector_predicate, (&engine, &expr), found)
}

/// The conjunction of what is left of two sides.
pub open spec fn and_of_rest(left: Option<ExprView>, right: Option<ExprView>) -> Option<ExprView> {
    match (left, right) {
        (Some(l), Some(r)) => Some(and_view(l, r)),
        (Some(l), None) => Some(l),
        (None, Some(r)) => Some(r),
        (None, None) => None,
    }
}

/// What is left of a disjunction: the whole of it, unless nothing is left of
/// either side.
pub open spec fn or_of_rest(
    expr: ExprView,
    left: Option<ExprView>,
    right: Option<ExprView>,
) -> Option<ExprView> {
    if left is None && right is None {
        None
    } else {
        Some(expr)
    }
}

/// Whether this is what an expression demands beyond the predicates that index
/// scans answer: of a conjunction, what both sides do; of a disjunction, the
/// whole of it, unless neither side does; of any other expression, itself, unless
/// it is a vector or text predicate.
pub open spec fn leaves_scalar<E: QueryEngine>(
    engine: E,
    expr: LogicalExpression,
    rest: Option<ExprView>,
) -> bool
    decreases expr,
{
    match expr {
        LogicalExpression::Binary { left, op: BinaryOp::And, right } => exists|
            l: Option<ExprView>,
            r: Option<ExprView>,
        |
            leaves_scalar(engine, *left, l) && leaves_scalar(engine, *right, r) && rest
                == #[trigger] and_of_rest(l, r),
        LogicalExpression::Binary { left, op: BinaryOp::Or, right } => exists|
            l: Option<ExprView>,
            r: Option<ExprView>,
        |
            leaves_scalar(engine, *left, l) && leaves_scalar(engine, *right, r) && rest
                == #[trigger] or_of_rest(expr@, l, r),
        _ => exists|found: Option<ExtractedVectorPredicate>| #[trigger]
            finds_vector(engine, expr, found) && rest == (if found is Some || text_predicate(
                expr@,
            ) is Some {
                None
            } else {
                Some(expr@)
            }),
    }
}

/// A vector and a text predicate, if both were found and nothing is left over of
/// the expressions that they were found in.
pub open spec fn pure_pair(
    v: Option<ExtractedVectorPredicate>,
    t: Option<TextPredicateView>,
) -> Option<(ExtractedVectorPredicate, TextPredicateView)> {
    match (v, t) {
        (Some(v), Some(t)) => if v.remaining is None && t.remaining is None {
            Some((v, t))
        } else {
            None
        },
        _ => None,
    }
}

/// Whether these are the vector and text predicates of a filter expression, with
/// whether it is a disjunction. Of a disjunction one side is a pure vector
/// predicate and the other a pure text predicate, with nothing left over of
/// either; the vector predicate is the left side if that is possible. Any other
/// expression has both predicates somewhere in it.
pub open spec fn pairs_predicates<E: QueryEngine>(
    engine: E,
    expr: LogicalExpression,
    pair: Option<(ExtractedVectorPredicate, TextPredicateView, bool)>,
) -> bool {
    match expr {
        LogicalExpression::Binary { left, op: BinaryOp::Or, right } => exists|
            v: Option<ExtractedVectorPredicate>,
        | #[trigger]
            finds_vector(engine, *left, v) && match pure_pair(v, text_predicate(right@)) {
                Some((v, t)) => pair == Some((v, t, true)),
                None => exists|w: Option<ExtractedVectorPredicate>| #[trigger]
                    finds_vector(engine, *right, w) && match pure_pair(w, text_predicate(left@)) {
                        Some((w, t)) => pair == Some((w, t, true)),
                        None => pair is None,
                    },
            },
        _ => exists|v: Option<ExtractedVectorPredicate>| #[trigger]
            finds_vector(engine, expr, v) && match (v, text_predicate(expr@)) {
                (Some(v), Some(t)) => pair == Some((v, t, false)),
                _ => pair is None,
            },
    }
}

/// The predicates of a filter expression, the text predicate by its model.
pub open spec fn pair_view(
    both: Option<(ExtractedVectorPredicate, ExtractedTextPredicate, bool)>,
) -> Option<(ExtractedVectorPredicate, TextPredicateView, bool)> {
    match both {
        Some((v, t, is_or)) => Some((v, t@, is_or)),
        None => None,
    }
}

/// The name of the vector index on a property of the nodes with a label.
pub open spec fn vector_index_name(label: Seq<char>, property: Seq<char>) -> Seq<char> {
    label + ":"@ + property
}

/// Whether an operator is the scan of the vector index that answers a
/// predicate: all results within its bounds.
pub open spec fn is_vector_scan(
    op: LogicalOperator,
    variable: Seq<char>,
    label: Seq<char>,
    v: ExtractedVectorPredicate,
) -> bool {
    match op {
        LogicalOperator::VectorScan(scan) => {
            &&& scan.variable@ == variable
            &&& opt_view(scan.index_name) == Some(vector_index_name(label, v.property@))
            &&& scan.property@ == v.property@
            &&& opt_view(scan.label) == Some(label)
            &&& scan.query_vector@ == v.query_vector@
            &&& scan.k is None
            &&& scan.metric == Some(v.metric)
            &&& scan.min_similarity == v.min_similarity
            &&& scan.max_distance == v.max_distance
            &&& scan.input is None
        },
        _ => false,
    }
}

/// Whether an engine may give this schema for columns with these names.
pub open spec fn derives_schema<E: QueryEngine>(
    engine: E,
    columns: Seq<String>,
    schema: E::Schema,
) -> bool {
    exists|names: &[String]|
        names@ == columns && #[trigger] call_ensures(
            E::derive_schema_from_columns,
            (&engine, names),
            schema,
        )
}

/// The columns that come out of the join of two scans: those of the left side,
/// then those of the right side without its first, which repeats the variable.
pub open spec fn merged_columns<T>(left: Seq<T>, right: Seq<T>) -> Seq<T> {
    left + right.subrange(
        if right.len() > 0 {
            1
        } else {
            0
        },
        right.len() as int,
    )
}

/// What each merged column is computed from, over the columns of the left side
/// followed by those of the right side. In a disjunction a row may come from the
/// right side alone, so that the variable is taken from whichever side has it.
pub open spec fn merged_exprs(left_count: nat, right_count: nat, is_or: bool) -> Seq<ProjectExpr> {
    Seq::new(
        left_count + (if right_count > 0 {
            (right_count - 1) as nat
        } else {
            0
        }),
        |i: int|
            if i >= left_count {
                ProjectExpr::Column((i + 1) as usize)
            } else if i == 0 && is_or {
                ProjectExpr::Coalesce { first: 0, second: left_count as usize }
            } else {
                ProjectExpr::Column(i as usize)
            },
    )
}

/// The columns around the join of two scans.
#[derive(Debug)]
pub struct HybridLayout {
    /// The columns of both sides.
    pub joined_columns: Vec<String>,
    /// What the merged columns are computed from.
    pub exprs: Vec<ProjectExpr>,
    /// The merged columns.
    pub output_columns: Vec<String>,
}

/// The columns around the join of two scans.
pub fn hybrid_layout(left_cols: &[String], right_cols: &[String], is_or: bool) -> (r: HybridLayout)
    ensures
        r.joined_columns@ == left_cols@ + right_cols@,
        r.exprs@ == merged_exprs(left_cols@.len(), right_cols@.len(), is_or),
        r.output_columns@ == merged_columns(left_cols@, right_cols@),
{
    let mut joined_columns: Vec<String> = Vec::new();
    let mut i: usize = 0;
    while i < left_cols.len()
        invariant
            i <= left_cols@.len(),
            joined_columns@ =~= left_cols@.take(i as int),
        decreases left_cols@.len() - i,
    {
        joined_columns.push(left_cols[i].clone());
        i += 1;
    }
    let mut i: usize = 0;
    while i < right_cols.len()
        invariant
            i <= right_cols@.len(),
            joined_columns@ =~= left_cols@ + right_cols@.take(i as int),
        decreases right_cols@.len() - i,
    {
        joined_columns.push(right_cols[i].clone());
        i += 1;
    }
    assert(joined_columns@ =~= left_cols@ + right_cols@);
    assert(joined_columns.len() == left_cols@.len() + right_cols@.len());

    let left_count: usize = left_cols.len();
    let ghost exprs_wanted = merged_exprs(left_cols@.len(), right_cols@.len(), is_or);
    let mut exprs: Vec<ProjectExpr> = Vec::new();
    let mut output_columns: Vec<String> = Vec::new();
    let mut i: usize = 0;
    while i < left_cols.len()
        invariant
            i <= left_cols@.len(),
            left_count == left_cols@.len(),
            exprs_wanted == merged_exprs(left_cols@.len(), right_cols@.len(), is_or),
            exprs@ =~= exprs_wanted.take(i as int),
            output_columns@ =~= left_cols@.take(i as int),
        decreases left_cols@.len() - i,
    {
        if i == 0 && is_or {
            exprs.push(ProjectExpr::Coalesce { first: 0, second: left_count });
        } else {
            exprs.push(ProjectExpr::Column(i));
        }
        output_columns.push(left_cols[i].clone());
        i += 1;
    }
    // The first column on the right repeats the variable.
    let mut i: usize = 1;
    while i < right_cols.len()
        invariant
            1 <= i,
            right_cols@.len() > 0 ==> i <= right_cols@.len(),
            right_cols@.len() == 0 ==> i == 1,
            left_count == left_cols@.len(),
            left_cols@.len() + right_cols@.len() <= usize::MAX,
            exprs_wanted == merged_exprs(left_cols@.len(), right_cols@.len(), is_or),
            exprs@ =~= exprs_wanted.take(left_count + i - 1),
            right_cols@.len() > 0 ==> output_columns@ =~= left_cols@ + right_cols@.subrange(
                1,
                i as int,
            ),
            right_cols@.len() == 0 ==> output_columns@ =~= left_cols@,
        decreases right_cols@.len() - i,
    {
        exprs.push(ProjectExpr::Column(left_count + i));
        output_columns.push(right_cols[i].clone());
        i += 1;
    }
    assert(exprs@ =~= exprs_wanted);
    assert(output_columns@ =~= merged_columns(left_cols@, right_cols@));
    HybridLayout { joined_columns, exprs, output_columns }
}

/// Which rows the join of a disjunction or a conjunction gives.
pub open spec fn join_type_of(is_or: bool) -> PhysicalJoinType {
    if is_or {
        PhysicalJoinType::Full
    } else {
        PhysicalJoinType::Inner
    }
}

/// Whether an operator is the join of two scans on their first column, with the
/// repeated variable projected out.
pub open spec fn is_hybrid_join<S: GraphStoreSearch + ?Sized, E: QueryEngine>(
    engine: E,
    left: PhysicalOperator<S, E>,
    left_cols: Seq<String>,
    right: PhysicalOperator<S, E>,
    right_cols: Seq<String>,
    is_or: bool,
    op: PhysicalOperator<S, E>,
) -> bool {
    match op {
        PhysicalOperator::Project { input, exprs, schema } => {
            &&& exprs@ == merged_exprs(left_cols.len(), right_cols.len(), is_or)
            &&& derives_schema(engine, merged_columns(left_cols, right_cols), schema)
            &&& match *input {
                PhysicalOperator::HashJoin {
                    left: l,
                    right: r,
                    probe_keys,
                    build_keys,
                    join_type,
                    schema: joined,
                } => {
                    &&& *l == left
                    &&& *r == right
                    &&& probe_keys@ == seq![0usize]
                    &&& build_keys@ == seq![0usize]
                    &&& join_type == join_type_of(is_or)
                    &&& derives_schema(engine, left_cols + right_cols, joined)
                },
                _ => false,
            }
        },
        _ => false,
    }
}

/// What planning a filter gives.
pub type PlanResult<S, E> = Result<
    Option<(PhysicalOperator<S, E>, Vec<String>)>,
    <E as QueryEngine>::Error,
>;

impl<S: GraphStoreSearch + ?Sized, E: QueryEngine> Planner<S, E> {
    /// Whether index scans can answer a vector and a text predicate: both are
    /// about the scanned nodes, and there is an index for each.
    pub open spec fn can_scan_both(
        &self,
        variable: Seq<char>,
        label: Seq<char>,
        v: ExtractedVectorPredicate,
        t: TextPredicateView,
    ) -> bool {
        &&& v.variable@ == variable
        &&& t.variable == variable
        &&& self.store.spec_has_vector_index(label, v.property@)
        &&& self.store.spec_has_text_index(label, t.property)
    }

    /// Extracts the parts of a predicate that are neither a vector nor a text
    /// predicate.
    ///
    /// Walks conjunctions and keeps only the conditions that no index answers:
    /// those are applied after the join.
    pub fn extract_scalar_remaining(&self, expr: &LogicalExpression) -> (r: Option<
        LogicalExpression,
    >)
        ensures
            leaves_scalar(self.engine, *expr, opt_view(r)),
        decreases expr,
    {
        match expr {
            LogicalExpression::Binary { left, op: BinaryOp::And, right } => {
                let left_scalar = self.extract_scalar_remaining(&**left);
                let right_scalar = self.extract_scalar_remaining(&**right);
                let ghost l = opt_view(left_scalar);
                let ghost r = opt_view(right_scalar);
                let ghost rest = and_of_rest(l, r);
                assert(leaves_scalar(self.engine, *expr, rest));
                match (left_scalar, right_scalar) {
                    (Some(l), Some(r)) => Some(and_expr(l, r)),
                    (Some(l), None) => Some(l),
                    (None, Some(r)) => Some(r),
                    (None, None) => None,
                }
            },
            LogicalExpression::Binary { left, op: BinaryOp::Or, right } => {
                // If both sides are index predicates, the join already gives
                // their union.
                let left_scalar = self.extract_scalar_remaining(&**left);
                let right_scalar = self.extract_scalar_remaining(&**right);
                let ghost rest = or_of_rest(expr@, opt_view(left_scalar), opt_view(right_scalar));
                assert(leaves_scalar(self.engine, *expr, rest));
                if left_scalar.is_none() && right_scalar.is_none() {
                    None
                } else {
                    Some(expr.clone())
                }
            },
            _ => {
                let vector = self.engine.extract_vector_predicate(expr);
                assert(finds_vector(self.engine, *expr, vector));
                let text = self.extract_text_predicate(expr);
                if vector.is_some() || text.is_some() {
                    None
                } else {
                    Some(expr.clone())
                }
            },
        }
    }

    /// Finds the vector and the text predicate of a filter expression, and tells
    /// whether it is a disjunction. Each side of a disjunction has to be a pure
    /// vector or text predicate, with no scalar condition beside it.
    pub fn extract_both_predicates(&self, expr: &LogicalExpression) -> (r: Option<
        (ExtractedVectorPredicate, ExtractedTextPredicate, bool),
    >)
        ensures
            pairs_predicates(self.engine, *expr, pair_view(r)),
    {
        match expr {
            LogicalExpression::Binary { left, op: BinaryOp::Or, right } => {
                // The vector predicate on the left, the text predicate on the
                // right.
                let vector = self.engine.extract_vector_predicate(&**left);
                let ghost v = vector;
                assert(finds_vector(self.engine, **left, v));
                let text = self.extract_text_predicate(&**right);
                if let (Some(v), Some(t)) = (vector, text) {
                    if v.remaining.is_none() && t.remaining.is_none() {
                        return Some((v, t, true));
                    }
                }
                // The other way round.
                let vector = self.engine.extract_vector_predicate(&**right);
                let ghost w = vector;
                assert(finds_vector(self.engine, **right, w));
                let text = self.extract_text_predicate(&**left);
                match (vector, text) {
                    (Some(v), Some(t)) => if v.remaining.is_none() && t.remaining.is_none() {
                        Some((v, t, true))
                    } else {
                        None
                    },
                    _ => None,
                }
            },
            _ => {
                let vector = self.engine.extract_vector_predicate(expr);
                let ghost v = vector;
                assert(finds_vector(self.engine, *expr, v));
                let text = self.extract_text_predicate(expr);
                match (vector, text) {
                    (Some(v), Some(t)) => Some((v, t, false)),
                    _ => None,
                }
            },
        }
    }

    /// The scan of the vector index that answers a predicate.
    pub fn vector_scan(
        &self,
        variable: &String,
        label: &String,
        predicate: &ExtractedVectorPredicate,
    ) -> (r: LogicalOperator)
        ensures
            is_vector_scan(r, variable@, label@, *predicate),
    {
        let mut index_name = label.clone();
        index_name.append(":");
        index_name.append(predicate.property.as_str());
        LogicalOperator::VectorScan(
            VectorScanOp {
                variable: variable.clone(),
                index_name: Some(index_name),
                property: predicate.property.clone(),
                label: Some(label.clone()),
                query_vector: predicate.query_vector.clone(),
                k: None,
                metric: Some(predicate.metric),
                min_similarity: predicate.min_similarity,
                max_distance: predicate.max_distance,
                input: None,
            },
        )
    }

    /// Joins two scans on their first column and projects out the variable that
    /// both give. Gives the merged columns too.
    pub fn join_scans(
        &self,
        left_op: PhysicalOperator<S, E>,
        left_cols: &[String],
        right_op: PhysicalOperator<S, E>,
        right_cols: &[String],
        is_or: bool,
    ) -> (r: (PhysicalOperator<S, E>, Vec<String>))
        ensures
            is_hybrid_join(
                self.engine,
                left_op,
                left_cols@,
                right_op,
                right_cols@,
                is_or,
                r.0,
            ),
            r.1@ == merged_columns(left_cols@, right_cols@),
    {
        let layout = hybrid_layout(left_cols, right_cols, is_or);
        let join_type = if is_or {
            PhysicalJoinType::Full
        } else {
            PhysicalJoinType::Inner
        };
        let joined_schema = self.engine.derive_schema_from_columns(
            layout.joined_columns.as_slice(),
        );
        assert(derives_schema(self.engine, left_cols@ + right_cols@, joined_schema));
        let probe_keys: Vec<usize> = vec![0];
        let build_keys: Vec<usize> = vec![0];
        let join = PhysicalOperator::HashJoin {
            left: Box::new(left_op),
            right: Box::new(right_op),
            probe_keys,
            build_keys,
            join_type,
            schema: joined_schema,
        };
        let schema = self.engine.derive_schema_from_columns(layout.output_columns.as_slice());
        assert(derives_schema(self.engine, merged_columns(left_cols@, right_cols@), schema));
        assert(probe_keys@ =~= seq![0usize]);
        assert(build_keys@ =~= seq![0usize]);
        let project = PhysicalOperator::Project {
            input: Box::new(join),
            exprs: layout.exprs,
            schema,
        };
        (project, layout.output_columns)
    }

    /// Whether a result is the join of two scans, each filtered by what its
    /// predicate leaves over, filtered by what neither answers; or the error of
    /// the first of those filters that fails.
    pub open spec fn joins_scans(
        &self,
        predicate: LogicalExpression,
        left: E::Operator,
        left_cols: Vec<String>,
        left_rest: Option<ExprView>,
        right: E::Operator,
        right_cols: Vec<String>,
        right_rest: Option<ExprView>,
        is_or: bool,
        r: PlanResult<S, E>,
    ) -> bool {
        exists|l: Result<PhysicalOperator<S, E>, E::Error>| #[trigger]
            self.wraps_if_any(
                PhysicalOperator::Planned(left),
                seq_view(left_cols@),
                left_rest,
                l,
            ) && match l {
                Err(error) => r == Err::<
                    Option<(PhysicalOperator<S, E>, Vec<String>)>,
                    E::Error,
                >(error),
                Ok(left_op) => self.joins_filtered_left(
                    predicate,
                    left_op,
                    left_cols,
                    right,
                    right_cols,
                    right_rest,
                    is_or,
                    r,
                ),
            }
    }

    /// As [`Planner::joins_scans`], with the left scan already filtered.
    pub open spec fn joins_filtered_left(
        &self,
        predicate: LogicalExpression,
        left_op: PhysicalOperator<S, E>,
        left_cols: Vec<String>,
        right: E::Operator,
        right_cols: Vec<String>,
        right_rest: Option<ExprView>,
        is_or: bool,
        r: PlanResult<S, E>,
    ) -> bool {
        exists|w: Result<PhysicalOperator<S, E>, E::Error>| #[trigger]
            self.wraps_if_any(
                PhysicalOperator::Planned(right),
                seq_view(right_cols@),
                right_rest,
                w,
            ) && match w {
                Err(error) => r == Err::<
                    Option<(PhysicalOperator<S, E>, Vec<String>)>,
                    E::Error,
                >(error),
                Ok(right_op) => self.joins_filtered(
                    predicate,
                    left_op,
                    left_cols,
                    right_op,
                    right_cols,
                    is_or,
                    r,
                ),
            }
    }

    /// As [`Planner::joins_scans`], with both scans already filtered.
    pub open spec fn joins_filtered(
        &self,
        predicate: LogicalExpression,
        left_op: PhysicalOperator<S, E>,
        left_cols: Vec<String>,
        right_op: PhysicalOperator<S, E>,
        right_cols: Vec<String>,
        is_or: bool,
        r: PlanResult<S, E>,
    ) -> bool {
        exists|op: PhysicalOperator<S, E>, columns: Vec<String>, rest: Option<ExprView>|
            is_hybrid_join(
                self.engine,
                left_op,
                left_cols@,
                right_op,
                right_cols@,
                is_or,
                op,
            ) && columns@ == merged_columns(left_cols@, right_cols@) && leaves_scalar(
                self.engine,
                predicate,
                rest,
            ) && #[trigger] self.finishes(op, columns, rest, r)
    }

    /// Whether a result is what planning both index scans and joining them
    /// gives, or the error of the first of them that the engine cannot plan.
    pub open spec fn scans_both(
        &self,
        predicate: LogicalExpression,
        variable: Seq<char>,
        label: Seq<char>,
        v: ExtractedVectorPredicate,
        t: TextPredicateView,
        is_or: bool,
        r: PlanResult<S, E>,
    ) -> bool {
        exists|vector_op: LogicalOperator, planned: Result<(E::Operator, Vec<String>), E::Error>|
            is_vector_scan(vector_op, variable, label, v) && #[trigger] call_ensures(
                E::plan_operator,
                (&self.engine, &vector_op),
                planned,
            ) && match planned {
                Err(error) => r == Err::<
                    Option<(PhysicalOperator<S, E>, Vec<String>)>,
                    E::Error,
                >(error),
                Ok((left, left_cols)) => self.scans_text_too(
                    predicate,
                    variable,
                    label,
                    t,
                    left,
                    left_cols,
                    opt_view(v.remaining),
                    is_or,
                    r,
                ),
            }
    }

    /// As [`Planner::scans_both`], with the vector index scan already planned.
    pub open spec fn scans_text_too(
        &self,
        predicate: LogicalExpression,
        variable: Seq<char>,
        label: Seq<char>,
        t: TextPredicateView,
        left: E::Operator,
        left_cols: Vec<String>,
        left_rest: Option<ExprView>,
        is_or: bool,
        r: PlanResult<S, E>,
    ) -> bool {
        exists|
            column: Seq<char>,
            text_op: LogicalOperator,
            planned: Result<(E::Operator, Vec<String>), E::Error>,
        |
            #![trigger is_text_scan(text_op, variable, label, t, column), call_ensures(E::plan_operator, (&self.engine, &text_op), planned)]
            {
                &&& names_score_column(self.engine, variable, t.property, t.query_expr, column)
                &&& is_text_scan(text_op, variable, label, t, column)
                &&& call_ensures(E::plan_operator, (&self.engine, &text_op), planned)
                &&& match planned {
                    Err(error) => r == Err::<
                        Option<(PhysicalOperator<S, E>, Vec<String>)>,
                        E::Error,
                    >(error),
                    Ok((right, right_cols)) => self.joins_scans(
                        predicate,
                        left,
                        left_cols,
                        left_rest,
                        right,
                        right_cols,
                        t.remaining,
                        is_or,
                        r,
                    ),
                }
            }
    }

    /// Whether a result is what planning a filter by a vector and a text index
    /// scan gives: nothing where the filter does not stand on a label scan, does
    /// not have both predicates, where no scans can answer them, or where
    /// the query vector is unknown; else both scans, joined.
    pub open spec fn plans_compound_filter(&self, filter: FilterOp, r: PlanResult<S, E>) -> bool {
        let nothing = Ok::<Option<(PhysicalOperator<S, E>, Vec<String>)>, E::Error>(None);
        match labelled_scan(filter) {
            None => r == nothing,
            Some((variable, label)) => exists|
                pair: Option<(ExtractedVectorPredicate, TextPredicateView, bool)>,
            | #[trigger]
                pairs_predicates(self.engine, filter.predicate, pair) && match pair {
                    None => r == nothing,
                    Some((v, t, is_or)) => if self.can_scan_both(variable, label, v, t) {
                        exists|resolved: Result<(), E::Error>| #[trigger]
                            call_ensures(
                                E::resolve_vector_literal,
                                (&self.engine, &v.query_vector),
                                resolved,
                            ) && match resolved {
                                Err(_) => r == nothing,
                                Ok(_) => self.scans_both(
                                    filter.predicate,
                                    variable,
                                    label,
                                    v,
                                    t,
                                    is_or,
                                    r,
                                ),
                            }
                    } else {
                        r == nothing
                    },
                },
        }
    }

    /// Filters and joins two planned scans.
    fn join_planned(
        &self,
        predicate: &LogicalExpression,
        left: E::Operator,
        left_cols: Vec<String>,
        vector_remaining: &Option<LogicalExpression>,
        right: E::Operator,
        right_cols: Vec<String>,
        text_remaining: &Option<LogicalExpression>,
        is_or: bool,
    ) -> (r: PlanResult<S, E>)
        ensures
            self.joins_scans(
                *predicate,
                left,
                left_cols,
                opt_view(*vector_remaining),
                right,
                right_cols,
                opt_view(*text_remaining),
                is_or,
                r,
            ),
    {
        // What a predicate leaves over of a conjunction is filtered before the
        // join. A disjunction leaves nothing over on either side.
        let left_wrapped = self.wrap_if_any(
            PhysicalOperator::Planned(left),
            left_cols.as_slice(),
            vector_remaining,
        );
        let ghost l = left_wrapped;
        assert(self.wraps_if_any(
            PhysicalOperator::Planned(left),
            seq_view(left_cols@),
            opt_view(*vector_remaining),
            l,
        ));
        let left_op = match left_wrapped {
            Ok(op) => op,
            Err(error) => return Err(error),
        };
        let right_wrapped = self.wrap_if_any(
            PhysicalOperator::Planned(right),
            right_cols.as_slice(),
            text_remaining,
        );
        let ghost w = right_wrapped;
        assert(self.wraps_if_any(
            PhysicalOperator::Planned(right),
            seq_view(right_cols@),
            opt_view(*text_remaining),
            w,
        ));
        let right_op = match right_wrapped {
            Ok(op) => op,
            Err(error) => return Err(error),
        };
        let (op, columns) = self.join_scans(
            left_op,
            left_cols.as_slice(),
            right_op,
            right_cols.as_slice(),
            is_or,
        );
        let scalar_remaining = self.extract_scalar_remaining(predicate);
        let r = self.finish(op, columns, &scalar_remaining);
        assert(self.finishes(op, columns, opt_view(scalar_remaining), r));
        assert(self.joins_filtered(
            *predicate,
            left_op,
            left_cols,
            right_op,
            right_cols,
            is_or,
            r,
        ));
        r
    }

    /// Tries to plan a filter that has both a vector predicate and a text
    /// predicate.
    ///
    /// Both index scans run on their own and a hash join merges them: an inner
    /// join for a conjunction, a full join for a disjunction. The scores of both
    /// are given as columns. Of a conjunction the predicates may stand anywhere
    /// in it; each side of a disjunction has to be a pure vector or text
    /// predicate, with no scalar condition beside it.
    ///
    /// Gives `Ok(None)` where the filter does not stand on a label scan, where it
    /// does not have both predicates or one of them is not about the scanned
    /// nodes, where an index is missing, and where the query vector cannot be
    /// resolved. An operator that feeds the label scan is not looked at, and has no
    /// part in the plan.
    pub fn try_plan_filter_compound_hybrid(&self, filter: &FilterOp) -> (r: PlanResult<S, E>)
        ensures
            self.plans_compound_filter(*filter, r),
    {
        let scan = match &*filter.input {
            LogicalOperator::NodeScan(scan) => scan,
            _ => return Ok(None),
        };
        let label = match &scan.label {
            Some(label) => label,
            None => return Ok(None),
        };
        let both = self.extract_both_predicates(&filter.predicate);
        let ghost pair = pair_view(both);
        assert(pairs_predicates(self.engine, filter.predicate, pair));
        let (vector_pred, text_pred, is_or) = match both {
            Some(found) => found,
            None => return Ok(None),
        };
        // Both have to be about the scanned nodes.
        if !(vector_pred.variable == scan.variable) || !(text_pred.variable == scan.variable) {
            return Ok(None);
        }
        // Without an index the rows are evaluated one by one.
        if !self.store.has_vector_index(label.as_str(), vector_pred.property.as_str()) {
            return Ok(None);
        }
        if !self.store.has_text_index(label.as_str(), text_pred.property.as_str()) {
            return Ok(None);
        }
        // A scan needs to know the query vector.
        let resolved = self.engine.resolve_vector_literal(&vector_pred.query_vector);
        assert(call_ensures(
            E::resolve_vector_literal,
            (&self.engine, &vector_pred.query_vector),
            resolved,
        ));
        if resolved.is_err() {
            return Ok(None);
        }
        let vector_op = self.vector_scan(&scan.variable, label, &vector_pred);
        let text_op = self.text_scan(&scan.variable, label, &text_pred);
        let left_planned = self.engine.plan_operator(&vector_op);
        let ghost left_answer = left_planned;
        assert(call_ensures(E::plan_operator, (&self.engine, &vector_op), left_answer));
        let (left, left_cols) = match left_planned {
            Ok(left) => left,
            Err(error) => return Err(error),
        };
        let right_planned = self.engine.plan_operator(&text_op);
        let ghost right_answer = right_planned;
        assert(call_ensures(E::plan_operator, (&self.engine, &text_op), right_answer));
        let (right, right_cols) = match right_planned {
            Ok(right) => right,
            Err(error) => return Err(error),
        };
        self.join_planned(
            &filter.predicate,
            left,
            left_cols,
            &vector_pred.remaining,
            right,
            right_cols,
            &text_pred.remaining,
            is_or,
        )
    }
}

} // verus!
