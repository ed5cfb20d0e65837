//! The planner, and the pushdown of text predicates into text index scans.

use std::sync::Arc;

use vstd::hash_map::StringHashMap;
use vstd::prelude::*;

use super::expression::{ExprView, LogicalExpression};
use super::operator::{
    ExpressionPredicate, FilterOp, LogicalOperator, PhysicalOperator, QueryEngine, TextScanOp,
};
use super::text_predicate::{text_predicate, ExtractedTextPredicate, TextPredicateView};
use crate::graph::GraphStoreSearch;
use crate::text::{opt_view, seq_view};
use crate::types::{EpochId, TransactionId};

verus! {

/// Turns logical operators into physical ones.
pub struct Planner<S: GraphStoreSearch + ?Sized, E: QueryEngine> {
    /// The store that is queried.
    pub store: Arc<S>,
    /// The rest of the query engine.
    pub engine: E,
    /// The epoch that the query reads.
    pub viewing_epoch: EpochId,
    /// The transaction that the query runs in.
    pub transaction_id: Option<TransactionId>,
    /// The session that the query runs in.
    pub session_context: E::Session,
}

/// A filter whose text predicate an index can answer.
#[derive(Debug)]
pub struct TextPushdown {
    /// The variable that the scanned nodes are bound to.
    pub variable: String,
    /// The label of the scanned nodes.
    pub label: String,
    /// The text predicate.
    pub predicate: ExtractedTextPredicate,
}

/// The variable and label of the label scan that a filter stands directly on.
pub open spec fn labelled_scan(filter: FilterOp) -> Option<(Seq<char>, Seq<char>)> {
    match *filter.input {
        LogicalOperator::NodeScan(scan) => match scan.label {
            Some(label) => Some((scan.variable@, label@)),
            None => None,
        },
        _ => None,
    }
}

/// The variable and label of the full label scan that a filter stands directly
/// on. A scan that another operator feeds is none: an index scan in its place
/// would lose the rows and columns of that operator.
pub open spec fn full_label_scan(filter: FilterOp) -> Option<(Seq<char>, Seq<char>)> {
    match *filter.input {
        LogicalOperator::NodeScan(scan) => if scan.input is None {
            labelled_scan(filter)
        } else {
            None
        },
        _ => None,
    }
}

/// Whether a map gives for each column name its position, and for a name that
/// several columns have the position of the last of them.
pub open spec fn maps_columns(m: Map<Seq<char>, usize>, columns: Seq<Seq<char>>) -> bool {
    &&& forall|name: Seq<char>| #[trigger] m.contains_key(name) <==> columns.contains(name)
    &&& forall|name: Seq<char>| #[trigger]
        m.contains_key(name) ==> m[name] < columns.len() && columns[m[name] as int] == name
            && forall|j: int| m[name] < j < columns.len() ==> columns[j] != name
}

/// Whether an engine may name the score column of a search so.
pub open spec fn names_score_column<E: QueryEngine>(
    engine: E,
    variable: Seq<char>,
    property: Seq<char>,
    query: ExprView,
    column: Seq<char>,
) -> bool {
    exists|v: &str, p: &str, q: LogicalExpression, name: String|
        v@ == variable && p@ == property && q@ == query && name@ == column && #[trigger]
        call_ensures(E::text_score_column_name, (&engine, v, p, &q), name)
}

/// Whether an operator is the scan of the text index that answers a predicate:
/// all results that reach the threshold, with their score.
pub open spec fn is_text_scan(
    op: LogicalOperator,
    variable: Seq<char>,
    label: Seq<char>,
    t: TextPredicateView,
    score_column: Seq<char>,
) -> bool {
    match op {
        LogicalOperator::TextScan(scan) => {
            &&& scan.variable@ == variable
            &&& scan.property@ == t.property
            &&& scan.label@ == label
            &&& scan.query@ == t.query_expr
            &&& scan.k is None
            &&& scan.threshold == Some(t.threshold)
            &&& opt_view(scan.score_column) == Some(score_column)
        },
        _ => false,
    }
}

/// The position of each column name.
pub fn column_positions(columns: &[String]) -> (r: StringHashMap<usize>)
    ensures
        maps_columns(r@, seq_view(columns@)),
{
    let mut positions: StringHashMap<usize> = StringHashMap::new();
    let mut i: usize = 0;
    while i < columns.len()
        invariant
            i <= columns@.len(),
            maps_columns(positions@, seq_view(columns@).take(i as int)),
        decreases columns@.len() - i,
    {
        let ghost before = positions@;
        let ghost done = seq_view(columns@).take(i as int);
        let ghost more = seq_view(columns@).take(i + 1);
        let ghost new = columns@[i as int]@;
        positions.insert(columns[i].clone(), i);
        proof {
            assert(more =~= done.push(new));
            assert forall|name: Seq<char>| #[trigger]
                positions@.contains_key(name) <==> more.contains(name) by {
                if done.contains(name) {
                    let k = choose|k: int| 0 <= k < done.len() && done[k] == name;
                    assert(more[k] == name);
                }
                assert(more[i as int] == new);
                assert(before.contains_key(name) <==> done.contains(name));
            }
            assert forall|name: Seq<char>| #[trigger]
                positions@.contains_key(name) implies positions@[name] < more.len()
                && more[positions@[name] as int] == name && forall|j: int|
                positions@[name] < j < more.len() ==> more[j] != name by {
                if name != new {
                    assert(before.contains_key(name));
                    assert(before[name] == positions@[name]);
                }
            }
        }
        i += 1;
    }
    assert(seq_view(columns@).take(i as int) =~= seq_view(columns@));
    positions
}

impl<S: GraphStoreSearch + ?Sized, E: QueryEngine> Planner<S, E> {
    /// A new planner.
    pub fn new(
        store: Arc<S>,
        engine: E,
        viewing_epoch: EpochId,
        transaction_id: Option<TransactionId>,
        session_context: E::Session,
    ) -> (r: Self)
        ensures
            r.store == store,
            r.engine == engine,
            r.viewing_epoch == viewing_epoch,
            r.transaction_id == transaction_id,
            r.session_context == session_context,
    {
        Planner { store, engine, viewing_epoch, transaction_id, session_context }
    }

    /// Whether a result is what filtering an operator by an expression gives:
    /// the engine's conversion of the expression over the operator's columns,
    /// in the transaction and session of the planner, or the engine's error.
    pub open spec fn wraps(
        &self,
        op: PhysicalOperator<S, E>,
        columns: Seq<Seq<char>>,
        remaining: ExprView,
        r: Result<PhysicalOperator<S, E>, E::Error>,
    ) -> bool {
        exists|x: LogicalExpression, converted: Result<E::Expression, E::Error>|
            x@ == remaining && #[trigger] call_ensures(
                E::convert_expression,
                (&self.engine, &x),
                converted,
            ) && match converted {
                Ok(expression) => match r {
                    Ok(PhysicalOperator::Filter { input, predicate }) => {
                        &&& *input == op
                        &&& predicate.expression == expression
                        &&& maps_columns(predicate.variable_columns@, columns)
                        &&& predicate.store == self.store
                        &&& predicate.viewing_epoch == self.viewing_epoch
                        &&& predicate.transaction_id == self.transaction_id
                        &&& cloned(self.session_context, predicate.session_context)
                    },
                    _ => false,
                },
                Err(error) => r == Err::<PhysicalOperator<S, E>, E::Error>(error),
            }
    }

    /// As [`Planner::wraps`] where something remains; else the operator itself.
    pub open spec fn wraps_if_any(
        &self,
        op: PhysicalOperator<S, E>,
        columns: Seq<Seq<char>>,
        remaining: Option<ExprView>,
        r: Result<PhysicalOperator<S, E>, E::Error>,
    ) -> bool {
        match remaining {
            Some(e) => self.wraps(op, columns, e, r),
            None => r == Ok::<PhysicalOperator<S, E>, E::Error>(op),
        }
    }

    /// Whether a result gives an operator, filtered by what remains, with its
    /// columns, or the error of filtering it.
    pub open spec fn finishes(
        &self,
        op: PhysicalOperator<S, E>,
        columns: Vec<String>,
        remaining: Option<ExprView>,
        r: Result<Option<(PhysicalOperator<S, E>, Vec<String>)>, E::Error>,
    ) -> bool {
        exists|w: Result<PhysicalOperator<S, E>, E::Error>| #[trigger]
            self.wraps_if_any(op, seq_view(columns@), remaining, w) && match w {
                Ok(done) => r == Ok::<
                    Option<(PhysicalOperator<S, E>, Vec<String>)>,
                    E::Error,
                >(Some((done, columns))),
                Err(error) => r == Err::<
                    Option<(PhysicalOperator<S, E>, Vec<String>)>,
                    E::Error,
                >(error),
            }
    }

    /// The variable, label and predicate of the text index scan that can stand
    /// for a filter: the filter stands on a full label scan, its text predicate
    /// is about the scanned nodes, and there is an index for it.
    pub open spec fn text_pushdown(&self, filter: FilterOp) -> Option<
        (Seq<char>, Seq<char>, TextPredicateView),
    > {
        match (full_label_scan(filter), text_predicate(filter.predicate@)) {
            (Some((variable, label)), Some(t)) => if t.variable == variable
                && self.store.spec_has_text_index(label, t.property) {
                Some((variable, label, t))
            } else {
                None
            },
            _ => None,
        }
    }

    /// Whether a result is what planning a filter by a text index scan gives:
    /// nothing where no such scan can stand for the filter; else the scan as the
    /// engine planned it, filtered by what the text predicate leaves over, or
    /// the engine's error.
    pub open spec fn plans_text_filter(
        &self,
        filter: FilterOp,
        r: Result<Option<(PhysicalOperator<S, E>, Vec<String>)>, E::Error>,
    ) -> bool {
        match self.text_pushdown(filter) {
            None => r == Ok::<Option<(PhysicalOperator<S, E>, Vec<String>)>, E::Error>(None),
            Some((variable, label, t)) => exists|
                column: Seq<char>,
                op: LogicalOperator,
                planned: Result<(E::Operator, Vec<String>), E::Error>,
            |
                #![trigger is_text_scan(op, variable, label, t, column), call_ensures(E::plan_operator, (&self.engine, &op), planned)]
                {
                    &&& names_score_column(
                        self.engine,
                        variable,
                        t.property,
                        t.query_expr,
                        column,
                    )
                    &&& is_text_scan(op, variable, label, t, column)
                    &&& call_ensures(E::plan_operator, (&self.engine, &op), planned)
                    &&& match planned {
                        Ok((scan, columns)) => self.finishes(
                            PhysicalOperator::Planned(scan),
                            columns,
                            t.remaining,
                            r,
                        ),
                        Err(error) => r == Err::<
                            Option<(PhysicalOperator<S, E>, Vec<String>)>,
                            E::Error,
                        >(error),
                    }
                },
        }
    }

    /// Wraps an operator in a filter that evaluates an expression over its
    /// columns.
    pub fn wrap_with_remaining_filter(
        &self,
        op: PhysicalOperator<S, E>,
        columns: &[String],
        remaining: &LogicalExpression,
    ) -> (r: Result<PhysicalOperator<S, E>, E::Error>)
        ensures
            self.wraps(op, seq_view(columns@), remaining@, r),
    {
        let variable_columns = column_positions(columns);
        let converted = self.engine.convert_expression(remaining);
        let ghost answer = converted;
        assert(call_ensures(E::convert_expression, (&self.engine, remaining), answer));
        match converted {
            Ok(expression) => {
                let predicate = ExpressionPredicate {
                    expression,
                    variable_columns,
                    store: self.store.clone(),
                    viewing_epoch: self.viewing_epoch,
                    transaction_id: self.transaction_id,
                    session_context: self.session_context.clone(),
                };
                Ok(PhysicalOperator::Filter { input: Box::new(op), predicate })
            },
            Err(error) => Err(error),
        }
    }

    /// Wraps an operator in a filter if something remains to be evaluated.
    pub(crate) fn wrap_if_any(
        &self,
        op: PhysicalOperator<S, E>,
        columns: &[String],
        remaining: &Option<LogicalExpression>,
    ) -> (r: Result<PhysicalOperator<S, E>, E::Error>)
        ensures
            self.wraps_if_any(op, seq_view(columns@), opt_view(*remaining), r),
    {
        match remaining {
            Some(e) => self.wrap_with_remaining_filter(op, columns, e),
            None => Ok(op),
        }
    }

    /// Gives an operator, filtered by what remains, with its columns.
    pub(crate) fn finish(
        &self,
        op: PhysicalOperator<S, E>,
        columns: Vec<String>,
        remaining: &Option<LogicalExpression>,
    ) -> (r: Result<Option<(PhysicalOperator<S, E>, Vec<String>)>, E::Error>)
        ensures
            self.finishes(op, columns, opt_view(*remaining), r),
    {
        let wrapped = self.wrap_if_any(op, columns.as_slice(), remaining);
        let ghost w = wrapped;
        assert(self.wraps_if_any(op, seq_view(columns@), opt_view(*remaining), w));
        match wrapped {
            Ok(done) => Ok(Some((done, columns))),
            Err(error) => Err(error),
        }
    }

    /// Decides whether a text index scan can stand for a filter.
    pub fn find_text_pushdown(&self, filter: &FilterOp) -> (r: Option<TextPushdown>)
        ensures
            match (r, self.text_pushdown(*filter)) {
                (Some(p), Some((variable, label, t))) => p.variable@ == variable && p.label@
                    == label && p.predicate@ == t,
                (None, None) => true,
                _ => false,
            },
    {
        // Only a full label scan, with no nested input, is pushed down to.
        let scan = match &*filter.input {
            LogicalOperator::NodeScan(scan) => scan,
            _ => return None,
        };
        if scan.input.is_some() {
            return None;
        }
        let label = match &scan.label {
            Some(label) => label,
            None => return None,
        };
        let predicate = match self.extract_text_predicate(&filter.predicate) {
            Some(predicate) => predicate,
            None => return None,
        };
        if !(predicate.variable == scan.variable) {
            return None;
        }
        // Without an index the rows are evaluated one by one.
        if !self.store.has_text_index(label.as_str(), predicate.property.as_str()) {
            return None;
        }
        Some(TextPushdown { variable: scan.variable.clone(), label: label.clone(), predicate })
    }

    /// The scan of the text index that answers a predicate.
    pub fn text_scan(
        &self,
        variable: &String,
        label: &String,
        predicate: &ExtractedTextPredicate,
    ) -> (r: LogicalOperator)
        ensures
            exists|column: Seq<char>|
                names_score_column(
                    self.engine,
                    variable@,
                    predicate@.property,
                    predicate@.query_expr,
                    column,
                ) && #[trigger] is_text_scan(r, variable@, label@, predicate@, column),
    {
        let column = self.engine.text_score_column_name(
            variable.as_str(),
            predicate.property.as_str(),
            &predicate.query_expr,
        );
        let ghost name = column@;
        let scan = TextScanOp {
            variable: variable.clone(),
            property: predicate.property.clone(),
            label: label.clone(),
            query: predicate.query_expr.clone(),
            k: None,
            threshold: Some(predicate.threshold),
            score_column: Some(column),
        };
        let op = LogicalOperator::TextScan(scan);
        assert(names_score_column(
            self.engine,
            variable@,
            predicate@.property,
            predicate@.query_expr,
            name,
        ));
        assert(is_text_scan(op, variable@, label@, predicate@, name));
        op
    }

    /// Tries to push a text search predicate down into a scan of a text index.
    ///
    /// Recognises patterns like
    /// - `text_score(n.body, "search terms") > 0.5`
    /// - `text_match(n.body, "search terms")`, which stands alone.
    ///
    /// Gives `Ok(None)` where the filter is left to evaluation row by row, as it
    /// is when there is no text index.
    pub fn try_plan_filter_with_text_index(&self, filter: &FilterOp) -> (r: Result<
        Option<(PhysicalOperator<S, E>, Vec<String>)>,
        E::Error,
    >)
        ensures
            self.plans_text_filter(*filter, r),
    {
        let pushdown = match self.find_text_pushdown(filter) {
            Some(pushdown) => pushdown,
            None => return Ok(None),
        };
        let predicate = pushdown.predicate;
        // The score column is always given, so that what follows can refer to it.
        let op = self.text_scan(&pushdown.variable, &pushdown.label, &predicate);
        let planned = self.engine.plan_operator(&op);
        let ghost answer = planned;
        assert(call_ensures(E::plan_operator, (&self.engine, &op), answer));
        match planned {
            Ok((scan, columns)) => self.finish(
                PhysicalOperator::Planned(scan),
                columns,
                &predicate.remaining,
            ),
            Err(error) => Err(error),
        }
    }
}

} // verus!
