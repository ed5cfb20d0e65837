//! Recognition of text search in a filter expression.

use vstd::prelude::*;

use super::expression::{and_expr, and_view, BinaryOp, ExprView, LogicalExpression};
use super::operator::QueryEngine;
use super::text_filter::Planner;
use crate::graph::GraphStoreSearch;
use crate::text::opt_view;
use crate::types::{FloatBits, Value, ValueView};

verus! {

/// The score that a text search has to reach, as the literal states it.
#[derive(Clone, Copy, Debug, PartialEq, Eq, Structural)]
pub enum Threshold {
    /// A floating-point literal.
    Float64(FloatBits),
    /// An integer literal: the threshold is the nearest floating-point number.
    Int64(i64),
}

/// A text predicate that was found in a filter expression.
#[derive(Debug)]
pub struct ExtractedTextPredicate {
    /// The property that is searched.
    pub property: String,
    /// The variable whose property is searched (`n` in `n.body`).
    pub variable: String,
    /// The search terms.
    pub query_expr: LogicalExpression,
    /// The score to reach.
    pub threshold: Threshold,
    /// What else the filter demands.
    pub remaining: Option<LogicalExpression>,
}

/// The model of an [`ExtractedTextPredicate`].
pub struct TextPredicateView {
    pub property: Seq<char>,
    pub variable: Seq<char>,
    pub query_expr: ExprView,
    pub threshold: Threshold,
    pub remaining: Option<ExprView>,
}

impl View for ExtractedTextPredicate {
    type V = TextPredicateView;

    open spec fn view(&self) -> TextPredicateView {
        TextPredicateView {
            property: self.property@,
            variable: self.variable@,
            query_expr: self.query_expr@,
            threshold: self.threshold,
            remaining: opt_view(self.remaining),
        }
    }
}

/// The threshold that an expression states: it has to be a number literal.
pub open spec fn threshold_of(e: ExprView) -> Option<Threshold> {
    match e {
        ExprView::Literal(ValueView::Float64(x)) => Some(Threshold::Float64(x)),
        ExprView::Literal(ValueView::Int64(n)) => Some(Threshold::Int64(n)),
        _ => None,
    }
}

/// The predicate of a text function: it takes a property and the search terms,
/// and is compared with a number.
pub open spec fn text_call(args: Seq<ExprView>, threshold_expr: ExprView) -> Option<
    TextPredicateView,
> {
    if args.len() != 2 {
        None
    } else {
        match (args[0], threshold_of(threshold_expr)) {
            (ExprView::Property { variable, property }, Some(threshold)) => Some(
                TextPredicateView {
                    property,
                    variable,
                    query_expr: args[1],
                    threshold,
                    remaining: None,
                },
            ),
            _ => None,
        }
    }
}

/// The predicate of an expression that is itself a text search:
/// `text_score(n.body, terms)` greater than, or greater than or equal to, a
/// number; or `text_match(n.body, terms)`, which asks for a score above zero.
pub open spec fn text_atom(e: ExprView) -> Option<TextPredicateView> {
    match e {
        ExprView::Binary { left, op, right } => match *left {
            ExprView::FunctionCall { name, args, distinct: _ } => if name == "text_score"@ && (op
                == BinaryOp::Gt || op == BinaryOp::Ge) {
                text_call(args, *right)
            } else {
                None
            },
            _ => None,
        },
        ExprView::FunctionCall { name, args, distinct: _ } => if name == "text_match"@ {
            text_call(args, ExprView::Literal(ValueView::Float64(FloatBits(0))))
        } else {
            None
        },
        _ => None,
    }
}

/// A predicate with one more demand after those that remain.
pub open spec fn also_after(t: TextPredicateView, demand: ExprView) -> TextPredicateView {
    TextPredicateView {
        remaining: Some(
            match t.remaining {
                Some(prev) => and_view(prev, demand),
                None => demand,
            },
        ),
        ..t
    }
}

/// A predicate with one more demand before those that remain.
pub open spec fn also_before(t: TextPredicateView, demand: ExprView) -> TextPredicateView {
    TextPredicateView {
        remaining: Some(
            match t.remaining {
                Some(prev) => and_view(demand, prev),
                None => demand,
            },
        ),
        ..t
    }
}

/// The text predicate of an expression: the expression itself if it is a text
/// search; of a conjunction, that of its left side if it has one, else that of
/// its right side, with the other side among what remains.
pub open spec fn text_predicate(e: ExprView) -> Option<TextPredicateView>
    decreases e,
{
    if text_atom(e) is Some {
        text_atom(e)
    } else {
        match e {
            ExprView::Binary { left, op, right } => if op == BinaryOp::And {
                match (text_predicate(*left), text_predicate(*right)) {
                    (Some(t), _) => Some(also_after(t, *right)),
                    (None, Some(t)) => Some(also_before(t, *left)),
                    (None, None) => None,
                }
            } else {
                None
            },
            _ => None,
        }
    }
}

impl<S: GraphStoreSearch + ?Sized, E: QueryEngine> Planner<S, E> {
    /// The predicate of a text function, from its arguments and the expression that
    /// its score is compared with.
    pub fn try_extract_text_fn(
        &self,
        args: &[LogicalExpression],
        threshold_expr: &LogicalExpression,
    ) -> (r: Option<ExtractedTextPredicate>)
        ensures
            opt_view(r) == text_call(
                Seq::new(args@.len(), |i: int| args@[i]@),
                threshold_expr@,
            ),
    {
        if args.len() != 2 {
            return None;
        }
        let (variable, property) = match &args[0] {
            LogicalExpression::Property { variable, property } => (variable, property),
            _ => return None,
        };
        let threshold = match threshold_expr {
            LogicalExpression::Literal(Value::Float64(x)) => Threshold::Float64(*x),
            LogicalExpression::Literal(Value::Int64(n)) => Threshold::Int64(*n),
            _ => return None,
        };
        Some(
            ExtractedTextPredicate {
                property: property.clone(),
                variable: variable.clone(),
                query_expr: args[1].clone(),
                threshold,
                remaining: None,
            },
        )
    }

    /// Finds a text predicate in an expression, a conjunction of several included.
    pub fn extract_text_predicate(&self, expr: &LogicalExpression) -> (r: Option<
        ExtractedTextPredicate,
    >)
        ensures
            opt_view(r) == text_predicate(expr@),
        decreases expr,
    {
        match expr {
            LogicalExpression::Binary { left, op, right } => {
                // text_score(n.prop, "query") > threshold
                if let LogicalExpression::FunctionCall { name, args, .. } = &**left {
                    assert(expr_args(**left) =~= Seq::new(args@.len(), |i: int| args@[i]@));
                    if *name == "text_score".to_owned() && (*op == BinaryOp::Gt || *op
                        == BinaryOp::Ge) {
                        let extracted = self.try_extract_text_fn(args.as_slice(), &**right);
                        if extracted.is_some() {
                            return extracted;
                        }
                    }
                }
                if *op == BinaryOp::And {
                    // Try left as text, right as remaining.
                    if let Some(extracted) = self.extract_text_predicate(&**left) {
                        let demand = (**right).clone();
                        let remaining = match extracted.remaining {
                            Some(prev) => and_expr(prev, demand),
                            None => demand,
                        };
                        return Some(
                            ExtractedTextPredicate { remaining: Some(remaining), ..extracted },
                        );
                    }
                    // Try right as text, left as remaining.
                    if let Some(extracted) = self.extract_text_predicate(&**right) {
                        let demand = (**left).clone();
                        let remaining = match extracted.remaining {
                            Some(prev) => and_expr(demand, prev),
                            None => demand,
                        };
                        return Some(
                            ExtractedTextPredicate { remaining: Some(remaining), ..extracted },
                        );
                    }
                }
                None
            },
            // text_match(n.prop, "query"), which stands alone
            LogicalExpression::FunctionCall { name, args, .. } => {
                assert(expr_args(*expr) =~= Seq::new(args@.len(), |i: int| args@[i]@));
                if *name == "text_match".to_owned() {
                    let zero = LogicalExpression::Literal(Value::Float64(FloatBits(0)));
                    self.try_extract_text_fn(args.as_slice(), &zero)
                } else {
                    None
                }
            },
            _ => None,
        }
    }
}

/// The models of the arguments of a call.
spec fn expr_args(e: LogicalExpression) -> Seq<ExprView> {
    e@->FunctionCall_args
}

} // verus!
