//! The expressions of a filter.

use vstd::prelude::*;

use crate::types::{Value, ValueView};

verus! {

/// A binary operator.
#[derive(Clone, Copy, Debug, PartialEq, Eq, Structural)]
pub enum BinaryOp {
    /// Equal.
    Eq,
    /// Not equal.
    Ne,
    /// Less.
    Lt,
    /// Less or equal.
    Le,
    /// Greater.
    Gt,
    /// Greater or equal.
    Ge,
    /// Both hold.
    And,
    /// One of the two holds.
    Or,
    /// Any other operator, by a number that whoever built the expression
    /// resolves.
    Other(u64),
}

/// An expression.
#[derive(Debug)]
pub enum LogicalExpression {
    /// A literal.
    Literal(Value),
    /// A variable.
    Variable(String),
    /// A property of a variable, such as `n.body`.
    Property {
        /// The variable.
        variable: String,
        /// The property.
        property: String,
    },
    /// A binary operation.
    Binary {
        /// The left operand.
        left: Box<LogicalExpression>,
        /// The operator.
        op: BinaryOp,
        /// The right operand.
        right: Box<LogicalExpression>,
    },
    /// A function call.
    FunctionCall {
        /// The function.
        name: String,
        /// The arguments.
        args: Vec<LogicalExpression>,
        /// Whether the call was written with `DISTINCT`.
        distinct: bool,
    },
    /// A list.
    List(Vec<LogicalExpression>),
    /// An expression of any other kind, by a number that whoever built the
    /// expression resolves.
    Other(u64),
}

/// The model of a [`LogicalExpression`].
pub enum ExprView {
    Literal(ValueView),
    Variable(Seq<char>),
    Property { variable: Seq<char>, property: Seq<char> },
    Binary { left: Box<ExprView>, op: BinaryOp, right: Box<ExprView> },
    FunctionCall { name: Seq<char>, args: Seq<ExprView>, distinct: bool },
    List(Seq<ExprView>),
    Other(u64),
}

/// The model of an expression.
pub open spec fn expr_view(e: LogicalExpression) -> ExprView
    decreases e,
{
    match e {
        LogicalExpression::Literal(v) => ExprView::Literal(v@),
        LogicalExpression::Variable(s) => ExprView::Variable(s@),
        LogicalExpression::Property { variable, property } => ExprView::Property {
            variable: variable@,
            property: property@,
        },
        LogicalExpression::Binary { left, op, right } => ExprView::Binary {
            left: Box::new(expr_view(*left)),
            op,
            right: Box::new(expr_view(*right)),
        },
        LogicalExpression::FunctionCall { name, args, distinct } => ExprView::FunctionCall {
            name: name@,
            args: Seq::new(
                args@.len(),
                |i: int|
                    if 0 <= i < args@.len() {
                        expr_view(args@[i])
                    } else {
                        arbitrary()
                    },
            ),
            distinct,
        },
        LogicalExpression::List(items) => ExprView::List(
            Seq::new(
                items@.len(),
                |i: int|
                    if 0 <= i < items@.len() {
                        expr_view(items@[i])
                    } else {
                        arbitrary()
                    },
            ),
        ),
        LogicalExpression::Other(h) => ExprView::Other(h),
    }
}

impl View for LogicalExpression {
    type V = ExprView;

    open spec fn view(&self) -> ExprView {
        expr_view(*self)
    }
}

/// The conjunction of two expressions.
pub open spec fn and_view(left: ExprView, right: ExprView) -> ExprView {
    ExprView::Binary { left: Box::new(left), op: BinaryOp::And, right: Box::new(right) }
}

/// The conjunction of two expressions.
pub fn and_expr(left: LogicalExpression, right: LogicalExpression) -> (r: LogicalExpression)
    ensures
        r@ == and_view(left@, right@),
{
    LogicalExpression::Binary { left: Box::new(left), op: BinaryOp::And, right: Box::new(right) }
}

impl Clone for LogicalExpression {
    fn clone(&self) -> (r: Self)
        ensures
            r@ == self@,
        decreases self,
    {
        match self {
            LogicalExpression::Literal(v) => LogicalExpression::Literal(v.clone()),
            LogicalExpression::Variable(s) => LogicalExpression::Variable(s.clone()),
            LogicalExpression::Property { variable, property } => LogicalExpression::Property {
                variable: variable.clone(),
                property: property.clone(),
            },
            LogicalExpression::Binary { left, op, right } => LogicalExpression::Binary {
                left: Box::new((**left).clone()),
                op: *op,
                right: Box::new((**right).clone()),
            },
            LogicalExpression::FunctionCall { name, args, distinct } => {
                let mut copies: Vec<LogicalExpression> = Vec::new();
                let mut i: usize = 0;
                while i < args.len()
                    invariant
                        i <= args@.len(),
                        copies@.len() == i,
                        *self matches LogicalExpression::FunctionCall { args: all, .. } && all
                            == *args,
                        forall|j: int| 0 <= j < i ==> (#[trigger] copies@[j])@ == args@[j]@,
                    decreases args@.len() - i,
                {
                    copies.push(args[i].clone());
                    i += 1;
                }
                let r = LogicalExpression::FunctionCall {
                    name: name.clone(),
                    args: copies,
                    distinct: *distinct,
                };
                assert(r@->FunctionCall_args =~= self@->FunctionCall_args);
                r
            },
            LogicalExpression::List(items) => {
                let mut copies: Vec<LogicalExpression> = Vec::new();
                let mut i: usize = 0;
                while i < items.len()
                    invariant
                        i <= items@.len(),
                        copies@.len() == i,
                        *self matches LogicalExpression::List(all) && all == *items,
                        forall|j: int| 0 <= j < i ==> (#[trigger] copies@[j])@ == items@[j]@,
                    decreases items@.len() - i,
                {
                    copies.push(items[i].clone());
                    i += 1;
                }
                let r = LogicalExpression::List(copies);
                assert(r@->List_0 =~= self@->List_0);
                r
            },
            LogicalExpression::Other(h) => LogicalExpression::Other(*h),
        }
    }
}

} // verus!
