//! Which expressions are text searches, and what they bound.

use vstd::prelude::*;

use super::expression::{BinaryOp, ExprView, LogicalExpression};
use super::laws::{
    bare, conjuncts, is_first_text_conjunct, law_text_predicate_is_the_first_text_conjunct,
    law_text_split_keeps_meaning, respects_and, text_conjunct,
};
use super::operator::QueryEngine;
use super::text_filter::Planner;
use super::text_predicate::{
    text_atom, text_predicate, ExtractedTextPredicate, TextPredicateView, Threshold,
};
use crate::graph::GraphStoreSearch;
use crate::seqs::lemma_concat_contains;
use crate::text::seq_view;
use crate::types::{FloatBits, ValueView};

verus! {

/// A number literal.
pub open spec fn number_literal(c: Threshold) -> ExprView {
    match c {
        Threshold::Float64(x) => ExprView::Literal(ValueView::Float64(x)),
        Threshold::Int64(n) => ExprView::Literal(ValueView::Int64(n)),
    }
}

/// The arguments `variable.property, query`.
pub open spec fn text_arguments(
    variable: Seq<char>,
    property: Seq<char>,
    query: ExprView,
) -> Seq<ExprView> {
    seq![ExprView::Property { variable, property }, query]
}

/// `function(variable.property, query)`
pub open spec fn text_function(
    function: Seq<char>,
    variable: Seq<char>,
    property: Seq<char>,
    query: ExprView,
    distinct: bool,
) -> ExprView {
    ExprView::FunctionCall {
        name: function,
        args: text_arguments(variable, property, query),
        distinct,
    }
}

/// `text_score(variable.property, query) op c`
pub open spec fn score_comparison(
    variable: Seq<char>,
    property: Seq<char>,
    query: ExprView,
    distinct: bool,
    op: BinaryOp,
    c: Threshold,
) -> ExprView {
    ExprView::Binary {
        left: Box::new(text_function("text_score"@, variable, property, query, distinct)),
        op,
        right: Box::new(number_literal(c)),
    }
}

/// `text_match(variable.property, query)`
pub open spec fn match_call(
    variable: Seq<char>,
    property: Seq<char>,
    query: ExprView,
    distinct: bool,
) -> ExprView {
    text_function("text_match"@, variable, property, query, distinct)
}

/// Whether an expression is a text search: a score that is compared by `>` with a
/// number, or by `>=`, or a match, which asks for a score above zero.
pub open spec fn searches(e: ExprView, t: TextPredicateView) -> bool {
    &&& t.remaining is None
    &&& exists|distinct: bool| #[trigger]
        searches_by(e, t, distinct)
}

/// As [`searches`], by a call that is distinct or not.
pub open spec fn searches_by(e: ExprView, t: TextPredicateView, distinct: bool) -> bool {
    ||| e == score_comparison(
        t.variable,
        t.property,
        t.query_expr,
        distinct,
        BinaryOp::Gt,
        t.threshold,
    )
    ||| e == score_comparison(
        t.variable,
        t.property,
        t.query_expr,
        distinct,
        BinaryOp::Ge,
        t.threshold,
    )
    ||| e == match_call(t.variable, t.property, t.query_expr, distinct) && t.threshold
        == Threshold::Float64(FloatBits(0))
}

/// An expression that is no conjunction has a text predicate just when it is a text
/// search; the predicate has the property, the variable, the terms and the number of
/// the search, and nothing is left over.
pub proof fn law_text_predicates_are_searches(e: ExprView, t: TextPredicateView)
    requires
        !(e matches ExprView::Binary { op: BinaryOp::And, .. }),
    ensures
        text_predicate(e) == Some(t) <==> searches(e, t),
{
    if text_predicate(e) == Some(t) {
        match e {
            ExprView::Binary { left, op, right } => {
                let distinct = left->FunctionCall_distinct;
                let args = left->FunctionCall_args;
                assert(args =~= text_arguments(t.variable, t.property, t.query_expr));
                assert(*right == number_literal(t.threshold));
                assert(searches_by(e, t, distinct));
            },
            ExprView::FunctionCall { name, args, distinct } => {
                assert(args =~= text_arguments(t.variable, t.property, t.query_expr));
                assert(searches_by(e, t, distinct));
            },
            _ => {},
        }
    }
    if searches(e, t) {
        let distinct = choose|distinct: bool| #[trigger] searches_by(e, t, distinct);
        let args = text_arguments(t.variable, t.property, t.query_expr);
        assert(args.len() == 2);
        assert(text_atom(e) == Some(t));
    }
}

/// Whether the first text search among the conjuncts of an expression is at a place.
pub open spec fn first_search(e: ExprView, t: TextPredicateView, i: int) -> bool {
    &&& 0 <= i < conjuncts(e).len()
    &&& searches(conjuncts(e)[i], t)
    &&& forall|j: int, u: TextPredicateView|
        0 <= j < i ==> !(#[trigger] searches(conjuncts(e)[j], u))
}

proof fn lemma_conjuncts_are_no_conjunctions(e: ExprView, i: int)
    requires
        0 <= i < conjuncts(e).len(),
    ensures
        !(conjuncts(e)[i] matches ExprView::Binary { op: BinaryOp::And, .. }),
    decreases e,
{
    match e {
        ExprView::Binary { left, op: BinaryOp::And, right } => {
            let n = conjuncts(*left).len();
            if i < n {
                lemma_conjuncts_are_no_conjunctions(*left, i);
            } else {
                lemma_conjuncts_are_no_conjunctions(*right, i - n);
            }
        },
        _ => {},
    }
}

proof fn lemma_search_is_atom(c: ExprView, t: TextPredicateView)
    requires
        !(c matches ExprView::Binary { op: BinaryOp::And, .. }),
    ensures
        text_atom(c) == Some(t) <==> searches(c, t),
{
    law_text_predicates_are_searches(c, t);
}

/// An expression has a text predicate just when one of its conjuncts is a text
/// search. It is that of the first such conjunct, and all other conjuncts are left
/// over, in order.
pub proof fn law_text_predicate_is_of_the_first_search(e: ExprView)
    ensures
        match text_predicate(e) {
            Some(t) => exists|i: int| #[trigger]
                first_search(e, bare(t), i) && match t.remaining {
                    Some(rest) => conjuncts(rest) == conjuncts(e).remove(i),
                    None => conjuncts(e).len() == 1,
                },
            None => forall|j: int, u: TextPredicateView|
                0 <= j < conjuncts(e).len() ==> !(#[trigger] searches(conjuncts(e)[j], u)),
        },
{
    law_text_predicate_is_the_first_text_conjunct(e);
    assert forall|j: int, u: TextPredicateView|
        0 <= j < conjuncts(e).len() && text_atom(conjuncts(e)[j]) is None implies !(
    #[trigger] searches(conjuncts(e)[j], u)) by {
        lemma_conjuncts_are_no_conjunctions(e, j);
        lemma_search_is_atom(conjuncts(e)[j], u);
    }
    if let Some(t) = text_predicate(e) {
        let i = choose|i: int| is_first_text_conjunct(e, t, i);
        lemma_conjuncts_are_no_conjunctions(e, i);
        lemma_search_is_atom(conjuncts(e)[i], bare(t));
        assert(first_search(e, bare(t), i));
    }
}

/// There is one first search.
pub proof fn law_there_is_one_first_search(
    e: ExprView,
    t: TextPredicateView,
    i: int,
    u: TextPredicateView,
    j: int,
)
    requires
        first_search(e, t, i),
        first_search(e, u, j),
    ensures
        i == j,
        t == u,
{
    lemma_conjuncts_are_no_conjunctions(e, i);
    lemma_conjuncts_are_no_conjunctions(e, j);
    if i < j {
        assert(!searches(conjuncts(e)[i], t));
    }
    if j < i {
        assert(!searches(conjuncts(e)[j], u));
    }
    lemma_search_is_atom(conjuncts(e)[i], t);
    lemma_search_is_atom(conjuncts(e)[j], u);
}

/// What recognition returns: the predicate of the first text search among the
/// conjuncts, with the others left over, in order; nothing if there is no search.
pub proof fn law_recognition_returns_the_first_search<S: GraphStoreSearch + ?Sized, E: QueryEngine>(
    planner: &Planner<S, E>,
    expr: LogicalExpression,
    r: Option<ExtractedTextPredicate>,
)
    requires
        call_ensures(Planner::<S, E>::extract_text_predicate, (planner, &expr), r),
    ensures
        match r {
            Some(t) => exists|i: int| #[trigger]
                first_search(expr@, bare(t@), i) && match t@.remaining {
                    Some(rest) => conjuncts(rest) == conjuncts(expr@).remove(i),
                    None => conjuncts(expr@).len() == 1,
                },
            None => forall|j: int, u: TextPredicateView|
                0 <= j < conjuncts(expr@).len() ==> !(#[trigger] searches(conjuncts(expr@)[j], u)),
        },
{
    law_text_predicate_is_of_the_first_search(expr@);
}

/// What is made of the arguments of a text function and a number is the predicate of
/// the search with them; nothing is made of other arguments.
pub proof fn law_text_arguments_are_those_of_a_search<S: GraphStoreSearch + ?Sized, E: QueryEngine>(
    planner: &Planner<S, E>,
    args: &[LogicalExpression],
    bound: LogicalExpression,
    r: Option<ExtractedTextPredicate>,
)
    requires
        call_ensures(Planner::<S, E>::try_extract_text_fn, (planner, args, &bound), r),
    ensures
        match r {
            Some(t) => t@.remaining is None && seq_view(args@) == text_arguments(
                t@.variable,
                t@.property,
                t@.query_expr,
            ) && bound@ == number_literal(t@.threshold),
            None => forall|variable: Seq<char>, property: Seq<char>, query: ExprView, c: Threshold|
                #![trigger text_arguments(variable, property, query), number_literal(c)]
                !(seq_view(args@) == text_arguments(variable, property, query) && bound@ == number_literal(c)),
        },
{
    let views = seq_view(args@);
    assert(views =~= Seq::new(args@.len(), |i: int| args@[i]@));
    if let Some(t) = r {
        assert(views =~= text_arguments(t@.variable, t@.property, t@.query_expr));
    }
}

/// What a comparison of two numbers tells.
pub open spec fn compares(op: BinaryOp, a: int, b: int) -> bool {
    match op {
        BinaryOp::Eq => a == b,
        BinaryOp::Ne => a != b,
        BinaryOp::Lt => a < b,
        BinaryOp::Le => a <= b,
        BinaryOp::Gt => a > b,
        BinaryOp::Ge => a >= b,
        _ => false,
    }
}

/// Whether a meaning of expressions, for some node, takes the comparison of a text
/// score with a number as such, and a match as a score above zero. `score` gives the
/// scores of the node, on a scale on which `number` places the literals.
pub open spec fn compares_scores(
    holds: spec_fn(ExprView) -> bool,
    score: spec_fn(Seq<char>, Seq<char>, ExprView) -> int,
    number: spec_fn(Threshold) -> int,
) -> bool {
    &&& forall|
        variable: Seq<char>,
        property: Seq<char>,
        query: ExprView,
        distinct: bool,
        op: BinaryOp,
        c: Threshold,
    |
        op != BinaryOp::And && op != BinaryOp::Or && !(op is Other) ==> #[trigger] holds(
            score_comparison(variable, property, query, distinct, op, c),
        ) == compares(op, score(variable, property, query), number(c))
    &&& forall|variable: Seq<char>, property: Seq<char>, query: ExprView, distinct: bool|
        #[trigger] holds(match_call(variable, property, query, distinct)) == (score(
            variable,
            property,
            query,
        ) > number(Threshold::Float64(FloatBits(0))))
}

/// A text predicate bounds the score from below: a node that meets an expression
/// scores at least the threshold of the predicate that is found in it.
pub proof fn law_text_predicates_bound_the_score_from_below(
    e: ExprView,
    t: TextPredicateView,
    holds: spec_fn(ExprView) -> bool,
    score: spec_fn(Seq<char>, Seq<char>, ExprView) -> int,
    number: spec_fn(Threshold) -> int,
)
    requires
        text_predicate(e) == Some(t),
        respects_and(holds),
        compares_scores(holds, score, number),
        holds(e),
    ensures
        score(t.variable, t.property, t.query_expr) >= number(t.threshold),
{
    law_text_split_keeps_meaning(e, t, holds);
    let c = text_conjunct(e);
    lemma_text_conjunct(e);
    lemma_search_is_atom(c, bare(t));
    let distinct = choose|distinct: bool| #[trigger] searches_by(c, bare(t), distinct);
    assert(holds(c));
    assert(searches_by(c, bare(t), distinct));
}

/// A comparison of a score by another operator than `>` and `>=` is no text search.
pub proof fn law_other_comparisons_are_no_searches(
    variable: Seq<char>,
    property: Seq<char>,
    query: ExprView,
    distinct: bool,
    op: BinaryOp,
    c: Threshold,
)
    requires
        op != BinaryOp::Gt,
        op != BinaryOp::Ge,
        op != BinaryOp::And,
    ensures
        text_predicate(score_comparison(variable, property, query, distinct, op, c)) is None,
{
    let e = score_comparison(variable, property, query, distinct, op, c);
    if let Some(t) = text_predicate(e) {
        law_text_predicates_are_searches(e, t);
    }
}

/// The conjunct that a text predicate comes from is one of the conjuncts.
pub proof fn lemma_text_conjunct(e: ExprView)
    ensures
        conjuncts(e).contains(text_conjunct(e)),
        !(text_conjunct(e) matches ExprView::Binary { op: BinaryOp::And, .. }),
    decreases e,
{
    match e {
        ExprView::Binary { left, op: BinaryOp::And, right } => {
            let l = conjuncts(*left);
            let r = conjuncts(*right);
            lemma_text_conjunct(*left);
            lemma_text_conjunct(*right);
            lemma_concat_contains(l, r, text_conjunct(e));
        },
        _ => {
            assert(conjuncts(e)[0] == e);
        },
    }
}

/// The text conjunct of an expression is a search for its text predicate.
pub proof fn lemma_text_conjunct_searches(e: ExprView, t: TextPredicateView)
    requires
        text_predicate(e) == Some(t),
    ensures
        searches(text_conjunct(e), bare(t)),
{
    lemma_text_conjunct(e);
    law_text_split_keeps_meaning(e, t, |x: ExprView| false);
    lemma_search_is_atom(text_conjunct(e), bare(t));
}

} // verus!
