//! The rows of every plan: one for each node that meets the filter, with its
//! scores.
//!
//! The rows of a filter over a full label scan are the scanned nodes that meet it.
//! An operator that feeds the label scan of a hybrid plan has no part in that plan,
//! and what it gives is not spoken of.

use vstd::prelude::*;

use super::expression::{BinaryOp, ExprView, LogicalExpression};
use super::hybrid::{
    finds_vector, is_hybrid_join, is_vector_scan, leaves_scalar, merged_columns, pairs_predicates,
};
use super::laws::{
    law_scalar_rest_is_implied, law_text_split_keeps_meaning, or_view, respects_and, respects_or,
    rest_holds, text_conjunct,
};
use super::operator::{
    ExtractedVectorPredicate, FilterOp, LogicalOperator, PhysicalOperator, ProjectExpr, QueryEngine,
};
use super::tables::{
    join_tables, lemma_join_lists, lemma_lists_filter, lemma_lists_map, lemma_lists_same,
    lists, nulls, project_row, scored, table, Cell, Row, Table,
};
use super::text_filter::{is_text_scan, labelled_scan, maps_columns, Planner};
use super::text_predicate::{text_predicate, TextPredicateView};
use crate::graph::GraphStoreSearch;
use crate::text::{opt_view, seq_view};
use crate::types::{FloatBits, NodeId};

verus! {

/// What expressions mean for one node.
pub open spec fn at(
    holds: spec_fn(NodeId, ExprView) -> bool,
    n: NodeId,
) -> spec_fn(ExprView) -> bool {
    |x: ExprView| holds(n, x)
}

/// Whether an engine converts expressions so that a row meets what comes out just
/// when the node that the variable is bound to meets the expression.
pub open spec fn converts_for_rows<E: QueryEngine>(
    engine: E,
    variable: Seq<char>,
    holds: spec_fn(NodeId, ExprView) -> bool,
    means: spec_fn(E::Expression, Map<Seq<char>, usize>, Row) -> bool,
) -> bool {
    forall|
        x: LogicalExpression,
        converted: E::Expression,
        positions: Map<Seq<char>, usize>,
        row: Row,
    |
        #![trigger call_ensures(E::convert_expression, (&engine, &x), Ok::<E::Expression, E::Error>(converted)), means(converted, positions, row)]
        call_ensures(
            E::convert_expression,
            (&engine, &x),
            Ok::<E::Expression, E::Error>(converted),
        ) && positions.contains_key(variable) && positions[variable] < row.len() ==> (
        row[positions[variable] as int] matches Cell::Node(n) ==> means(converted, positions, row)
            == holds(n, x@))
}

/// Whether a planned scan has a column for the variable and one for the score, and
/// one row for each node that it finds.
pub open spec fn scans_once<E: QueryEngine>(
    planned: (E::Operator, Vec<String>),
    variable: Seq<char>,
    found: spec_fn(NodeId) -> bool,
    score: spec_fn(NodeId) -> FloatBits,
    scan: spec_fn(E::Operator) -> Table,
) -> bool {
    &&& planned.1@.len() == 2
    &&& planned.1@[0]@ == variable
    &&& planned.1@[1]@ != variable
    &&& scan(planned.0).width == 2
    &&& lists(scan(planned.0).rows, found, scored(score))
}

/// Whether the engine's scans of a text index give each scanned node that meets
/// the text search of an expression once, with its score.
pub open spec fn text_scans_once<E: QueryEngine>(
    engine: E,
    variable: Seq<char>,
    label: Seq<char>,
    e: ExprView,
    scanned: spec_fn(NodeId) -> bool,
    holds: spec_fn(NodeId, ExprView) -> bool,
    score: spec_fn(ExprView, NodeId) -> FloatBits,
    scan: spec_fn(E::Operator) -> Table,
) -> bool {
    forall|
        t: TextPredicateView,
        column: Seq<char>,
        op: LogicalOperator,
        planned: (E::Operator, Vec<String>),
    |
        #![trigger is_text_scan(op, variable, label, t, column), call_ensures(E::plan_operator, (&engine, &op), Ok::<(E::Operator, Vec<String>), E::Error>(planned))]
        text_predicate(e) == Some(t) && is_text_scan(op, variable, label, t, column)
            && call_ensures(
            E::plan_operator,
            (&engine, &op),
            Ok::<(E::Operator, Vec<String>), E::Error>(planned),
        ) ==> scans_once::<E>(
            planned,
            variable,
            |n: NodeId| scanned(n) && holds(n, text_conjunct(e)),
            |n: NodeId| score(e, n),
            scan,
        )
}

/// Whether the engine's scans of a vector index give each scanned node that is
/// near once, with its score, and a node meets the expression just when it is near
/// and meets what the scan leaves over.
pub open spec fn vector_scans_once<E: QueryEngine>(
    engine: E,
    variable: Seq<char>,
    label: Seq<char>,
    e: LogicalExpression,
    scanned: spec_fn(NodeId) -> bool,
    holds: spec_fn(NodeId, ExprView) -> bool,
    near: spec_fn(ExprView, NodeId) -> bool,
    score: spec_fn(ExprView, NodeId) -> FloatBits,
    scan: spec_fn(E::Operator) -> Table,
) -> bool {
    forall|v: ExtractedVectorPredicate, op: LogicalOperator, planned: (E::Operator, Vec<String>)|
        #![trigger is_vector_scan(op, variable, label, v), call_ensures(E::plan_operator, (&engine, &op), Ok::<(E::Operator, Vec<String>), E::Error>(planned))]
        finds_vector(engine, e, Some(v)) && is_vector_scan(op, variable, label, v) && call_ensures(
            E::plan_operator,
            (&engine, &op),
            Ok::<(E::Operator, Vec<String>), E::Error>(planned),
        ) ==> scans_once::<E>(
            planned,
            variable,
            |n: NodeId| scanned(n) && near(e@, n),
            |n: NodeId| score(e@, n),
            scan,
        ) && forall|n: NodeId| #[trigger]
            scanned(n) ==> holds(n, e@) == (near(e@, n) && rest_holds(
                at(holds, n),
                opt_view(v.remaining),
            ))
}

/// Whether columns start with the variable and do not repeat it, and each row has
/// all of them and starts with its node.
spec fn shaped(
    columns: Seq<Seq<char>>,
    variable: Seq<char>,
    row_of: spec_fn(NodeId) -> Row,
    found: spec_fn(NodeId) -> bool,
) -> bool {
    &&& columns.len() > 0
    &&& columns[0] == variable
    &&& forall|i: int| 0 < i < columns.len() ==> #[trigger] columns[i] != variable
    &&& forall|n: NodeId| #[trigger]
        found(n) ==> row_of(n).len() == columns.len() && row_of(n)[0] == Cell::Node(n)
}

/// A filter over an operator keeps the rows of the nodes that meet the condition.
proof fn lemma_wrapped_lists<S: GraphStoreSearch + ?Sized, E: QueryEngine>(
    planner: &Planner<S, E>,
    op: PhysicalOperator<S, E>,
    columns: Seq<Seq<char>>,
    remaining: Option<ExprView>,
    wrapped: PhysicalOperator<S, E>,
    variable: Seq<char>,
    found: spec_fn(NodeId) -> bool,
    row_of: spec_fn(NodeId) -> Row,
    kept: spec_fn(NodeId) -> bool,
    holds: spec_fn(NodeId, ExprView) -> bool,
    scan: spec_fn(E::Operator) -> Table,
    means: spec_fn(E::Expression, Map<Seq<char>, usize>, Row) -> bool,
)
    requires
        planner.wraps_if_any(
            op,
            columns,
            remaining,
            Ok::<PhysicalOperator<S, E>, E::Error>(wrapped),
        ),
        converts_for_rows(planner.engine, variable, holds, means),
        shaped(columns, variable, row_of, found),
        lists(table(op, scan, means).rows, found, row_of),
        forall|n: NodeId| #[trigger]
            kept(n) == (found(n) && rest_holds(at(holds, n), remaining)),
    ensures
        table(wrapped, scan, means).width == table(op, scan, means).width,
        lists(table(wrapped, scan, means).rows, kept, row_of),
{
    let rows = table(op, scan, means).rows;
    match remaining {
        None => {
            assert forall|n: NodeId| #[trigger] found(n) == kept(n) by {}
            lemma_lists_same(rows, found, row_of, kept, row_of);
        },
        Some(condition) => {
            let (x, converted) = choose|
                x: LogicalExpression,
                converted: Result<E::Expression, E::Error>,
            |
                x@ == condition && #[trigger] call_ensures(
                    E::convert_expression,
                    (&planner.engine, &x),
                    converted,
                ) && match (converted, wrapped) {
                    (Ok(expression), PhysicalOperator::Filter { input, predicate }) => *input == op
                        && predicate.expression == expression && maps_columns(
                        predicate.variable_columns@,
                        columns,
                    ),
                    _ => false,
                };
            let expression = converted->Ok_0;
            assert(converted == Ok::<E::Expression, E::Error>(expression));
            let positions = wrapped->Filter_predicate.variable_columns@;
            assert(columns.contains(variable));
            assert(positions.contains_key(variable));
            assert(positions[variable] == 0);
            let keep = |row: Row| means(expression, positions, row);
            assert forall|n: NodeId| #[trigger] kept(n) == (found(n) && keep(row_of(n))) by {
                if found(n) {
                    let row = row_of(n);
                    assert(row[positions[variable] as int] == Cell::Node(n));
                    assert(means(expression, positions, row) == holds(n, condition));
                    assert(at(holds, n)(condition) == holds(n, condition));
                }
            }
            lemma_lists_filter(rows, found, row_of, keep, kept);
        },
    }
}

/// A finished plan keeps the rows of the nodes that meet the condition.
proof fn lemma_finished_lists<S: GraphStoreSearch + ?Sized, E: QueryEngine>(
    planner: &Planner<S, E>,
    op: PhysicalOperator<S, E>,
    op_columns: Vec<String>,
    remaining: Option<ExprView>,
    done: PhysicalOperator<S, E>,
    columns: Vec<String>,
    variable: Seq<char>,
    found: spec_fn(NodeId) -> bool,
    row_of: spec_fn(NodeId) -> Row,
    kept: spec_fn(NodeId) -> bool,
    holds: spec_fn(NodeId, ExprView) -> bool,
    scan: spec_fn(E::Operator) -> Table,
    means: spec_fn(E::Expression, Map<Seq<char>, usize>, Row) -> bool,
)
    requires
        planner.finishes(
            op,
            op_columns,
            remaining,
            Ok::<Option<(PhysicalOperator<S, E>, Vec<String>)>, E::Error>(Some((done, columns))),
        ),
        converts_for_rows(planner.engine, variable, holds, means),
        shaped(seq_view(op_columns@), variable, row_of, found),
        lists(table(op, scan, means).rows, found, row_of),
        forall|n: NodeId| #[trigger]
            kept(n) == (found(n) && rest_holds(at(holds, n), remaining)),
    ensures
        columns == op_columns,
        table(done, scan, means).width == table(op, scan, means).width,
        lists(table(done, scan, means).rows, kept, row_of),
{
    let wrapped = Ok::<PhysicalOperator<S, E>, E::Error>(done);
    assert(planner.wraps_if_any(op, seq_view(op_columns@), remaining, wrapped));
    lemma_wrapped_lists(
        planner,
        op,
        seq_view(op_columns@),
        remaining,
        done,
        variable,
        found,
        row_of,
        kept,
        holds,
        scan,
        means,
    );
}

/// The plan of a filter by a text index gives each scanned node that meets the
/// filter in one row, with its score, and no other rows; if the engine's scans
/// give each node once and it converts faithfully.
pub proof fn law_text_plan_rows<S: GraphStoreSearch + ?Sized, E: QueryEngine>(
    planner: &Planner<S, E>,
    filter: FilterOp,
    op: PhysicalOperator<S, E>,
    columns: Vec<String>,
    scanned: spec_fn(NodeId) -> bool,
    holds: spec_fn(NodeId, ExprView) -> bool,
    score: spec_fn(ExprView, NodeId) -> FloatBits,
    scan: spec_fn(E::Operator) -> Table,
    means: spec_fn(E::Expression, Map<Seq<char>, usize>, Row) -> bool,
)
    requires
        planner.plans_text_filter(
            filter,
            Ok::<Option<(PhysicalOperator<S, E>, Vec<String>)>, E::Error>(Some((op, columns))),
        ),
        forall|n: NodeId| #[trigger] respects_and(at(holds, n)),
        labelled_scan(filter) matches Some((variable, label)) ==> converts_for_rows(
            planner.engine,
            variable,
            holds,
            means,
        ) && text_scans_once(
            planner.engine,
            variable,
            label,
            filter.predicate@,
            scanned,
            holds,
            score,
            scan,
        ),
    ensures
        labelled_scan(filter) matches Some((variable, _)) && columns@.len() == 2 && columns@[0]@
            == variable,
        table(op, scan, means).width == 2,
        lists(
            table(op, scan, means).rows,
            |n: NodeId| scanned(n) && holds(n, filter.predicate@),
            scored(|n: NodeId| score(filter.predicate@, n)),
        ),
{
    let e = filter.predicate@;
    let t = text_predicate(e)->0;
    let (variable, label) = labelled_scan(filter)->0;
    let r = Ok::<Option<(PhysicalOperator<S, E>, Vec<String>)>, E::Error>(Some((op, columns)));
    let (column, scan_op, planned) = choose|
        column: Seq<char>,
        scan_op: LogicalOperator,
        planned: Result<(E::Operator, Vec<String>), E::Error>,
    |
        #![trigger is_text_scan(scan_op, variable, label, t, column), call_ensures(E::plan_operator, (&planner.engine, &scan_op), planned)]
        is_text_scan(scan_op, variable, label, t, column) && call_ensures(
            E::plan_operator,
            (&planner.engine, &scan_op),
            planned,
        ) && match planned {
            Ok((scan, scan_columns)) => planner.finishes(
                PhysicalOperator::Planned(scan),
                scan_columns,
                t.remaining,
                r,
            ),
            Err(_) => false,
        };
    let (text_scan, scan_columns) = planned->Ok_0;
    assert(planned == Ok::<(E::Operator, Vec<String>), E::Error>((text_scan, scan_columns)));
    let found = |n: NodeId| scanned(n) && holds(n, text_conjunct(e));
    let row_of = scored(|n: NodeId| score(e, n));
    let kept = |n: NodeId| scanned(n) && holds(n, e);
    assert forall|n: NodeId| #[trigger] kept(n) == (found(n) && rest_holds(
        at(holds, n),
        t.remaining,
    )) by {
        assert(respects_and(at(holds, n)));
        law_text_split_keeps_meaning(e, t, at(holds, n));
    }
    lemma_finished_lists(
        planner,
        PhysicalOperator::Planned(text_scan),
        scan_columns,
        t.remaining,
        op,
        columns,
        variable,
        found,
        row_of,
        kept,
        holds,
        scan,
        means,
    );
}

/// The row of a node that a vector and a text search may find: the node, and the
/// score of each search that found it.
pub open spec fn doubly_scored(
    found_near: spec_fn(NodeId) -> bool,
    near_score: spec_fn(NodeId) -> FloatBits,
    found_text: spec_fn(NodeId) -> bool,
    text_score: spec_fn(NodeId) -> FloatBits,
) -> spec_fn(NodeId) -> Row {
    |n: NodeId|
        seq![
            Cell::Node(n),
            if found_near(n) {
                Cell::Score(near_score(n))
            } else {
                Cell::Null
            },
            if found_text(n) {
                Cell::Score(text_score(n))
            } else {
                Cell::Null
            },
        ]
}

/// The projected join of two scored lists of nodes.
proof fn lemma_hybrid_join_lists<S: GraphStoreSearch + ?Sized, E: QueryEngine>(
    engine: E,
    left: PhysicalOperator<S, E>,
    left_cols: Seq<String>,
    found_l: spec_fn(NodeId) -> bool,
    score_l: spec_fn(NodeId) -> FloatBits,
    right: PhysicalOperator<S, E>,
    right_cols: Seq<String>,
    found_r: spec_fn(NodeId) -> bool,
    score_r: spec_fn(NodeId) -> FloatBits,
    is_or: bool,
    op: PhysicalOperator<S, E>,
    found: spec_fn(NodeId) -> bool,
    scan: spec_fn(E::Operator) -> Table,
    means: spec_fn(E::Expression, Map<Seq<char>, usize>, Row) -> bool,
)
    requires
        is_hybrid_join(engine, left, left_cols, right, right_cols, is_or, op),
        left_cols.len() == 2,
        right_cols.len() == 2,
        table(left, scan, means).width == 2,
        table(right, scan, means).width == 2,
        lists(table(left, scan, means).rows, found_l, scored(score_l)),
        lists(table(right, scan, means).rows, found_r, scored(score_r)),
        forall|n: NodeId| #[trigger]
            found(n) == if is_or {
                found_l(n) || found_r(n)
            } else {
                found_l(n) && found_r(n)
            },
    ensures
        table(op, scan, means).width == 3,
        lists(
            table(op, scan, means).rows,
            found,
            doubly_scored(found_l, score_l, found_r, score_r),
        ),
{
    let join = *op->Project_input;
    let exprs = op->Project_exprs@;
    let l = table(left, scan, means);
    let r = table(right, scan, means);
    let keys = join->HashJoin_probe_keys@;
    let join_type = join->HashJoin_join_type;
    let row_l = scored(score_l);
    let row_r = scored(score_r);
    let joined = |n: NodeId|
        (if found_l(n) {
            row_l(n)
        } else {
            nulls(2)
        }) + (if found_r(n) {
            row_r(n)
        } else {
            nulls(2)
        });
    lemma_join_lists(l, found_l, row_l, r, found_r, row_r, keys, join_type, found, joined);
    let rows = join_tables(l, r, keys, keys, join_type).rows;
    assert(table(join, scan, means).rows == rows);
    let f = |row: Row| project_row(exprs, row);
    let row_of = doubly_scored(found_l, score_l, found_r, score_r);
    assert forall|n: NodeId| #[trigger] found(n) implies f(joined(n)) == row_of(n) by {
        let row = joined(n);
        assert(exprs.len() == 3);
        assert(exprs[1] == ProjectExpr::Column(1));
        assert(exprs[2] == ProjectExpr::Column(3));
        assert(f(row) =~= row_of(n));
    }
    assert forall|n: NodeId, m: NodeId|
        found(n) && found(m) && #[trigger] row_of(n) == #[trigger] row_of(m) implies n == m by {
        assert(row_of(n)[0] == Cell::Node(n));
        assert(row_of(m)[0] == Cell::Node(m));
    }
    lemma_lists_map(rows, found, joined, f, row_of);
}

/// The filtered join of two planned scans, each filtered by what it leaves over.
proof fn lemma_joined_scans_list<S: GraphStoreSearch + ?Sized, E: QueryEngine>(
    planner: &Planner<S, E>,
    predicate: LogicalExpression,
    left: (E::Operator, Vec<String>),
    left_rest: Option<ExprView>,
    near: spec_fn(NodeId) -> bool,
    found_l: spec_fn(NodeId) -> bool,
    score_l: spec_fn(NodeId) -> FloatBits,
    right: (E::Operator, Vec<String>),
    right_rest: Option<ExprView>,
    matching: spec_fn(NodeId) -> bool,
    found_r: spec_fn(NodeId) -> bool,
    score_r: spec_fn(NodeId) -> FloatBits,
    is_or: bool,
    op: PhysicalOperator<S, E>,
    columns: Vec<String>,
    variable: Seq<char>,
    kept: spec_fn(NodeId) -> bool,
    holds: spec_fn(NodeId, ExprView) -> bool,
    scan: spec_fn(E::Operator) -> Table,
    means: spec_fn(E::Expression, Map<Seq<char>, usize>, Row) -> bool,
)
    requires
        planner.joins_scans(
            predicate,
            left.0,
            left.1,
            left_rest,
            right.0,
            right.1,
            right_rest,
            is_or,
            Ok::<Option<(PhysicalOperator<S, E>, Vec<String>)>, E::Error>(Some((op, columns))),
        ),
        converts_for_rows(planner.engine, variable, holds, means),
        scans_once::<E>(left, variable, near, score_l, scan),
        scans_once::<E>(right, variable, matching, score_r, scan),
        forall|n: NodeId| #[trigger]
            found_l(n) == (near(n) && rest_holds(at(holds, n), left_rest)),
        forall|n: NodeId| #[trigger]
            found_r(n) == (matching(n) && rest_holds(at(holds, n), right_rest)),
        forall|n: NodeId, rest: Option<ExprView>|
            #![trigger kept(n), leaves_scalar(planner.engine, predicate, rest)]
            leaves_scalar(planner.engine, predicate, rest) ==> kept(n) == ((if is_or {
                found_l(n) || found_r(n)
            } else {
                found_l(n) && found_r(n)
            }) && rest_holds(at(holds, n), rest)),
    ensures
        columns@.len() == 3,
        columns@[0]@ == variable,
        table(op, scan, means).width == 3,
        lists(
            table(op, scan, means).rows,
            kept,
            doubly_scored(found_l, score_l, found_r, score_r),
        ),
{
    let r = Ok::<Option<(PhysicalOperator<S, E>, Vec<String>)>, E::Error>(Some((op, columns)));
    let left_scan = PhysicalOperator::<S, E>::Planned(left.0);
    let right_scan = PhysicalOperator::<S, E>::Planned(right.0);
    let l = choose|l: Result<PhysicalOperator<S, E>, E::Error>| #[trigger]
        planner.wraps_if_any(left_scan, seq_view(left.1@), left_rest, l) && match l {
            Err(_) => false,
            Ok(left_op) => planner.joins_filtered_left(
                predicate,
                left_op,
                left.1,
                right.0,
                right.1,
                right_rest,
                is_or,
                r,
            ),
        };
    let left_op = l->Ok_0;
    lemma_wrapped_lists(
        planner,
        left_scan,
        seq_view(left.1@),
        left_rest,
        left_op,
        variable,
        near,
        scored(score_l),
        found_l,
        holds,
        scan,
        means,
    );
    let w = choose|w: Result<PhysicalOperator<S, E>, E::Error>| #[trigger]
        planner.wraps_if_any(right_scan, seq_view(right.1@), right_rest, w) && match w {
            Err(_) => false,
            Ok(right_op) => planner.joins_filtered(
                predicate,
                left_op,
                left.1,
                right_op,
                right.1,
                is_or,
                r,
            ),
        };
    let right_op = w->Ok_0;
    lemma_wrapped_lists(
        planner,
        right_scan,
        seq_view(right.1@),
        right_rest,
        right_op,
        variable,
        matching,
        scored(score_r),
        found_r,
        holds,
        scan,
        means,
    );
    let (join, join_columns, rest) = choose|
        join: PhysicalOperator<S, E>,
        join_columns: Vec<String>,
        rest: Option<ExprView>,
    |
        is_hybrid_join(planner.engine, left_op, left.1@, right_op, right.1@, is_or, join)
            && join_columns@ == merged_columns(left.1@, right.1@) && leaves_scalar(
            planner.engine,
            predicate,
            rest,
        ) && #[trigger] planner.finishes(join, join_columns, rest, r);
    let found = |n: NodeId|
        if is_or {
            found_l(n) || found_r(n)
        } else {
            found_l(n) && found_r(n)
        };
    lemma_hybrid_join_lists(
        planner.engine,
        left_op,
        left.1@,
        found_l,
        score_l,
        right_op,
        right.1@,
        found_r,
        score_r,
        is_or,
        join,
        found,
        scan,
        means,
    );
    let row_of = doubly_scored(found_l, score_l, found_r, score_r);
    assert(shaped(seq_view(join_columns@), variable, row_of, found)) by {
        let names = seq_view(join_columns@);
        assert(names.len() == 3);
        assert(names[0] == left.1@[0]@);
        assert(names[1] == left.1@[1]@);
        assert(names[2] == right.1@[1]@);
    }
    lemma_finished_lists(
        planner,
        join,
        join_columns,
        rest,
        op,
        columns,
        variable,
        found,
        row_of,
        kept,
        holds,
        scan,
        means,
    );
}

/// Whether the engine's index scans of a filter expression give each node once:
/// those of each side of a disjunction, or else of the whole.
pub open spec fn both_scan_once<E: QueryEngine>(
    engine: E,
    variable: Seq<char>,
    label: Seq<char>,
    e: LogicalExpression,
    scanned: spec_fn(NodeId) -> bool,
    holds: spec_fn(NodeId, ExprView) -> bool,
    near: spec_fn(ExprView, NodeId) -> bool,
    near_score: spec_fn(ExprView, NodeId) -> FloatBits,
    text_score: spec_fn(ExprView, NodeId) -> FloatBits,
    scan: spec_fn(E::Operator) -> Table,
) -> bool {
    let one = |side: LogicalExpression|
        text_scans_once(engine, variable, label, side@, scanned, holds, text_score, scan)
            && vector_scans_once(
            engine,
            variable,
            label,
            side,
            scanned,
            holds,
            near,
            near_score,
            scan,
        );
    match e {
        LogicalExpression::Binary { left, op: BinaryOp::Or, right } => one(*left) && one(*right),
        _ => one(e),
    }
}

/// Whether these are the parts of a filter expression that a vector and a text
/// search answer: the two sides of a disjunction, or else the whole.
pub open spec fn are_sides(
    e: LogicalExpression,
    vector_side: LogicalExpression,
    text_side: LogicalExpression,
) -> bool {
    match e {
        LogicalExpression::Binary { left, op: BinaryOp::Or, right } => (vector_side == *left
            && text_side == *right) || (vector_side == *right && text_side == *left),
        _ => vector_side == e && text_side == e,
    }
}

/// The plan of a filter by a vector and a text index gives each scanned node that
/// meets the filter in one row, and no other rows; if the engine's scans give each
/// node once and it converts faithfully. The row holds the node, which is never
/// null, and the two scores; a score is null just when the node does not meet the
/// side of a disjunction that it belongs to. A conjunction gives no null.
pub proof fn law_hybrid_plan_rows<S: GraphStoreSearch + ?Sized, E: QueryEngine>(
    planner: &Planner<S, E>,
    filter: FilterOp,
    op: PhysicalOperator<S, E>,
    columns: Vec<String>,
    scanned: spec_fn(NodeId) -> bool,
    holds: spec_fn(NodeId, ExprView) -> bool,
    near: spec_fn(ExprView, NodeId) -> bool,
    near_score: spec_fn(ExprView, NodeId) -> FloatBits,
    text_score: spec_fn(ExprView, NodeId) -> FloatBits,
    scan: spec_fn(E::Operator) -> Table,
    means: spec_fn(E::Expression, Map<Seq<char>, usize>, Row) -> bool,
) -> (sides: (LogicalExpression, LogicalExpression))
    requires
        planner.plans_compound_filter(
            filter,
            Ok::<Option<(PhysicalOperator<S, E>, Vec<String>)>, E::Error>(Some((op, columns))),
        ),
        forall|n: NodeId| #[trigger] respects_and(at(holds, n)),
        forall|n: NodeId| #[trigger] respects_or(at(holds, n)),
        labelled_scan(filter) matches Some((variable, label)) ==> converts_for_rows(
            planner.engine,
            variable,
            holds,
            means,
        ) && both_scan_once(
            planner.engine,
            variable,
            label,
            filter.predicate,
            scanned,
            holds,
            near,
            near_score,
            text_score,
            scan,
        ),
    ensures
        are_sides(filter.predicate, sides.0, sides.1),
        labelled_scan(filter) matches Some((variable, _)) && columns@.len() == 3 && columns@[0]@
            == variable,
        table(op, scan, means).width == 3,
        lists(
            table(op, scan, means).rows,
            |n: NodeId| scanned(n) && holds(n, filter.predicate@),
            |n: NodeId|
                seq![
                    Cell::Node(n),
                    if holds(n, sides.0@) {
                        Cell::Score(near_score(sides.0@, n))
                    } else {
                        Cell::Null
                    },
                    if holds(n, sides.1@) {
                        Cell::Score(text_score(sides.1@, n))
                    } else {
                        Cell::Null
                    },
                ],
        ),
{
    let e = filter.predicate;
    let engine = planner.engine;
    let r = Ok::<Option<(PhysicalOperator<S, E>, Vec<String>)>, E::Error>(Some((op, columns)));
    let (variable, label) = labelled_scan(filter)->0;
    let pair = choose|pair: Option<(ExtractedVectorPredicate, TextPredicateView, bool)>| #[trigger]
        pairs_predicates(engine, e, pair) && match pair {
            None => false,
            Some((v, t, is_or)) => planner.scans_both(e, variable, label, v, t, is_or, r),
        };
    let (v, t, is_or) = pair->0;
    let (vector_op, vector_planned) = choose|
        vector_op: LogicalOperator,
        planned: Result<(E::Operator, Vec<String>), E::Error>,
    |
        is_vector_scan(vector_op, variable, label, v) && #[trigger] call_ensures(
            E::plan_operator,
            (&engine, &vector_op),
            planned,
        ) && match planned {
            Err(_) => false,
            Ok((left, left_cols)) => planner.scans_text_too(
                e,
                variable,
                label,
                t,
                left,
                left_cols,
                opt_view(v.remaining),
                is_or,
                r,
            ),
        };
    let left = vector_planned->Ok_0;
    assert(vector_planned == Ok::<(E::Operator, Vec<String>), E::Error>(left));
    let (column, text_op, text_planned) = choose|
        column: Seq<char>,
        text_op: LogicalOperator,
        planned: Result<(E::Operator, Vec<String>), E::Error>,
    |
        #![trigger is_text_scan(text_op, variable, label, t, column), call_ensures(E::plan_operator, (&engine, &text_op), planned)]
        is_text_scan(text_op, variable, label, t, column) && call_ensures(
            E::plan_operator,
            (&engine, &text_op),
            planned,
        ) && match planned {
            Err(_) => false,
            Ok((right, right_cols)) => planner.joins_scans(
                e,
                left.0,
                left.1,
                opt_view(v.remaining),
                right,
                right_cols,
                t.remaining,
                is_or,
                r,
            ),
        };
    let right = text_planned->Ok_0;
    assert(text_planned == Ok::<(E::Operator, Vec<String>), E::Error>(right));
    let (vs, ts) = match e {
        LogicalExpression::Binary { left: l, op: BinaryOp::Or, right: q } => if finds_vector(
            engine,
            *l,
            Some(v),
        ) && text_predicate(q@) == Some(t) {
            (*l, *q)
        } else {
            (*q, *l)
        },
        _ => (e, e),
    };
    assert(finds_vector(engine, vs, Some(v)) && text_predicate(ts@) == Some(t));
    assert(vector_scans_once(
        engine,
        variable,
        label,
        vs,
        scanned,
        holds,
        near,
        near_score,
        scan,
    ));
    assert(text_scans_once(engine, variable, label, ts@, scanned, holds, text_score, scan));
    let is_near = |n: NodeId| scanned(n) && near(vs@, n);
    let found_l = |n: NodeId| scanned(n) && holds(n, vs@);
    let score_l = |n: NodeId| near_score(vs@, n);
    let matching = |n: NodeId| scanned(n) && holds(n, text_conjunct(ts@));
    let found_r = |n: NodeId| scanned(n) && holds(n, ts@);
    let score_r = |n: NodeId| text_score(ts@, n);
    let kept = |n: NodeId| scanned(n) && holds(n, e@);
    assert forall|n: NodeId| #[trigger] found_r(n) == (matching(n) && rest_holds(
        at(holds, n),
        t.remaining,
    )) by {
        assert(respects_and(at(holds, n)));
        law_text_split_keeps_meaning(ts@, t, at(holds, n));
    }
    assert forall|n: NodeId, rest: Option<ExprView>|
        #![trigger kept(n), leaves_scalar(engine, e, rest)]
        leaves_scalar(engine, e, rest) implies kept(n) == ((if is_or {
        found_l(n) || found_r(n)
    } else {
        found_l(n) && found_r(n)
    }) && rest_holds(at(holds, n), rest)) by {
        assert(respects_and(at(holds, n)));
        assert(respects_or(at(holds, n)));
        law_scalar_rest_is_implied(engine, e, rest, at(holds, n));
        assert(at(holds, n)(e@) == holds(n, e@));
        if is_or {
            let whole = at(holds, n);
            assert(whole(or_view(vs@, ts@)) == (whole(vs@) || whole(ts@)));
            assert(whole(or_view(ts@, vs@)) == (whole(ts@) || whole(vs@)));
        }
    }
    lemma_joined_scans_list(
        planner,
        e,
        left,
        opt_view(v.remaining),
        is_near,
        found_l,
        score_l,
        right,
        t.remaining,
        matching,
        found_r,
        score_r,
        is_or,
        op,
        columns,
        variable,
        kept,
        holds,
        scan,
        means,
    );
    let row_of = |n: NodeId|
        seq![
            Cell::Node(n),
            if holds(n, vs@) {
                Cell::Score(near_score(vs@, n))
            } else {
                Cell::Null
            },
            if holds(n, ts@) {
                Cell::Score(text_score(ts@, n))
            } else {
                Cell::Null
            },
        ];
    lemma_lists_same(
        table(op, scan, means).rows,
        kept,
        doubly_scored(found_l, score_l, found_r, score_r),
        kept,
        row_of,
    );
    (vs, ts)
}

} // verus!
