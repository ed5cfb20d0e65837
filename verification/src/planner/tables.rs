//! What is in the rows that a plan gives.
//!
//! A plan is read as the table that it stands for. Its rows are given in some
//! order, which no statement here depends on; but each row stands in the table as
//! often as the plan gives it.

use vstd::prelude::*;

use super::operator::{PhysicalJoinType, PhysicalOperator, ProjectExpr, QueryEngine};
use crate::graph::GraphStoreSearch;
use crate::seqs::{
    flat, lemma_concat_contains, lemma_filter_contains, lemma_filter_distinct, lemma_flat,
};
use crate::types::{FloatBits, NodeId};

verus! {

/// What stands in one column of one row.
pub enum Cell {
    /// Nothing.
    Null,
    /// A node.
    Node(NodeId),
    /// A score.
    Score(FloatBits),
}

/// One row.
pub type Row = Seq<Cell>;

/// The rows of a plan, with the number of their columns.
pub struct Table {
    pub width: nat,
    pub rows: Seq<Row>,
}

/// A row of nothing.
pub open spec fn nulls(width: nat) -> Row {
    Seq::new(width, |i: int| Cell::Null)
}

/// Whether two rows have the same key. A key that is partly null is the same as
/// no other.
pub open spec fn same_key(l: Row, probe_keys: Seq<usize>, r: Row, build_keys: Seq<usize>) -> bool {
    &&& probe_keys.len() == build_keys.len()
    &&& forall|k: int|
        0 <= k < probe_keys.len() ==> l[#[trigger] probe_keys[k] as int] == r[build_keys[k] as int]
            && l[probe_keys[k] as int] != Cell::Null
}

/// The rows that a join makes of one row of its left side.
pub open spec fn partnered(
    l: Row,
    right: Table,
    probe_keys: Seq<usize>,
    build_keys: Seq<usize>,
    join_type: PhysicalJoinType,
) -> Seq<Row> {
    let partners = right.rows.filter(|r: Row| same_key(l, probe_keys, r, build_keys));
    if join_type == PhysicalJoinType::Full && partners.len() == 0 {
        seq![l + nulls(right.width)]
    } else {
        partners.map_values(|r: Row| l + r)
    }
}

/// Whether a row of the right side has a partner on the left.
pub open spec fn has_partner(
    r: Row,
    left: Table,
    probe_keys: Seq<usize>,
    build_keys: Seq<usize>,
) -> bool {
    exists|l: Row| #[trigger] left.rows.contains(l) && same_key(l, probe_keys, r, build_keys)
}

/// The join of two tables. An inner join gives each pair of rows with the same
/// key; a full join also gives the rows of each side that have no partner, with
/// nothing in the columns of the other side.
pub open spec fn join_tables(
    left: Table,
    right: Table,
    probe_keys: Seq<usize>,
    build_keys: Seq<usize>,
    join_type: PhysicalJoinType,
) -> Table {
    let from_left = flat(
        left.rows,
        |l: Row| partnered(l, right, probe_keys, build_keys, join_type),
    );
    let alone = right.rows.filter(|r: Row| !has_partner(r, left, probe_keys, build_keys)).map_values(
        |r: Row| nulls(left.width) + r,
    );
    Table {
        width: left.width + right.width,
        rows: match join_type {
            PhysicalJoinType::Inner => from_left,
            PhysicalJoinType::Full => from_left + alone,
        },
    }
}

/// What an output column is, on one row.
pub open spec fn project_cell(expr: ProjectExpr, row: Row) -> Cell {
    match expr {
        ProjectExpr::Column(c) => row[c as int],
        ProjectExpr::Coalesce { first, second } => if row[first as int] == Cell::Null {
            row[second as int]
        } else {
            row[first as int]
        },
    }
}

/// The output columns, on one row.
pub open spec fn project_row(exprs: Seq<ProjectExpr>, row: Row) -> Row {
    exprs.map_values(|expr: ProjectExpr| project_cell(expr, row))
}

/// The table that a plan stands for, where `scan` gives the tables of the engine's
/// operators, and `means` tells whether a row, with the columns of the variables,
/// meets an expression of the engine.
pub open spec fn table<S: GraphStoreSearch + ?Sized, E: QueryEngine>(
    op: PhysicalOperator<S, E>,
    scan: spec_fn(E::Operator) -> Table,
    means: spec_fn(E::Expression, Map<Seq<char>, usize>, Row) -> bool,
) -> Table
    decreases op,
{
    match op {
        PhysicalOperator::Planned(planned) => scan(planned),
        PhysicalOperator::Filter { input, predicate } => {
            let from = table(*input, scan, means);
            Table {
                width: from.width,
                rows: from.rows.filter(
                    |row: Row| means(predicate.expression, predicate.variable_columns@, row),
                ),
            }
        },
        PhysicalOperator::HashJoin { left, right, probe_keys, build_keys, join_type, .. } =>
            join_tables(
            table(*left, scan, means),
            table(*right, scan, means),
            probe_keys@,
            build_keys@,
            join_type,
        ),
        PhysicalOperator::Project { input, exprs, .. } => Table {
            width: exprs@.len(),
            rows: table(*input, scan, means).rows.map_values(
                |row: Row| project_row(exprs@, row),
            ),
        },
    }
}

/// Whether some rows are the rows of the nodes that were found: one for each, and
/// no others.
pub open spec fn lists(
    rows: Seq<Row>,
    found: spec_fn(NodeId) -> bool,
    row_of: spec_fn(NodeId) -> Row,
) -> bool {
    &&& rows.no_duplicates()
    &&& forall|row: Row| #[trigger]
        rows.contains(row) <==> exists|n: NodeId| #[trigger] found(n) && row == row_of(n)
}

/// In a list of the rows of nodes, where the row of a node starts with it, each row
/// starts with a node and no two with the same one.
pub proof fn law_each_node_has_one_row(
    rows: Seq<Row>,
    found: spec_fn(NodeId) -> bool,
    row_of: spec_fn(NodeId) -> Row,
)
    requires
        lists(rows, found, row_of),
        forall|n: NodeId| #[trigger]
            found(n) ==> row_of(n).len() > 0 && row_of(n)[0] == Cell::Node(n),
    ensures
        forall|i: int| 0 <= i < rows.len() ==> (#[trigger] rows[i])[0] is Node,
        forall|i: int, j: int|
            0 <= i < j < rows.len() ==> (#[trigger] rows[i])[0] != (#[trigger] rows[j])[0],
        forall|n: NodeId| #[trigger] found(n) ==> rows.contains(row_of(n)),
{
    assert forall|i: int| 0 <= i < rows.len() implies exists|n: NodeId| #[trigger]
        found(n) && #[trigger] rows[i] == row_of(n) by {
        assert(rows.contains(rows[i]));
    }
    assert forall|n: NodeId| #[trigger] found(n) implies rows.contains(row_of(n)) by {}
}

/// The row of a node with its score.
pub open spec fn scored(score: spec_fn(NodeId) -> FloatBits) -> spec_fn(NodeId) -> Row {
    |n: NodeId| seq![Cell::Node(n), Cell::Score(score(n))]
}

/// The rows of the same nodes, described in another way.
pub proof fn lemma_lists_same(
    rows: Seq<Row>,
    found: spec_fn(NodeId) -> bool,
    row_of: spec_fn(NodeId) -> Row,
    found2: spec_fn(NodeId) -> bool,
    row_of2: spec_fn(NodeId) -> Row,
)
    requires
        lists(rows, found, row_of),
        forall|n: NodeId| #[trigger] found(n) == found2(n),
        forall|n: NodeId| found(n) ==> #[trigger] row_of(n) == row_of2(n),
    ensures
        lists(rows, found2, row_of2),
{
    assert forall|row: Row| #[trigger] rows.contains(row) <==> exists|n: NodeId| #[trigger]
        found2(n) && row == row_of2(n) by {
        if rows.contains(row) {
            let n = choose|n: NodeId| #[trigger] found(n) && row == row_of(n);
            assert(found2(n) && row == row_of2(n));
        }
        if exists|n: NodeId| #[trigger] found2(n) && row == row_of2(n) {
            let n = choose|n: NodeId| #[trigger] found2(n) && row == row_of2(n);
            assert(found(n) && row == row_of(n));
        }
    }
}

/// A filter keeps the rows of the nodes that pass it.
pub proof fn lemma_lists_filter(
    rows: Seq<Row>,
    found: spec_fn(NodeId) -> bool,
    row_of: spec_fn(NodeId) -> Row,
    keep: spec_fn(Row) -> bool,
    kept: spec_fn(NodeId) -> bool,
)
    requires
        lists(rows, found, row_of),
        forall|n: NodeId| #[trigger] kept(n) == (found(n) && keep(row_of(n))),
    ensures
        lists(rows.filter(keep), kept, row_of),
{
    lemma_filter_contains(rows, keep);
    lemma_filter_distinct(rows, keep);
    assert forall|row: Row| #[trigger] rows.filter(keep).contains(row) <==> exists|n: NodeId|
        #[trigger] kept(n) && row == row_of(n) by {
        if rows.contains(row) && keep(row) {
            let n = choose|n: NodeId| #[trigger] found(n) && row == row_of(n);
            assert(kept(n));
        }
        if exists|n: NodeId| #[trigger] kept(n) && row == row_of(n) {
            let n = choose|n: NodeId| #[trigger] kept(n) && row == row_of(n);
            assert(found(n));
            assert(rows.contains(row));
        }
    }
}

/// A mapping of rows that keeps nodes apart gives one row for each node.
pub proof fn lemma_lists_map(
    rows: Seq<Row>,
    found: spec_fn(NodeId) -> bool,
    row_of: spec_fn(NodeId) -> Row,
    f: spec_fn(Row) -> Row,
    row_of2: spec_fn(NodeId) -> Row,
)
    requires
        lists(rows, found, row_of),
        forall|n: NodeId| #[trigger] found(n) ==> f(row_of(n)) == row_of2(n),
        forall|n: NodeId, m: NodeId|
            found(n) && found(m) && #[trigger] row_of2(n) == #[trigger] row_of2(m) ==> n == m,
    ensures
        lists(rows.map_values(f), found, row_of2),
{
    let out = rows.map_values(f);
    assert forall|i: int, j: int| 0 <= i < out.len() && 0 <= j < out.len() && i != j implies out[i]
        != out[j] by {
        assert(rows.contains(rows[i]));
        assert(rows.contains(rows[j]));
        let n = choose|n: NodeId| #[trigger] found(n) && rows[i] == row_of(n);
        let m = choose|m: NodeId| #[trigger] found(m) && rows[j] == row_of(m);
        assert(out[i] == row_of2(n));
        assert(out[j] == row_of2(m));
    }
    assert forall|row: Row| #[trigger] out.contains(row) <==> exists|n: NodeId| #[trigger]
        found(n) && row == row_of2(n) by {
        if out.contains(row) {
            let i = choose|i: int| 0 <= i < out.len() && out[i] == row;
            assert(rows.contains(rows[i]));
            let n = choose|n: NodeId| #[trigger] found(n) && rows[i] == row_of(n);
            assert(row == row_of2(n));
        }
        if exists|n: NodeId| #[trigger] found(n) && row == row_of2(n) {
            let n = choose|n: NodeId| #[trigger] found(n) && row == row_of2(n);
            assert(rows.contains(row_of(n)));
            let i = choose|i: int| 0 <= i < rows.len() && rows[i] == row_of(n);
            assert(out[i] == row);
        }
    }
}

/// Two lists of rows without a common row, one after the other.
proof fn lemma_lists_concat(
    a: Seq<Row>,
    found_a: spec_fn(NodeId) -> bool,
    row_a: spec_fn(NodeId) -> Row,
    b: Seq<Row>,
    found_b: spec_fn(NodeId) -> bool,
    row_b: spec_fn(NodeId) -> Row,
    found: spec_fn(NodeId) -> bool,
    row_of: spec_fn(NodeId) -> Row,
)
    requires
        lists(a, found_a, row_a),
        lists(b, found_b, row_b),
        forall|n: NodeId| #[trigger] found(n) == (found_a(n) || found_b(n)),
        forall|n: NodeId| #[trigger] found_a(n) ==> !found_b(n) && row_of(n) == row_a(n),
        forall|n: NodeId| #[trigger] found_b(n) ==> row_of(n) == row_b(n),
        forall|n: NodeId, m: NodeId|
            found_a(n) && found_b(m) ==> #[trigger] row_a(n) != #[trigger] row_b(m),
    ensures
        lists(a + b, found, row_of),
{
    assert forall|i: int, j: int| 0 <= i < a.len() && 0 <= j < b.len() implies a[i] != b[j] by {
        assert(a.contains(a[i]));
        assert(b.contains(b[j]));
        let n = choose|n: NodeId| #[trigger] found_a(n) && a[i] == row_a(n);
        let m = choose|m: NodeId| #[trigger] found_b(m) && b[j] == row_b(m);
        assert(row_a(n) != row_b(m));
    }
    assert forall|row: Row| #[trigger] (a + b).contains(row) <==> exists|n: NodeId| #[trigger]
        found(n) && row == row_of(n) by {
        lemma_concat_contains(a, b, row);
        if a.contains(row) {
            let n = choose|n: NodeId| #[trigger] found_a(n) && row == row_a(n);
            assert(found(n));
        }
        if b.contains(row) {
            let n = choose|n: NodeId| #[trigger] found_b(n) && row == row_b(n);
            assert(found(n));
        }
        if exists|n: NodeId| #[trigger] found(n) && row == row_of(n) {
            let n = choose|n: NodeId| #[trigger] found(n) && row == row_of(n);
            if found_a(n) {
                assert(a.contains(row_a(n)));
            } else {
                assert(b.contains(row_b(n)));
            }
        }
    }
}

/// Whether the row of each node starts with the node.
pub open spec fn keyed(row_of: spec_fn(NodeId) -> Row) -> bool {
    forall|n: NodeId| (#[trigger] row_of(n)).len() > 0 && row_of(n)[0] == Cell::Node(n)
}

/// On rows that start with their node, the same key is the same node.
proof fn lemma_same_key(l: Row, n: NodeId, r: Row, m: NodeId, keys: Seq<usize>)
    requires
        keys == seq![0usize],
        l.len() > 0 && l[0] == Cell::Node(n),
        r.len() > 0 && r[0] == Cell::Node(m),
    ensures
        same_key(l, keys, r, keys) <==> n == m,
{
    assert(keys[0] == 0);
}

/// The partner of a node's row is the row of the same node, if there is one.
proof fn lemma_partners(
    l: Row,
    n: NodeId,
    rows: Seq<Row>,
    found: spec_fn(NodeId) -> bool,
    row_of: spec_fn(NodeId) -> Row,
    keys: Seq<usize>,
)
    requires
        keys == seq![0usize],
        l.len() > 0 && l[0] == Cell::Node(n),
        lists(rows, found, row_of),
        keyed(row_of),
    ensures
        rows.filter(|r: Row| same_key(l, keys, r, keys)) == if found(n) {
            seq![row_of(n)]
        } else {
            Seq::<Row>::empty()
        },
{
    let keep = |r: Row| same_key(l, keys, r, keys);
    let kept = rows.filter(keep);
    lemma_filter_contains(rows, keep);
    lemma_filter_distinct(rows, keep);
    assert forall|i: int| 0 <= i < kept.len() implies found(n) && #[trigger] kept[i] == row_of(
        n,
    ) by {
        assert(kept.contains(kept[i]));
        let m = choose|m: NodeId| #[trigger] found(m) && kept[i] == row_of(m);
        lemma_same_key(l, n, kept[i], m, keys);
    }
    if found(n) {
        lemma_same_key(l, n, row_of(n), n, keys);
        assert(rows.contains(row_of(n)));
        assert(kept.contains(row_of(n)));
        assert(kept.len() == 1) by {
            if kept.len() > 1 {
                assert(kept[0] == kept[1]);
            }
        }
        assert(kept =~= seq![row_of(n)]);
    } else {
        if kept.len() > 0 {
            assert(kept[0] == row_of(n));
        }
        assert(kept =~= Seq::<Row>::empty());
    }
}

/// The rows that a join makes of the rows of its left side.
proof fn lemma_from_left(
    left: Table,
    found_l: spec_fn(NodeId) -> bool,
    row_l: spec_fn(NodeId) -> Row,
    right: Table,
    found_r: spec_fn(NodeId) -> bool,
    row_r: spec_fn(NodeId) -> Row,
    keys: Seq<usize>,
    join_type: PhysicalJoinType,
    found: spec_fn(NodeId) -> bool,
    row_of: spec_fn(NodeId) -> Row,
)
    requires
        keys == seq![0usize],
        lists(left.rows, found_l, row_l),
        keyed(row_l),
        lists(right.rows, found_r, row_r),
        keyed(row_r),
        forall|n: NodeId| #[trigger]
            found(n) == (found_l(n) && (join_type == PhysicalJoinType::Full || found_r(n))),
        forall|n: NodeId| #[trigger]
            found(n) ==> row_of(n) == row_l(n) + (if found_r(n) {
                row_r(n)
            } else {
                nulls(right.width)
            }),
    ensures
        lists(
            flat(left.rows, |l: Row| partnered(l, right, keys, keys, join_type)),
            found,
            row_of,
        ),
{
    let f = |l: Row| partnered(l, right, keys, keys, join_type);
    let rows = left.rows;
    let out = flat(rows, f);
    assert forall|n: NodeId| #[trigger] found_l(n) implies f(row_l(n)) == (if found(n) {
        seq![row_of(n)]
    } else {
        Seq::<Row>::empty()
    }) by {
        lemma_partners(row_l(n), n, right.rows, found_r, row_r, keys);
        let l = row_l(n);
        if found_r(n) {
            assert(seq![row_r(n)].map_values(|r: Row| l + r) =~= seq![l + row_r(n)]);
        } else {
            assert(Seq::<Row>::empty().map_values(|r: Row| l + r) =~= Seq::<Row>::empty());
        }
    }
    assert forall|i: int| 0 <= i < rows.len() implies f(#[trigger] rows[i]).no_duplicates() by {
        assert(rows.contains(rows[i]));
        let n = choose|n: NodeId| #[trigger] found_l(n) && rows[i] == row_l(n);
        assert(f(row_l(n)).len() <= 1);
    }
    assert forall|i: int, j: int, x: Row|
        0 <= i < j < rows.len() && #[trigger] f(rows[i]).contains(x) implies !(#[trigger] f(
        rows[j],
    ).contains(x)) by {
        assert(rows.contains(rows[i]));
        assert(rows.contains(rows[j]));
        let n = choose|n: NodeId| #[trigger] found_l(n) && rows[i] == row_l(n);
        let m = choose|m: NodeId| #[trigger] found_l(m) && rows[j] == row_l(m);
        assert(found(n) && x == row_of(n));
        assert(x[0] == Cell::Node(n));
        if f(rows[j]).contains(x) {
            assert(found(m) && x == row_of(m));
            assert(x[0] == Cell::Node(m));
            assert(rows[i] == rows[j]);
        }
    }
    lemma_flat(rows, f);
    assert forall|row: Row| #[trigger] out.contains(row) <==> exists|n: NodeId| #[trigger]
        found(n) && row == row_of(n) by {
        if out.contains(row) {
            let i = choose|i: int| 0 <= i < rows.len() && #[trigger] f(rows[i]).contains(row);
            assert(rows.contains(rows[i]));
            let n = choose|n: NodeId| #[trigger] found_l(n) && rows[i] == row_l(n);
            assert(found(n) && row == row_of(n));
        }
        if exists|n: NodeId| #[trigger] found(n) && row == row_of(n) {
            let n = choose|n: NodeId| #[trigger] found(n) && row == row_of(n);
            assert(found_l(n));
            assert(rows.contains(row_l(n)));
            let i = choose|i: int| 0 <= i < rows.len() && rows[i] == row_l(n);
            assert(f(rows[i]) == seq![row]);
            assert(seq![row][0] == row);
            assert(f(rows[i]).contains(row));
        }
    }
}

/// The rows of the right side that have no partner on the left.
proof fn lemma_alone(
    left: Table,
    found_l: spec_fn(NodeId) -> bool,
    row_l: spec_fn(NodeId) -> Row,
    right: Table,
    found_r: spec_fn(NodeId) -> bool,
    row_r: spec_fn(NodeId) -> Row,
    keys: Seq<usize>,
)
    requires
        keys == seq![0usize],
        lists(left.rows, found_l, row_l),
        keyed(row_l),
        lists(right.rows, found_r, row_r),
        keyed(row_r),
    ensures
        lists(
            right.rows.filter(|r: Row| !has_partner(r, left, keys, keys)).map_values(
                |r: Row| nulls(left.width) + r,
            ),
            |n: NodeId| found_r(n) && !found_l(n),
            |n: NodeId| nulls(left.width) + row_r(n),
        ),
{
    let keep = |r: Row| !has_partner(r, left, keys, keys);
    let found = |n: NodeId| found_r(n) && !found_l(n);
    let row_of = |n: NodeId| nulls(left.width) + row_r(n);
    assert forall|n: NodeId| #[trigger] found(n) == (found_r(n) && keep(row_r(n))) by {
        if found_l(n) {
            assert(left.rows.contains(row_l(n)));
            lemma_same_key(row_l(n), n, row_r(n), n, keys);
            assert(has_partner(row_r(n), left, keys, keys));
        } else if has_partner(row_r(n), left, keys, keys) {
            let l = choose|l: Row| #[trigger]
                left.rows.contains(l) && same_key(l, keys, row_r(n), keys);
            let m = choose|m: NodeId| #[trigger] found_l(m) && l == row_l(m);
            lemma_same_key(l, m, row_r(n), n, keys);
        }
    }
    lemma_lists_filter(right.rows, found_r, row_r, keep, found);
    assert forall|n: NodeId, m: NodeId|
        found(n) && found(m) && #[trigger] row_of(n) == #[trigger] row_of(m) implies n == m by {
        assert(row_of(n)[left.width as int] == Cell::Node(n));
        assert(row_of(m)[left.width as int] == Cell::Node(m));
    }
    lemma_lists_map(
        right.rows.filter(keep),
        found,
        row_r,
        |r: Row| nulls(left.width) + r,
        row_of,
    );
}

/// The join of two tables with one row for each node has one row for each node
/// that both sides found, or either did, with nothing in the columns of a side
/// that did not find it.
pub proof fn lemma_join_lists(
    left: Table,
    found_l: spec_fn(NodeId) -> bool,
    row_l: spec_fn(NodeId) -> Row,
    right: Table,
    found_r: spec_fn(NodeId) -> bool,
    row_r: spec_fn(NodeId) -> Row,
    keys: Seq<usize>,
    join_type: PhysicalJoinType,
    found: spec_fn(NodeId) -> bool,
    row_of: spec_fn(NodeId) -> Row,
)
    requires
        keys == seq![0usize],
        left.width > 0,
        lists(left.rows, found_l, row_l),
        keyed(row_l),
        lists(right.rows, found_r, row_r),
        keyed(row_r),
        forall|n: NodeId| #[trigger]
            found(n) == match join_type {
                PhysicalJoinType::Inner => found_l(n) && found_r(n),
                PhysicalJoinType::Full => found_l(n) || found_r(n),
            },
        forall|n: NodeId| #[trigger]
            row_of(n) == (if found_l(n) {
                row_l(n)
            } else {
                nulls(left.width)
            }) + (if found_r(n) {
                row_r(n)
            } else {
                nulls(right.width)
            }),
    ensures
        lists(join_tables(left, right, keys, keys, join_type).rows, found, row_of),
{
    let from_left = flat(left.rows, |l: Row| partnered(l, right, keys, keys, join_type));
    match join_type {
        PhysicalJoinType::Inner => {
            lemma_from_left(
                left,
                found_l,
                row_l,
                right,
                found_r,
                row_r,
                keys,
                join_type,
                found,
                row_of,
            );
        },
        PhysicalJoinType::Full => {
            assert forall|n: NodeId| #[trigger] found_l(n) implies row_of(n) == row_l(n) + (
            if found_r(n) {
                row_r(n)
            } else {
                nulls(right.width)
            }) by {}
            lemma_from_left(
                left,
                found_l,
                row_l,
                right,
                found_r,
                row_r,
                keys,
                join_type,
                found_l,
                row_of,
            );
            lemma_alone(left, found_l, row_l, right, found_r, row_r, keys);
            let alone = |n: NodeId| found_r(n) && !found_l(n);
            let row_alone = |n: NodeId| nulls(left.width) + row_r(n);
            assert forall|n: NodeId, m: NodeId| found_l(n) && alone(m) implies #[trigger] row_of(n)
                != #[trigger] row_alone(m) by {
                assert(row_of(n)[0] == Cell::Node(n));
                assert(row_alone(m)[0] == Cell::Null);
            }
            lemma_lists_concat(
                from_left,
                found_l,
                row_of,
                right.rows.filter(|r: Row| !has_partner(r, left, keys, keys)).map_values(
                    |r: Row| nulls(left.width) + r,
                ),
                alone,
                row_alone,
                found,
                row_of,
            );
        },
    }
}

} // verus!
