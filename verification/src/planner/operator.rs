//! Logical and physical operators.

use std::sync::Arc;

use vstd::hash_map::StringHashMap;
use vstd::prelude::*;

use super::expression::LogicalExpression;
use super::text_predicate::Threshold;
use crate::graph::GraphStoreSearch;
use crate::types::{EpochId, FloatBits, TransactionId};

verus! {

/// A scan of the nodes of a graph.
#[derive(Debug)]
pub struct NodeScanOp {
    /// The variable that the nodes are bound to.
    pub variable: String,
    /// The label of the nodes; none means all nodes.
    pub label: Option<String>,
    /// The operator that feeds the scan.
    pub input: Option<Box<LogicalOperator>>,
}

/// A hint that was attached to a filter, by a number that whoever attached it
/// resolves.
#[derive(Clone, Copy, Debug, PartialEq, Eq, Structural)]
pub struct PushdownHint(pub u64);

/// A filter.
#[derive(Debug)]
pub struct FilterOp {
    /// What the rows have to meet.
    pub predicate: LogicalExpression,
    /// The operator that feeds the filter.
    pub input: Box<LogicalOperator>,
    /// A hint about pushing the filter down.
    pub pushdown_hint: Option<PushdownHint>,
}

/// A scan of a text index.
#[derive(Debug)]
pub struct TextScanOp {
    /// The variable that the nodes are bound to.
    pub variable: String,
    /// The indexed property.
    pub property: String,
    /// The indexed label.
    pub label: String,
    /// The search terms.
    pub query: LogicalExpression,
    /// The number of results to stop at.
    pub k: Option<usize>,
    /// The score to reach.
    pub threshold: Option<Threshold>,
    /// The column that the score is given in.
    pub score_column: Option<String>,
}

/// A measure of the distance of vectors, by the number that the index knows it
/// under.
#[derive(Clone, Copy, Debug, PartialEq, Eq, Structural)]
pub struct VectorMetric(pub u64);

/// A scan of a vector index.
#[derive(Debug)]
pub struct VectorScanOp {
    /// The variable that the nodes are bound to.
    pub variable: String,
    /// The name of the index.
    pub index_name: Option<String>,
    /// The indexed property.
    pub property: String,
    /// The indexed label.
    pub label: Option<String>,
    /// The vector to search near.
    pub query_vector: LogicalExpression,
    /// The number of results to stop at.
    pub k: Option<usize>,
    /// The measure of distance.
    pub metric: Option<VectorMetric>,
    /// The similarity to reach.
    pub min_similarity: Option<FloatBits>,
    /// The distance not to exceed.
    pub max_distance: Option<FloatBits>,
    /// The operator that feeds the scan.
    pub input: Option<Box<LogicalOperator>>,
}

/// A vector predicate that was found in a filter expression.
#[derive(Debug)]
pub struct ExtractedVectorPredicate {
    /// The property that is searched.
    pub property: String,
    /// The variable whose property is searched.
    pub variable: String,
    /// The vector to search near.
    pub query_vector: LogicalExpression,
    /// The measure of distance.
    pub metric: VectorMetric,
    /// The similarity to reach.
    pub min_similarity: Option<FloatBits>,
    /// The distance not to exceed.
    pub max_distance: Option<FloatBits>,
    /// What else the filter demands.
    pub remaining: Option<LogicalExpression>,
}

/// An operator of a logical plan.
#[derive(Debug)]
pub enum LogicalOperator {
    /// A scan of the nodes of a graph.
    NodeScan(NodeScanOp),
    /// A filter.
    Filter(FilterOp),
    /// A scan of a text index.
    TextScan(TextScanOp),
    /// A scan of a vector index.
    VectorScan(VectorScanOp),
    /// An operator of any other kind, by a number that whoever built the plan
    /// resolves.
    Other(u64),
}

/// The parts of the query engine that planning calls.
///
/// Nothing is promised of what they return: what is proved of the planner holds
/// for every engine.
pub trait QueryEngine {
    /// A physical operator of the engine.
    type Operator;

    /// An expression in the form that the engine evaluates.
    type Expression;

    /// The columns of an operator, with their types.
    type Schema;

    /// The session that a query runs in.
    type Session: Clone;

    /// Why an operator or expression could not be planned.
    type Error;

    /// Finds a vector predicate in an expression.
    fn extract_vector_predicate(&self, expr: &LogicalExpression) -> Option<
        ExtractedVectorPredicate,
    >;

    /// Evaluates an expression to the vector that a search starts from.
    fn resolve_vector_literal(&self, expr: &LogicalExpression) -> Result<(), Self::Error>;

    /// The column in which a text search gives its score.
    fn text_score_column_name(
        &self,
        variable: &str,
        property: &str,
        query: &LogicalExpression,
    ) -> String;

    /// Plans an operator; gives it with the names of its columns.
    fn plan_operator(&self, op: &LogicalOperator) -> Result<
        (Self::Operator, Vec<String>),
        Self::Error,
    >;

    /// Turns an expression into the form that the engine evaluates.
    fn convert_expression(&self, expr: &LogicalExpression) -> Result<Self::Expression, Self::Error>;

    /// The schema of columns with these names.
    fn derive_schema_from_columns(&self, columns: &[String]) -> Self::Schema;
}

/// What a physical filter evaluates on each row.
pub struct ExpressionPredicate<S: GraphStoreSearch + ?Sized, E: QueryEngine> {
    /// The expression.
    pub expression: E::Expression,
    /// The column of each variable.
    pub variable_columns: StringHashMap<usize>,
    /// The store that properties are read from.
    pub store: Arc<S>,
    /// The epoch that is read.
    pub viewing_epoch: EpochId,
    /// The transaction that reads.
    pub transaction_id: Option<TransactionId>,
    /// The session that the query runs in.
    pub session_context: E::Session,
}

/// Which rows a join gives.
#[derive(Clone, Copy, Debug, PartialEq, Eq, Structural)]
pub enum PhysicalJoinType {
    /// Those with a partner on both sides.
    Inner,
    /// All rows of both sides.
    Full,
}

/// One column of a projection of rows.
#[derive(Clone, Copy, Debug, PartialEq, Eq, Structural)]
pub enum ProjectExpr {
    /// An input column.
    Column(usize),
    /// The first of two input columns, or the second where the first is null.
    Coalesce {
        /// The column that is preferred.
        first: usize,
        /// The column that stands in.
        second: usize,
    },
}

/// A physical plan.
pub enum PhysicalOperator<S: GraphStoreSearch + ?Sized, E: QueryEngine> {
    /// An operator that the engine planned.
    Planned(E::Operator),
    /// A filter over an operator.
    Filter {
        /// The operator that feeds the filter.
        input: Box<PhysicalOperator<S, E>>,
        /// What the rows have to meet.
        predicate: ExpressionPredicate<S, E>,
    },
    /// A hash join.
    HashJoin {
        /// The probe side.
        left: Box<PhysicalOperator<S, E>>,
        /// The build side.
        right: Box<PhysicalOperator<S, E>>,
        /// The key columns of the probe side.
        probe_keys: Vec<usize>,
        /// The key columns of the build side.
        build_keys: Vec<usize>,
        /// Which rows the join gives.
        join_type: PhysicalJoinType,
        /// The columns of both sides.
        schema: E::Schema,
    },
    /// A projection of rows.
    Project {
        /// The operator that feeds the projection.
        input: Box<PhysicalOperator<S, E>>,
        /// The output columns.
        exprs: Vec<ProjectExpr>,
        /// The schema of the output.
        schema: E::Schema,
    },
}

} // verus!
