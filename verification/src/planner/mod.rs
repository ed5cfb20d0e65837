//! Planning of filters that search: text and vector predicates become index
//! scans.

pub mod alike;
pub mod expression;
pub mod filter_laws;
pub mod hybrid;
pub mod laws;
pub mod operator;
pub mod plan_laws;
pub mod row_laws;
pub mod rows;
pub mod scan_laws;
pub mod search_laws;
pub mod tables;
pub mod text_filter;
pub mod text_predicate;

pub use expression::{BinaryOp, LogicalExpression};
pub use operator::{
    ExpressionPredicate, ExtractedVectorPredicate, FilterOp, LogicalOperator, NodeScanOp,
    PhysicalJoinType, PhysicalOperator, ProjectExpr, PushdownHint, QueryEngine, TextScanOp,
    VectorMetric, VectorScanOp,
};
pub use text_filter::Planner;
pub use text_predicate::{ExtractedTextPredicate, Threshold};
