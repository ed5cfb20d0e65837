//! Read-only graph projections and the planning of text and vector filters,
//! with machine-checked contracts.
//!
//! - [`graph`] holds the store interface ([`graph::GraphStore`]) and the
//!   filtered view [`graph::GraphProjection`] over any store.
//! - [`planner`] recognises text and vector search predicates in a filter and
//!   turns them into index scans.

pub mod graph;
pub mod planner;
pub mod seqs;
pub mod text;
pub mod types;
pub mod value_laws;
