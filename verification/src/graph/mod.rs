//! Graph stores and projections of them.

pub mod call_laws;
pub mod entity;
pub mod laws;
pub mod member_laws;
pub mod projection;
pub mod store;

pub use entity::{CompareOp, Direction, Edge, Node};
pub use projection::{GraphProjection, ProjectionSpec};
pub use store::{GraphStore, GraphStoreSearch};
