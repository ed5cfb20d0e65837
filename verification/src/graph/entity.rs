//! Nodes, edges, and the words that queries about them use.

use arcstr::ArcStr;
use vstd::prelude::*;

use crate::text::arc_text;
use crate::types::{EdgeId, NodeId, PropertyMap, ValueView};

verus! {

/// A node with its labels and properties.
#[derive(Debug)]
pub struct Node {
    /// The id.
    pub id: NodeId,
    /// The labels.
    pub labels: Vec<ArcStr>,
    /// The properties.
    pub properties: PropertyMap,
}

/// The model of a [`Node`].
pub struct NodeView {
    pub id: NodeId,
    pub labels: Seq<Seq<char>>,
    pub properties: Map<Seq<char>, ValueView>,
}

impl View for Node {
    type V = NodeView;

    open spec fn view(&self) -> NodeView {
        NodeView {
            id: self.id,
            labels: self.labels@.map_values(|l: ArcStr| arc_text(l)),
            properties: self.properties@,
        }
    }
}

/// An edge with its endpoints, type and properties.
#[derive(Debug)]
pub struct Edge {
    /// The id.
    pub id: EdgeId,
    /// The node that the edge leaves.
    pub src: NodeId,
    /// The node that the edge enters.
    pub dst: NodeId,
    /// The type.
    pub edge_type: ArcStr,
    /// The properties.
    pub properties: PropertyMap,
}

/// The model of an [`Edge`].
pub struct EdgeView {
    pub id: EdgeId,
    pub src: NodeId,
    pub dst: NodeId,
    pub edge_type: Seq<char>,
    pub properties: Map<Seq<char>, ValueView>,
}

impl View for Edge {
    type V = EdgeView;

    open spec fn view(&self) -> EdgeView {
        EdgeView {
            id: self.id,
            src: self.src,
            dst: self.dst,
            edge_type: arc_text(self.edge_type),
            properties: self.properties@,
        }
    }
}

/// Which edges of a node a traversal follows.
#[derive(Clone, Copy, Debug, PartialEq, Eq, Structural)]
pub enum Direction {
    /// Those that leave the node.
    Outgoing,
    /// Those that enter the node.
    Incoming,
    /// All of them.
    Both,
}

/// A comparison of a property with a value.
#[derive(Clone, Copy, Debug, PartialEq, Eq, Structural)]
pub enum CompareOp {
    /// Equal.
    Eq,
    /// Not equal.
    Ne,
    /// Less.
    Lt,
    /// Less or equal.
    Le,
    /// Greater.
    Gt,
    /// Greater or equal.
    Ge,
}

/// The characters of an optional shared string.
pub open spec fn opt_text(o: Option<ArcStr>) -> Option<Seq<char>> {
    match o {
        Some(s) => Some(arc_text(s)),
        None => None,
    }
}

} // verus!
