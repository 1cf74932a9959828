//! The architecture graph that a learner draws.
use vstd::prelude::*;

verus! {

/// A diagram: nodes and the edges between them. An edge may name a node that
/// the diagram does not hold; nothing here rejects that.
#[derive(Debug, Clone)]
pub struct Diagram {
    pub nodes: Vec<Node>,
    pub edges: Vec<Edge>,
}

/// A component placed on the canvas.
#[derive(Debug, Clone)]
pub struct Node {
    pub id: String,
    pub type_label: String,
    pub position: Position,
}

/// Where a node stands. Each coordinate is the bit pattern of an IEEE 754
/// double, which is carried and never computed with.
#[derive(Debug, Clone, Copy, PartialEq, Eq, Structural)]
pub struct Position {
    pub x: u64,
    pub y: u64,
}

/// A connection from one node to another, by their ids.
#[derive(Debug, Clone)]
pub struct Edge {
    pub source: String,
    pub target: String,
}

impl Diagram {
    /// Whether the diagram has neither nodes nor edges.
    pub open spec fn spec_is_blank(&self) -> bool {
        self.nodes@.len() == 0 && self.edges@.len() == 0
    }

    /// The diagram with nothing drawn on it.
    pub fn blank() -> (diagram: Diagram)
        ensures
            diagram.spec_is_blank(),
    {
        Diagram { nodes: Vec::new(), edges: Vec::new() }
    }
}

} // verus!
