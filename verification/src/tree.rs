use vstd::prelude::*;

verus! {

/// Stable identifier of a node: its position in the tree's node list.
/// Equality-comparable; never interpreted arithmetically by callers.
#[derive(Clone, Copy, PartialEq, Eq, Structural, Debug)]
pub struct NodeId(pub usize);

/// A named entry of the dependency tree.
#[derive(Debug)]
pub struct Node {
    pub name: String,
}

/// The dependency tree as this core sees it: an indexable collection of
/// named nodes in a fixed storage order. Structure (children, depth) is
/// owned by the tree-widget collaborator and never read here.
#[derive(Debug)]
pub struct DependencyTree {
    pub nodes: Vec<Node>,
}

impl View for Node {
    type V = Seq<char>;

    open spec fn view(&self) -> Seq<char> {
        self.name@
    }
}

impl View for DependencyTree {
    type V = Seq<Seq<char>>;

    open spec fn view(&self) -> Seq<Seq<char>> {
        self.nodes@.map(|i: int, n: Node| n.name@)
    }
}

} // verus!
