use vstd::prelude::*;

verus! {

/// The runtime state of one node of a widget tree (scroll position, focus,
/// and the like), with the states of its children.
///
/// The words in `state` belong to the widget that owns the node; this crate
/// never reads them.
#[derive(Debug)]
pub struct Tree {
    pub tag: u64,
    pub state: Vec<u64>,
    pub children: Vec<Tree>,
}

impl Tree {
    /// An untagged, stateless, childless node.
    pub fn empty() -> (r: Tree)
        ensures
            r.tag == 0,
            r.state@.len() == 0,
            r.children@.len() == 0,
    {
        Tree { tag: 0, state: Vec::new(), children: Vec::new() }
    }
}

/// The runtime state tree of a lazily built subtree, with a record of
/// whether it was ever reconciled against a built subtree.
///
/// The record is kept apart from the tree: an empty tree alone cannot tell
/// "never reconciled" from "reconciled with a subtree that has no state",
/// and the subtree's own widgets, which get the tree, cannot reach it.
#[derive(Debug)]
pub struct RuntimeState {
    pub tree: Tree,
    pub initialized: bool,
}

impl RuntimeState {
    /// A pristine runtime state: an empty tree, never reconciled.
    pub fn new() -> (r: RuntimeState)
        ensures
            !r.initialized,
            r.tree.tag == 0,
            r.tree.state@.len() == 0,
            r.tree.children@.len() == 0,
    {
        RuntimeState { tree: Tree::empty(), initialized: false }
    }

    /// Whether the tree was never reconciled against a subtree.
    pub fn is_pristine(&self) -> (r: bool)
        ensures
            r == !self.initialized,
    {
        !self.initialized
    }
}

} // verus!
