//! The syntax tree and its traversal.
//!
//! [`nodes`] is the tree. [`converting`] is the interface of a conversion backend: one
//! hook per kind of node. [`traversal`] visits a tree with a backend, [`visitor`] offers the
//! same as a method of every node, and [`laws`] states what holds of every visit.

pub mod converting;
pub mod laws;
pub mod nodes;
pub mod traversal;
pub mod visitor;

use vstd::prelude::*;

verus! {

/// Enums used in various routines
#[derive(Debug, Clone, Copy, PartialEq, Eq, Structural)]
pub enum TreeTraversalMode {
    /// Used when emit_... is invoked before children are visited
    Enter,
    /// Used when emit_... is invoked after children are visited
    Exit,
}

#[derive(Debug, Clone, Copy, PartialEq, Eq, Structural)]
pub enum TraversalResult {
    /// Returned when the visitor should continue tree traversal
    Continue,
    /// Returned when the visitor should skip the children and exit traversal
    SkipChildren,
}

} // verus!
