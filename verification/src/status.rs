//! The three-valued outcome of evaluating a node.

use vstd::prelude::*;

verus! {

/// Outcome of evaluating one node of the tree during a tick.
#[derive(Clone, Copy, Debug, PartialEq, Eq, Structural)]
pub enum Status {
    /// The node finished and achieved what it stands for.
    Success,
    /// The node finished without achieving it.
    Failure,
    /// The node needs further ticks; it is attempted again on the next one.
    Running,
}

} // verus!
