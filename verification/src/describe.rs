//! The read-only projection of an action's pending effect.

use vstd::prelude::*;

verus! {

/// A human-readable summary of what applying or reverting an action will do,
/// with zero or more explanatory detail lines. Producing one has no side
/// effect: it describes pending work, never an execution result.
#[derive(Debug, PartialEq, Eq)]
pub struct ActionDescription {
    pub description: String,
    pub explanation: Vec<String>,
}

impl ActionDescription {
    pub fn new(description: String, explanation: Vec<String>) -> (r: ActionDescription)
        ensures
            r == (ActionDescription { description, explanation }),
    {
        ActionDescription { description, explanation }
    }
}

} // verus!
