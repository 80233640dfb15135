//! The lifecycle marker attached to every action.

use vstd::prelude::*;

verus! {

/// Lifecycle state of a single action.
///
/// `execute` is a no-op when the state is already `Completed`; `revert` is a
/// no-op when the state is already `Uncompleted`. `Progress` marks work that
/// was started but has not (yet) finished, so an interrupted run can be told
/// apart from a fresh or a finished one.
#[derive(Clone, Copy, Debug, PartialEq, Eq, Structural)]
pub enum ActionState {
    /// Never executed, or fully reverted back to baseline.
    Uncompleted,
    /// Execution or reversion is underway.
    Progress,
    /// Execution finished successfully; the action is reversible.
    Completed,
}

} // verus!
