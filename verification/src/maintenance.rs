//! Maintenance: one update command, judged by its exit status alone.

use vstd::prelude::*;

verus! {

/// How the update command ended.
#[derive(Debug, Clone, Copy, PartialEq, Eq, Structural)]
pub enum UpdateOutcome {
    /// The command exited with success.
    Applied,
    /// The command exited with a failure. The session goes on.
    Failed,
}

impl UpdateOutcome {
    /// The outcome that an exit status stands for.
    pub open spec fn of(exit_success: bool) -> UpdateOutcome {
        if exit_success {
            UpdateOutcome::Applied
        } else {
            UpdateOutcome::Failed
        }
    }

    /// Judges the update command by its exit status.
    pub fn from_exit(exit_success: bool) -> (outcome: Self)
        ensures
            outcome == UpdateOutcome::of(exit_success),
    {
        if exit_success {
            UpdateOutcome::Applied
        } else {
            UpdateOutcome::Failed
        }
    }

    /// Whether the updates were applied.
    pub fn is_applied(self) -> (applied: bool)
        ensures
            applied == (self == UpdateOutcome::Applied),
    {
        match self {
            UpdateOutcome::Applied => true,
            UpdateOutcome::Failed => false,
        }
    }
}

} // verus!
