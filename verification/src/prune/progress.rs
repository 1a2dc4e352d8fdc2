//! Whether a run, or one segment of it, reached its target.

use vstd::prelude::*;

verus! {

/// Outcome of pruning work: either the target was reached, or more work is left
/// for a later run.
#[derive(Clone, Copy, Debug, PartialEq, Eq, Structural)]
pub enum PruneProgress {
    /// More data is left below the target; a later run continues.
    Partial,
    /// The target was reached.
    Finished,
}

impl PruneProgress {
    /// The progress that a `done` flag stands for.
    pub open spec fn spec_from_done(done: bool) -> Self {
        if done {
            PruneProgress::Finished
        } else {
            PruneProgress::Partial
        }
    }

    /// Turns a `done` flag into a progress value.
    pub fn from_done(done: bool) -> (progress: Self)
        ensures
            progress == Self::spec_from_done(done),
    {
        if done {
            PruneProgress::Finished
        } else {
            PruneProgress::Partial
        }
    }

    /// Whether the target was reached.
    pub open spec fn spec_is_finished(self) -> bool {
        self == PruneProgress::Finished
    }

    /// Whether the target was reached.
    pub fn is_finished(&self) -> (finished: bool)
        ensures
            finished == self.spec_is_finished(),
    {
        match self {
            PruneProgress::Finished => true,
            PruneProgress::Partial => false,
        }
    }
}

} // verus!
