//! What the pruning engine tells its listeners.

use vstd::prelude::*;
use super::checkpoint::BlockNumber;
use super::stats::RunStatistics;

verus! {

/// An event of the pruning engine.
#[derive(Clone, Debug, PartialEq, Eq)]
pub enum PrunerEvent {
    /// A run came to its end and was committed.
    Finished {
        /// The tip that the run was made for.
        tip_block_number: BlockNumber,
        /// What the run did, by category.
        stats: RunStatistics,
    },
}

impl PrunerEvent {
    /// The tip that the event speaks of.
    pub open spec fn spec_tip_block_number(self) -> BlockNumber {
        match self {
            PrunerEvent::Finished { tip_block_number, .. } => tip_block_number,
        }
    }

    /// The statistics that the event carries.
    pub open spec fn spec_stats(self) -> RunStatistics {
        match self {
            PrunerEvent::Finished { stats, .. } => stats,
        }
    }

    /// The tip that the event speaks of.
    pub fn tip_block_number(&self) -> (tip_block_number: BlockNumber)
        ensures
            tip_block_number == self.spec_tip_block_number(),
    {
        match self {
            PrunerEvent::Finished { tip_block_number, .. } => *tip_block_number,
        }
    }

    /// The statistics that the event carries.
    pub fn stats(&self) -> (stats: &RunStatistics)
        ensures
            *stats == self.spec_stats(),
    {
        match self {
            PrunerEvent::Finished { stats, .. } => stats,
        }
    }
}

} // verus!
