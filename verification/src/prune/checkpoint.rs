//! Checkpoints, and what passes between the orchestrator and a segment.

use vstd::prelude::*;
use super::category::Category;

verus! {

/// Number of a block.
pub type BlockNumber = u64;

/// Durable marker of how far a category has been pruned: everything of the
/// category at or before this point is gone.
#[derive(Clone, Copy, Debug, PartialEq, Eq, Structural)]
pub struct Checkpoint {
    /// The category that the checkpoint belongs to.
    pub category: Category,
    /// Highest block that was pruned.
    pub block_number: BlockNumber,
    /// Position below the level of a block (a transaction number), where the
    /// category records one.
    pub position: Option<u64>,
}

/// What a segment is asked to do in one run.
#[derive(Clone, Copy, Debug, PartialEq, Eq, Structural)]
pub struct PruneRequest {
    /// The checkpoint that the store holds for the category, if any.
    pub previous_checkpoint: Option<Checkpoint>,
    /// Highest block that may be deleted.
    pub target_block: BlockNumber,
    /// Highest number of entries that may be deleted.
    pub delete_limit: usize,
}

/// What a segment reports after pruning.
#[derive(Clone, Copy, Debug, PartialEq, Eq, Structural)]
pub struct PruneOutcome {
    /// Number of entries that were deleted.
    pub pruned_count: usize,
    /// Whether the category reached its target; if not, a later run goes on.
    pub done: bool,
    /// The checkpoint to store, if progress was made.
    pub new_checkpoint: Option<Checkpoint>,
}

impl PruneRequest {
    /// Builds the request for a segment.
    pub fn new(
        previous_checkpoint: Option<Checkpoint>,
        target_block: BlockNumber,
        delete_limit: usize,
    ) -> (request: Self)
        ensures
            request == (PruneRequest { previous_checkpoint, target_block, delete_limit }),
    {
        PruneRequest { previous_checkpoint, target_block, delete_limit }
    }
}

impl PruneOutcome {
    /// Whether the outcome reports no checkpoint past the target of the
    /// request.
    pub open spec fn spec_within_target(self, request: PruneRequest) -> bool {
        self.new_checkpoint matches Some(checkpoint) ==> checkpoint.block_number
            <= request.target_block
    }

    /// Whether the outcome keeps to the request: no more deletions than the
    /// limit allows, and no checkpoint past the target.
    pub open spec fn spec_respects(self, request: PruneRequest) -> bool {
        &&& self.pruned_count <= request.delete_limit
        &&& self.spec_within_target(request)
    }

    /// Whether the outcome reports no checkpoint past the target of the
    /// request.
    pub fn within_target(&self, request: &PruneRequest) -> (ok: bool)
        ensures
            ok == self.spec_within_target(*request),
    {
        match self.new_checkpoint {
            Some(checkpoint) => checkpoint.block_number <= request.target_block,
            None => true,
        }
    }

    /// Whether the outcome keeps to the request: no more deletions than the
    /// limit allows, and no checkpoint past the target.
    pub fn respects(&self, request: &PruneRequest) -> (ok: bool)
        ensures
            ok == self.spec_respects(*request),
    {
        self.pruned_count <= request.delete_limit && self.within_target(request)
    }
}

} // verus!
