//! The deletion budget of a run.

use vstd::prelude::*;
use super::checkpoint::BlockNumber;

verus! {

/// Number of blocks that count for the budget of a run at `tip`: the advance of
/// the tip since the previous run, never below zero, 1 where no run came before,
/// and never more than `prune_max_blocks_per_run`.
pub open spec fn spec_blocks_since_last_run(
    previous_tip: Option<BlockNumber>,
    tip: BlockNumber,
    prune_max_blocks_per_run: usize,
) -> nat {
    let advance: nat = match previous_tip {
        None => 1,
        Some(previous) => if tip >= previous {
            (tip - previous) as nat
        } else {
            0
        },
    };
    if advance <= prune_max_blocks_per_run {
        advance
    } else {
        prune_max_blocks_per_run as nat
    }
}

/// Number of entries that a run at `tip` may delete: `base_delete_limit` for
/// each block that counts.
pub open spec fn spec_run_delete_limit(
    base_delete_limit: usize,
    previous_tip: Option<BlockNumber>,
    tip: BlockNumber,
    prune_max_blocks_per_run: usize,
) -> nat {
    (base_delete_limit * spec_blocks_since_last_run(previous_tip, tip, prune_max_blocks_per_run))
        as nat
}

/// Number of blocks that count for the budget of a run at `tip`. A tip below
/// the previous one, as a reorganisation of the chain may show it, counts as no
/// advance at all.
pub fn blocks_since_last_run(
    previous_tip: Option<BlockNumber>,
    tip: BlockNumber,
    prune_max_blocks_per_run: usize,
) -> (blocks: usize)
    ensures
        blocks == spec_blocks_since_last_run(previous_tip, tip, prune_max_blocks_per_run),
        blocks <= prune_max_blocks_per_run,
{
    let advance: u64 = match previous_tip {
        None => 1,
        Some(previous) => if tip >= previous {
            tip - previous
        } else {
            0
        },
    };
    if advance <= prune_max_blocks_per_run as u64 {
        advance as usize
    } else {
        prune_max_blocks_per_run
    }
}

/// Number of entries that a run at `tip` may delete. The budget has to fit the
/// machine word.
pub fn run_delete_limit(
    base_delete_limit: usize,
    previous_tip: Option<BlockNumber>,
    tip: BlockNumber,
    prune_max_blocks_per_run: usize,
) -> (limit: usize)
    requires
        spec_run_delete_limit(base_delete_limit, previous_tip, tip, prune_max_blocks_per_run)
            <= usize::MAX,
    ensures
        limit == spec_run_delete_limit(
            base_delete_limit,
            previous_tip,
            tip,
            prune_max_blocks_per_run,
        ),
{
    let blocks: usize = blocks_since_last_run(previous_tip, tip, prune_max_blocks_per_run);
    base_delete_limit * blocks
}

/// Number of entries that a run at `tip` may delete, or `None` if the number
/// does not fit the machine word.
pub fn checked_run_delete_limit(
    base_delete_limit: usize,
    previous_tip: Option<BlockNumber>,
    tip: BlockNumber,
    prune_max_blocks_per_run: usize,
) -> (limit: Option<usize>)
    ensures
        match limit {
            Some(limit) => limit == spec_run_delete_limit(
                base_delete_limit,
                previous_tip,
                tip,
                prune_max_blocks_per_run,
            ),
            None => spec_run_delete_limit(
                base_delete_limit,
                previous_tip,
                tip,
                prune_max_blocks_per_run,
            ) > usize::MAX,
        },
{
    let blocks: usize = blocks_since_last_run(previous_tip, tip, prune_max_blocks_per_run);
    base_delete_limit.checked_mul(blocks)
}

} // verus!
