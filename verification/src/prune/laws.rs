//! Laws of the pruning engine: what holds of every policy, every tip and every
//! run, whatever the store answers.

use vstd::prelude::*;
use super::budget::{spec_blocks_since_last_run, spec_run_delete_limit};
use super::category::Category;
use super::checkpoint::{BlockNumber, Checkpoint, PruneOutcome, PruneRequest};
use super::policy::RetentionPolicy;
use super::progress::PruneProgress;
use super::pruner::{spec_archive_of, spec_is_pruning_needed, spec_no_target, spec_ran};
use super::run_state::{
    lemma_run_over_without_budget, lemma_run_over_without_targets, RunStateView,
};
use super::segment::Segment;
use super::stats::SegmentStats;
use super::store::{spec_checkpoints_in, spec_durable_checkpoint, Store};

verus! {

/// Policies never take back what they allowed: once a policy gives a target at
/// some tip, it gives a target at every later tip, and not a lower one.
pub proof fn lemma_target_block_monotonic(
    policy: RetentionPolicy,
    category: Category,
    tip: BlockNumber,
    later_tip: BlockNumber,
)
    requires
        tip <= later_tip,
        policy.spec_target_block(tip, category) matches Ok(Some(_)),
    ensures
        policy.spec_target_block(later_tip, category) matches Ok(Some(later_target))
            && policy.spec_target_block(tip, category).unwrap().unwrap() <= later_target,
{
}

/// Where the tip did not fall back since the previous run, the budget of the
/// run is the configured limit for each block of the advance, of which no more
/// than the configured maximum count.
pub proof fn lemma_successive_runs_budget(
    base_delete_limit: usize,
    prune_max_blocks_per_run: usize,
    previous_tip: BlockNumber,
    tip: BlockNumber,
)
    requires
        previous_tip <= tip,
    ensures
        spec_run_delete_limit(base_delete_limit, Some(previous_tip), tip, prune_max_blocks_per_run)
            == base_delete_limit * vstd::math::min(
            tip - previous_tip,
            prune_max_blocks_per_run as int,
        ),
{
}

/// A run without anything to do, for want of a budget or because no segment
/// has a target at the tip, leaves the state of the run as it is, and hands the
/// store no request.
pub proof fn lemma_run_over_idle(
    state: RunStateView,
    checkpoints: Map<Category, Checkpoint>,
    segments: Seq<Segment>,
    tip: BlockNumber,
    outcomes: Seq<PruneOutcome>,
)
    requires
        state.delete_limit == 0 || spec_no_target(segments, tip),
    ensures
        state.run_over(segments, tip, outcomes) == state,
        state.requests_over(checkpoints, segments, tip, outcomes) == Seq::<
            (Category, PruneRequest),
        >::empty(),
    decreases segments.len(),
{
    if state.delete_limit == 0 {
        lemma_run_over_without_budget(state, segments, tip, outcomes);
    } else {
        lemma_run_over_without_targets(state, segments, tip, outcomes);
    }
    if segments.len() > 0 {
        if state.delete_limit != 0 {
            assert forall|i: int| 0 <= i < segments.drop_last().len() implies (
            #[trigger] segments.drop_last()[i]).spec_target_block(tip) is None by {
                assert(segments[i].spec_target_block(tip) is None);
            }
            assert(segments[segments.len() - 1].spec_target_block(tip) is None);
            lemma_run_over_without_targets(
                state,
                segments.drop_last(),
                tip,
                outcomes.drop_last(),
            );
        } else {
            lemma_run_over_without_budget(state, segments.drop_last(), tip, outcomes.drop_last());
        }
        lemma_run_over_idle(state, checkpoints, segments.drop_last(), tip, outcomes.drop_last());
    }
}

/// A run that came to its end without anything to do, for want of a budget or
/// because no segment has a target at the tip, is finished; it shows no
/// category in its statistics and has handed the store no request.
pub proof fn lemma_idle_run<S: Store>(
    before: S,
    after: S,
    budget: usize,
    configured: Seq<Segment>,
    tip: BlockNumber,
    outcomes: Seq<PruneOutcome>,
    stats: Map<Category, SegmentStats>,
    progress: PruneProgress,
)
    requires
        spec_ran(before, after, budget, configured, tip, outcomes, stats, progress),
        budget == 0 || spec_no_target(spec_archive_of(before) + configured, tip),
    ensures
        stats == Map::<Category, SegmentStats>::empty(),
        progress == PruneProgress::Finished,
        after.spec_requests()@ == before.spec_requests()@,
{
    lemma_run_over_idle(
        RunStateView::initial(budget),
        spec_checkpoints_in::<S>(before.spec_durable()),
        spec_archive_of(before) + configured,
        tip,
        outcomes,
    );
    assert(before.spec_requests()@ + Seq::<(Category, PruneRequest)>::empty()
        =~= before.spec_requests()@);
}

/// A run at a tip below the previous one counts no block and has no budget; so
/// it deletes nothing: it is finished, shows no category in its statistics and
/// has handed the store no request.
pub proof fn lemma_regressed_tip_has_no_budget<S: Store>(
    before: S,
    after: S,
    base_delete_limit: usize,
    prune_max_blocks_per_run: usize,
    previous_tip: BlockNumber,
    tip: BlockNumber,
    configured: Seq<Segment>,
    outcomes: Seq<PruneOutcome>,
    stats: Map<Category, SegmentStats>,
    progress: PruneProgress,
)
    requires
        tip < previous_tip,
        spec_ran(
            before,
            after,
            spec_run_delete_limit(
                base_delete_limit,
                Some(previous_tip),
                tip,
                prune_max_blocks_per_run,
            ) as usize,
            configured,
            tip,
            outcomes,
            stats,
            progress,
        ),
    ensures
        spec_blocks_since_last_run(Some(previous_tip), tip, prune_max_blocks_per_run) == 0,
        spec_run_delete_limit(base_delete_limit, Some(previous_tip), tip, prune_max_blocks_per_run)
            == 0,
        stats == Map::<Category, SegmentStats>::empty(),
        progress == PruneProgress::Finished,
        after.spec_requests()@ == before.spec_requests()@,
{
    assert(base_delete_limit * 0 == 0);
    lemma_idle_run(before, after, 0, configured, tip, outcomes, stats, progress);
}

/// A second run at the tip of the previous one has no budget; so it deletes
/// nothing more: it is finished, shows no category in its statistics and has
/// handed the store no request.
pub proof fn lemma_same_tip_has_no_budget<S: Store>(
    before: S,
    after: S,
    base_delete_limit: usize,
    prune_max_blocks_per_run: usize,
    tip: BlockNumber,
    configured: Seq<Segment>,
    outcomes: Seq<PruneOutcome>,
    stats: Map<Category, SegmentStats>,
    progress: PruneProgress,
)
    requires
        spec_ran(
            before,
            after,
            spec_run_delete_limit(base_delete_limit, Some(tip), tip, prune_max_blocks_per_run)
                as usize,
            configured,
            tip,
            outcomes,
            stats,
            progress,
        ),
    ensures
        spec_run_delete_limit(base_delete_limit, Some(tip), tip, prune_max_blocks_per_run) == 0,
        stats == Map::<Category, SegmentStats>::empty(),
        progress == PruneProgress::Finished,
        after.spec_requests()@ == before.spec_requests()@,
{
    assert(base_delete_limit * 0 == 0);
    lemma_idle_run(before, after, 0, configured, tip, outcomes, stats, progress);
}

/// Before the first run a run is due at every tip, the tip 0 included.
pub proof fn lemma_first_call_is_scheduled(tip: BlockNumber, min_block_interval: usize)
    ensures
        spec_is_pruning_needed(None, tip, min_block_interval),
{
}

/// Whether the checkpoint was reported within the target of one of the
/// segments: a segment of the category has a target at the tip, and the
/// checkpoint is not past it.
pub open spec fn spec_within_target_of(
    segments: Seq<Segment>,
    tip: BlockNumber,
    category: Category,
    checkpoint: Option<Checkpoint>,
) -> bool {
    exists|i: int|
        0 <= i < segments.len() && (#[trigger] segments[i]).category == category
            && segments[i].spec_target_block(tip) is Some && checkpoint is Some
            && checkpoint.unwrap().block_number <= segments[i].spec_target_block(tip).unwrap()
}

/// No checkpoint is stored past its target: the checkpoint that the store shows
/// for a category after a run is the one it showed before, or one that a
/// segment of the category reported, and that one is not past the target that
/// the segment's policy gives at the tip of the run.
pub proof fn lemma_persisted_checkpoint_within_target(
    state: RunStateView,
    checkpoints: Map<Category, Checkpoint>,
    shown: Option<Checkpoint>,
    category: Category,
    segments: Seq<Segment>,
    tip: BlockNumber,
    outcomes: Seq<PruneOutcome>,
)
    requires
        state.kept_to(checkpoints, segments, tip, outcomes),
    ensures
        ({
            let after = state.checkpoint_after(shown, category, segments, tip, outcomes);
            after == shown || spec_within_target_of(segments, tip, category, after)
        }),
    decreases segments.len(),
{
    if segments.len() > 0 {
        let shorter = segments.drop_last();
        lemma_persisted_checkpoint_within_target(
            state,
            checkpoints,
            shown,
            category,
            shorter,
            tip,
            outcomes.drop_last(),
        );
    }
}

/// Whether one of the segments has a target at the tip and belongs to the
/// category.
pub open spec fn spec_prunes(segments: Seq<Segment>, tip: BlockNumber, category: Category) -> bool {
    exists|i: int|
        0 <= i < segments.len() && (#[trigger] segments[i]).category == category
            && segments[i].spec_target_block(tip) is Some
}

/// What a run over segments does to the state, whatever the store reports: the
/// budget never grows; a run is done only if it was done before; no category
/// leaves the statistics; and a category whose statistics changed belongs to a
/// segment with a target, and shows no work left if the run is done.
pub proof fn lemma_run_over_report(
    state: RunStateView,
    segments: Seq<Segment>,
    tip: BlockNumber,
    outcomes: Seq<PruneOutcome>,
)
    ensures
        ({
            let after = state.run_over(segments, tip, outcomes);
            &&& after.delete_limit <= state.delete_limit
            &&& after.done ==> state.done
            &&& forall|category: Category| #[trigger]
                state.stats.contains_key(category) ==> after.stats.contains_key(category)
            &&& forall|category: Category| #[trigger]
                after.stats.contains_key(category) ==> {
                    ||| state.stats.contains_key(category) && after.stats[category]
                        == state.stats[category]
                    ||| spec_prunes(segments, tip, category) && (after.done
                        ==> after.stats[category].progress == PruneProgress::Finished)
                }
        }),
    decreases segments.len(),
{
    if segments.len() > 0 {
        let shorter = segments.drop_last();
        lemma_run_over_report(state, shorter, tip, outcomes.drop_last());
        let before = state.run_over(shorter, tip, outcomes.drop_last());
        let after = state.run_over(segments, tip, outcomes);
        let segment = segments.last();
        if before.delete_limit != 0 && segment.spec_target_block(tip) is Some {
            assert forall|category: Category| #[trigger]
                after.stats.contains_key(category) implies {
                ||| state.stats.contains_key(category) && after.stats[category]
                    == state.stats[category]
                ||| spec_prunes(segments, tip, category) && (after.done
                    ==> after.stats[category].progress == PruneProgress::Finished)
            } by {}
        }
    }
}

/// What holds of every run that came to its end, whatever the store reported:
/// a category shows in the statistics only if one of the segments of the run
/// belongs to it and has a target; and a run that is finished shows no
/// category with work left.
pub proof fn lemma_run_report<S: Store>(
    before: S,
    after: S,
    budget: usize,
    configured: Seq<Segment>,
    tip: BlockNumber,
    outcomes: Seq<PruneOutcome>,
    stats: Map<Category, SegmentStats>,
    progress: PruneProgress,
)
    requires
        spec_ran(before, after, budget, configured, tip, outcomes, stats, progress),
    ensures
        forall|category: Category| #[trigger]
            stats.contains_key(category) ==> {
                &&& spec_prunes(spec_archive_of(before) + configured, tip, category)
                &&& progress == PruneProgress::Finished ==> stats[category].progress
                    == PruneProgress::Finished
            },
{
    lemma_run_over_report(
        RunStateView::initial(budget),
        spec_archive_of(before) + configured,
        tip,
        outcomes,
    );
}

/// Number of entries that the segments deleted in a run over them, as the
/// store reported it.
pub open spec fn spec_deleted_over(
    state: RunStateView,
    segments: Seq<Segment>,
    tip: BlockNumber,
    outcomes: Seq<PruneOutcome>,
) -> nat
    decreases segments.len(),
{
    if segments.len() == 0 {
        0
    } else {
        let before = state.run_over(segments.drop_last(), tip, outcomes.drop_last());
        let earlier = spec_deleted_over(state, segments.drop_last(), tip, outcomes.drop_last());
        if before.delete_limit == 0 || segments.last().spec_target_block(tip) is None {
            earlier
        } else {
            earlier + outcomes.last().pruned_count as nat
        }
    }
}

/// The budget bounds the work of a run: what the segments deleted and what is
/// left of the budget add up to the budget, where every report kept to its
/// request.
pub proof fn lemma_deletions_within_budget(
    state: RunStateView,
    checkpoints: Map<Category, Checkpoint>,
    segments: Seq<Segment>,
    tip: BlockNumber,
    outcomes: Seq<PruneOutcome>,
)
    requires
        state.kept_to(checkpoints, segments, tip, outcomes),
    ensures
        spec_deleted_over(state, segments, tip, outcomes) + state.run_over(
            segments,
            tip,
            outcomes,
        ).delete_limit == state.delete_limit,
    decreases segments.len(),
{
    if segments.len() > 0 {
        lemma_deletions_within_budget(
            state,
            checkpoints,
            segments.drop_last(),
            tip,
            outcomes.drop_last(),
        );
    }
}

/// A run that came to its end deleted no more than its budget, and stored no
/// checkpoint past the target of its segment.
pub proof fn lemma_run_keeps_to_budget_and_targets<S: Store>(
    before: S,
    after: S,
    budget: usize,
    configured: Seq<Segment>,
    tip: BlockNumber,
    outcomes: Seq<PruneOutcome>,
    stats: Map<Category, SegmentStats>,
    progress: PruneProgress,
    category: Category,
)
    requires
        spec_ran(before, after, budget, configured, tip, outcomes, stats, progress),
    ensures
        spec_deleted_over(
            RunStateView::initial(budget),
            spec_archive_of(before) + configured,
            tip,
            outcomes,
        ) <= budget,
        spec_durable_checkpoint(after, category) == spec_durable_checkpoint(before, category)
            || spec_within_target_of(
            spec_archive_of(before) + configured,
            tip,
            category,
            spec_durable_checkpoint(after, category),
        ),
{
    let ordered = spec_archive_of(before) + configured;
    let checkpoints = spec_checkpoints_in::<S>(before.spec_durable());
    lemma_deletions_within_budget(RunStateView::initial(budget), checkpoints, ordered, tip, outcomes);
    lemma_persisted_checkpoint_within_target(
        RunStateView::initial(budget),
        checkpoints,
        spec_durable_checkpoint(before, category),
        category,
        ordered,
        tip,
        outcomes,
    );
}

/// A run over one segment that has a target, with something of the budget left,
/// is that segment's report taken in: the deletions leave the budget, the run
/// is done if the segment is, the statistics show the segment, and the store
/// shows the checkpoint that the segment reported, if it reported one.
pub proof fn lemma_run_over_one_segment(
    state: RunStateView,
    segment: Segment,
    tip: BlockNumber,
    outcome: PruneOutcome,
    shown: Option<Checkpoint>,
)
    requires
        state.delete_limit != 0,
        segment.spec_target_block(tip) is Some,
    ensures
        state.run_over(seq![segment], tip, seq![outcome]) == state.record(
            segment.category,
            outcome,
        ),
        state.checkpoint_after(shown, segment.category, seq![segment], tip, seq![outcome]) == if
            outcome.new_checkpoint is Some {
            outcome.new_checkpoint
        } else {
            shown
        },
{
    let none = Seq::<Segment>::empty();
    let nothing = Seq::<PruneOutcome>::empty();
    assert(seq![segment].drop_last() =~= none);
    assert(seq![outcome].drop_last() =~= nothing);
    assert(state.run_over(none, tip, nothing) == state);
    assert(state.checkpoint_after(shown, segment.category, none, tip, nothing) == shown);
}

} // verus!
