//! What a run has done so far, and what a run makes of the reports of its
//! segments.

use vstd::prelude::*;
use super::category::Category;
use super::checkpoint::{BlockNumber, Checkpoint, PruneOutcome, PruneRequest};
use super::progress::PruneProgress;
use super::segment::Segment;
use super::stats::{RunStatistics, SegmentStats};

verus! {

/// The state that a run carries from one segment to the next.
#[derive(Clone, Debug, PartialEq, Eq)]
pub struct RunState {
    /// Number of entries that the rest of the run may still delete.
    pub delete_limit: usize,
    /// Whether every segment pruned so far reached its target.
    pub done: bool,
    /// What was done so far, by category.
    pub stats: RunStatistics,
}

/// The state of a run as contracts see it.
pub ghost struct RunStateView {
    /// Number of entries that the rest of the run may still delete.
    pub delete_limit: usize,
    /// Whether every segment pruned so far reached its target.
    pub done: bool,
    /// What was done so far, by category.
    pub stats: Map<Category, SegmentStats>,
}

impl View for RunState {
    type V = RunStateView;

    open spec fn view(&self) -> RunStateView {
        RunStateView { delete_limit: self.delete_limit, done: self.done, stats: self.stats@ }
    }
}

impl RunStateView {
    /// The state of a run that may delete `delete_limit` entries and has
    /// pruned nothing yet.
    pub open spec fn initial(delete_limit: usize) -> Self {
        RunStateView { delete_limit, done: true, stats: Map::empty() }
    }

    /// The state after a segment of the category reported the outcome: the
    /// deletions leave the budget, which never falls below zero; the run is
    /// done only if this segment is too; and the statistics of the category
    /// show this segment.
    pub open spec fn record(self, category: Category, outcome: PruneOutcome) -> Self {
        RunStateView {
            delete_limit: if outcome.pruned_count <= self.delete_limit {
                (self.delete_limit - outcome.pruned_count) as usize
            } else {
                0
            },
            done: self.done && outcome.done,
            stats: self.stats.insert(
                category,
                SegmentStats {
                    progress: PruneProgress::spec_from_done(outcome.done),
                    deleted_count: outcome.pruned_count,
                },
            ),
        }
    }

    /// The state after the run went through the segments in their order at the
    /// given tip, where `outcomes[i]` is what the store reported for
    /// `segments[i]`. A segment is pruned if something of the budget is left
    /// when its turn comes and it has a target at this tip; the outcomes of
    /// the other segments play no part.
    pub open spec fn run_over(
        self,
        segments: Seq<Segment>,
        tip: BlockNumber,
        outcomes: Seq<PruneOutcome>,
    ) -> Self
        decreases segments.len(),
    {
        if segments.len() == 0 {
            self
        } else {
            let before = self.run_over(segments.drop_last(), tip, outcomes.drop_last());
            let segment = segments.last();
            if before.delete_limit == 0 || segment.spec_target_block(tip) is None {
                before
            } else {
                before.record(segment.category, outcomes.last())
            }
        }
    }

    /// The request that the run makes of `segment` after it went through
    /// `segments`, where the store showed the checkpoints `shown` before the
    /// run: none if the segment has no target, and else the request from the
    /// checkpoint that the store then shows for the segment's category, up to
    /// the segment's target, within what is left of the budget.
    pub open spec fn request_for(
        self,
        shown: Map<Category, Checkpoint>,
        segments: Seq<Segment>,
        tip: BlockNumber,
        outcomes: Seq<PruneOutcome>,
        segment: Segment,
    ) -> Option<PruneRequest> {
        segment.spec_request(
            tip,
            self.checkpoint_after(
                spec_lookup(shown, segment.category),
                segment.category,
                segments,
                tip,
                outcomes,
            ),
            self.run_over(segments, tip, outcomes).delete_limit,
        )
    }

    /// Whether every report of the run kept to its request, where `outcomes[i]`
    /// is what the store reported for `segments[i]` and the store showed the
    /// checkpoints `shown` before the run: a segment that was pruned deleted no
    /// more than its request allowed, and named no checkpoint past the target
    /// of the request.
    pub open spec fn kept_to(
        self,
        shown: Map<Category, Checkpoint>,
        segments: Seq<Segment>,
        tip: BlockNumber,
        outcomes: Seq<PruneOutcome>,
    ) -> bool
        decreases segments.len(),
    {
        segments.len() == 0 || {
            let before = self.run_over(segments.drop_last(), tip, outcomes.drop_last());
            let request = self.request_for(
                shown,
                segments.drop_last(),
                tip,
                outcomes.drop_last(),
                segments.last(),
            );
            &&& self.kept_to(shown, segments.drop_last(), tip, outcomes.drop_last())
            &&& before.delete_limit != 0 && request is Some ==> outcomes.last().spec_respects(
                request.unwrap(),
            )
        }
    }

    /// The requests that the store is handed in the run, oldest first, each
    /// with the category of its segment: one for each segment that has a
    /// target and finds something of the budget left.
    pub open spec fn requests_over(
        self,
        shown: Map<Category, Checkpoint>,
        segments: Seq<Segment>,
        tip: BlockNumber,
        outcomes: Seq<PruneOutcome>,
    ) -> Seq<(Category, PruneRequest)>
        decreases segments.len(),
    {
        if segments.len() == 0 {
            Seq::empty()
        } else {
            let before = self.run_over(segments.drop_last(), tip, outcomes.drop_last());
            let earlier = self.requests_over(shown, segments.drop_last(), tip, outcomes.drop_last());
            let request = self.request_for(
                shown,
                segments.drop_last(),
                tip,
                outcomes.drop_last(),
                segments.last(),
            );
            if before.delete_limit != 0 && request is Some {
                earlier.push((segments.last().category, request.unwrap()))
            } else {
                earlier
            }
        }
    }

    /// The checkpoint that the store shows for the category after the run went
    /// through the segments, where it showed `shown` before: the checkpoint
    /// that the last pruned segment of the category reported, if one reported
    /// any, and `shown` else.
    pub open spec fn checkpoint_after(
        self,
        shown: Option<Checkpoint>,
        category: Category,
        segments: Seq<Segment>,
        tip: BlockNumber,
        outcomes: Seq<PruneOutcome>,
    ) -> Option<Checkpoint>
        decreases segments.len(),
    {
        if segments.len() == 0 {
            shown
        } else {
            let before = self.run_over(segments.drop_last(), tip, outcomes.drop_last());
            let earlier = self.checkpoint_after(
                shown,
                category,
                segments.drop_last(),
                tip,
                outcomes.drop_last(),
            );
            let segment = segments.last();
            if before.delete_limit != 0 && segment.spec_target_block(tip) is Some
                && segment.category == category && outcomes.last().new_checkpoint is Some {
                outcomes.last().new_checkpoint
            } else {
                earlier
            }
        }
    }
}

impl RunState {
    /// The state of a run that may delete `delete_limit` entries and has
    /// pruned nothing yet.
    pub fn new(delete_limit: usize) -> (state: Self)
        ensures
            state@ == RunStateView::initial(delete_limit),
    {
        RunState { delete_limit, done: true, stats: RunStatistics::new() }
    }

    /// Whether the run has to stop before the next segment: nothing of the
    /// budget is left.
    pub fn is_exhausted(&self) -> (exhausted: bool)
        ensures
            exhausted == (self@.delete_limit == 0),
    {
        self.delete_limit == 0
    }

    /// Takes in what a segment reported.
    pub fn record(&mut self, category: Category, outcome: &PruneOutcome)
        ensures
            final(self)@ == old(self)@.record(category, *outcome),
    {
        self.done = self.done && outcome.done;
        self.delete_limit = self.delete_limit.saturating_sub(outcome.pruned_count);
        self.stats.insert(category, PruneProgress::from_done(outcome.done), outcome.pruned_count);
    }

    /// The progress of the run as a whole.
    pub fn progress(&self) -> (progress: PruneProgress)
        ensures
            progress == PruneProgress::spec_from_done(self@.done),
    {
        PruneProgress::from_done(self.done)
    }
}

/// The checkpoint of the category among the checkpoints, if there is one.
pub open spec fn spec_lookup(checkpoints: Map<Category, Checkpoint>, category: Category) -> Option<
    Checkpoint,
> {
    if checkpoints.contains_key(category) {
        Some(checkpoints[category])
    } else {
        None
    }
}

/// A run without a budget changes nothing, whatever its segments are.
pub proof fn lemma_run_over_without_budget(
    state: RunStateView,
    segments: Seq<Segment>,
    tip: BlockNumber,
    outcomes: Seq<PruneOutcome>,
)
    requires
        state.delete_limit == 0,
    ensures
        state.run_over(segments, tip, outcomes) == state,
    decreases segments.len(),
{
    if segments.len() > 0 {
        lemma_run_over_without_budget(state, segments.drop_last(), tip, outcomes.drop_last());
    }
}

/// A run over segments that have no target at the tip changes nothing.
pub proof fn lemma_run_over_without_targets(
    state: RunStateView,
    segments: Seq<Segment>,
    tip: BlockNumber,
    outcomes: Seq<PruneOutcome>,
)
    requires
        forall|i: int| 0 <= i < segments.len() ==> (#[trigger] segments[i]).spec_target_block(tip)
            is None,
    ensures
        state.run_over(segments, tip, outcomes) == state,
    decreases segments.len(),
{
    if segments.len() > 0 {
        lemma_run_over_without_targets(state, segments.drop_last(), tip, outcomes.drop_last());
    }
}

/// Once the budget is used up, the segments that follow change nothing: the
/// run over the whole list ends where the run over the first `count` segments
/// ended.
pub proof fn lemma_run_over_exhausted(
    state: RunStateView,
    segments: Seq<Segment>,
    tip: BlockNumber,
    outcomes: Seq<PruneOutcome>,
    count: int,
)
    requires
        0 <= count <= segments.len(),
        outcomes.len() == segments.len(),
        state.run_over(segments.take(count), tip, outcomes.take(count)).delete_limit == 0,
    ensures
        state.run_over(segments, tip, outcomes) == state.run_over(
            segments.take(count),
            tip,
            outcomes.take(count),
        ),
        forall|shown: Map<Category, Checkpoint>| #[trigger]
            state.kept_to(shown, segments, tip, outcomes) == state.kept_to(
                shown,
                segments.take(count),
                tip,
                outcomes.take(count),
            ),
        forall|shown: Map<Category, Checkpoint>| #[trigger]
            state.requests_over(shown, segments, tip, outcomes) == state.requests_over(
                shown,
                segments.take(count),
                tip,
                outcomes.take(count),
            ),
        forall|shown: Option<Checkpoint>, category: Category| #[trigger]
            state.checkpoint_after(shown, category, segments, tip, outcomes)
                == state.checkpoint_after(
                shown,
                category,
                segments.take(count),
                tip,
                outcomes.take(count),
            ),
    decreases segments.len(),
{
    if count == segments.len() {
        assert(segments.take(count) =~= segments);
        assert(outcomes.take(count) =~= outcomes);
    } else {
        assert(segments.drop_last().take(count) =~= segments.take(count));
        assert(outcomes.drop_last().take(count) =~= outcomes.take(count));
        lemma_run_over_exhausted(state, segments.drop_last(), tip, outcomes.drop_last(), count);
        assert forall|shown: Map<Category, Checkpoint>| #[trigger]
            state.kept_to(shown, segments, tip, outcomes) == state.kept_to(
                shown,
                segments.take(count),
                tip,
                outcomes.take(count),
            ) by {
            assert(state.kept_to(shown, segments.drop_last(), tip, outcomes.drop_last())
                == state.kept_to(shown, segments.take(count), tip, outcomes.take(count)));
        }
        assert forall|shown: Map<Category, Checkpoint>| #[trigger]
            state.requests_over(shown, segments, tip, outcomes) == state.requests_over(
                shown,
                segments.take(count),
                tip,
                outcomes.take(count),
            ) by {
            assert(state.requests_over(shown, segments.drop_last(), tip, outcomes.drop_last())
                == state.requests_over(shown, segments.take(count), tip, outcomes.take(count)));
        }
        assert forall|shown: Option<Checkpoint>, category: Category| #[trigger]
            state.checkpoint_after(shown, category, segments, tip, outcomes)
                == state.checkpoint_after(
                shown,
                category,
                segments.take(count),
                tip,
                outcomes.take(count),
            ) by {
            assert(state.checkpoint_after(
                shown,
                category,
                segments.drop_last(),
                tip,
                outcomes.drop_last(),
            ) == state.checkpoint_after(
                shown,
                category,
                segments.take(count),
                tip,
                outcomes.take(count),
            ));
        }
    }
}

/// A run over two lists of segments, one after the other, is a run over the
/// first list followed by a run over the second.
pub proof fn lemma_run_over_concat(
    state: RunStateView,
    first: Seq<Segment>,
    second: Seq<Segment>,
    tip: BlockNumber,
    first_outcomes: Seq<PruneOutcome>,
    second_outcomes: Seq<PruneOutcome>,
)
    requires
        first_outcomes.len() == first.len(),
        second_outcomes.len() == second.len(),
    ensures
        state.run_over(first + second, tip, first_outcomes + second_outcomes) == state.run_over(
            first,
            tip,
            first_outcomes,
        ).run_over(second, tip, second_outcomes),
    decreases second.len(),
{
    if second.len() == 0 {
    } else {
        assert((first + second).drop_last() =~= first + second.drop_last());
        assert((first_outcomes + second_outcomes).drop_last() =~= first_outcomes
            + second_outcomes.drop_last());
        lemma_run_over_concat(
            state,
            first,
            second.drop_last(),
            tip,
            first_outcomes,
            second_outcomes.drop_last(),
        );
    }
}

} // verus!
