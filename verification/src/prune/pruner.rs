//! The orchestrator: it decides when a run is due, gives each run its budget
//! and takes the segments through the store, one after the other.

use vstd::prelude::*;
use super::budget::{checked_run_delete_limit, run_delete_limit, spec_run_delete_limit};
use super::category::Category;
use super::checkpoint::{BlockNumber, PruneOutcome, PruneRequest};
use super::error::PrunerError;
use super::event::PrunerEvent;
use super::laws::lemma_run_over_idle;
use super::progress::PruneProgress;
use super::run_state::{
    lemma_run_over_exhausted, lemma_run_over_without_budget, spec_lookup, RunState, RunStateView,
};
use super::segment::{
    archive_segments, checkpoint_to_save, ordered_segments, spec_archive_segments, step_result,
    Segment,
};
use super::stats::{RunStatistics, SegmentStats};
use super::store::{spec_checkpoint, spec_checkpoints_in, spec_durable_checkpoint, Store};

verus! {

/// Result of [`Pruner::run`].
pub type PrunerResult = Result<PruneProgress, PrunerError>;

/// The pruning routine. [`Pruner::run`] holds the main logic.
pub struct Pruner<S> {
    store: S,
    segments: Vec<Segment>,
    /// Number of blocks by which the tip has to advance before the next run is
    /// due.
    min_block_interval: usize,
    /// The tip of the last run that came to its end, with or without deleting
    /// anything.
    previous_tip_block_number: Option<BlockNumber>,
    /// Number of entries that a run may delete for each block that the tip
    /// advanced.
    delete_limit: usize,
    /// Highest number of blocks that count for the budget of one run.
    prune_max_blocks_per_run: usize,
    /// The events that were emitted and not handed out yet.
    events: Vec<PrunerEvent>,
}

/// A pruner as contracts see it.
pub ghost struct PrunerView<S> {
    /// The store that the pruner works against.
    pub store: S,
    /// The configured segments, in their order.
    pub segments: Seq<Segment>,
    /// Number of blocks by which the tip has to advance before the next run is
    /// due.
    pub min_block_interval: usize,
    /// The tip of the last run that came to its end.
    pub previous_tip_block_number: Option<BlockNumber>,
    /// Number of entries that a run may delete for each block that the tip
    /// advanced.
    pub delete_limit: usize,
    /// Highest number of blocks that count for the budget of one run.
    pub prune_max_blocks_per_run: usize,
    /// The events that were emitted and not handed out yet, oldest first.
    pub events: Seq<PrunerEvent>,
}

impl<S> PrunerView<S> {
    /// The budget of a run at the given tip.
    pub open spec fn run_delete_limit(self, tip: BlockNumber) -> nat {
        spec_run_delete_limit(
            self.delete_limit,
            self.previous_tip_block_number,
            tip,
            self.prune_max_blocks_per_run,
        )
    }

    /// Whether a run is due at the given tip.
    pub open spec fn is_pruning_needed(self, tip: BlockNumber) -> bool {
        spec_is_pruning_needed(self.previous_tip_block_number, tip, self.min_block_interval)
    }
}

impl<S> View for Pruner<S> {
    type V = PrunerView<S>;

    closed spec fn view(&self) -> PrunerView<S> {
        PrunerView {
            store: self.store,
            segments: self.segments@,
            min_block_interval: self.min_block_interval,
            previous_tip_block_number: self.previous_tip_block_number,
            delete_limit: self.delete_limit,
            prune_max_blocks_per_run: self.prune_max_blocks_per_run,
            events: self.events@,
        }
    }
}

/// Whether a run is due at `tip`: always before the first run, and then once
/// the tip is `min_block_interval` blocks past the previous one. A tip below
/// the previous one makes a run due as well.
pub open spec fn spec_is_pruning_needed(
    previous_tip: Option<BlockNumber>,
    tip: BlockNumber,
    min_block_interval: usize,
) -> bool {
    match previous_tip {
        None => true,
        Some(previous) => tip < previous || tip - previous >= min_block_interval,
    }
}

/// The segments that the archive boundaries of the store call for.
pub open spec fn spec_archive_of<S: Store>(store: S) -> Seq<Segment> {
    spec_archive_segments(
        store.spec_highest_archived_block(Category::Headers),
        store.spec_highest_archived_block(Category::Transactions),
        store.spec_highest_archived_block(Category::Receipts),
    )
}

/// Whether none of the segments has a target at the tip.
pub open spec fn spec_no_target(segments: Seq<Segment>, tip: BlockNumber) -> bool {
    forall|i: int| 0 <= i < segments.len() ==> (#[trigger] segments[i]).spec_target_block(tip) is None
}

/// Whether the state `start` of a run and the store `before` became `last` and
/// `after` by taking the segments through the store in their order, where
/// `outcomes[i]` is what the store reported for `segments[i]`: every report
/// kept to its request, the state is what the reports make of it, nothing
/// durable changed, the store was handed the requests of the run and no other,
/// and it shows for each category the last checkpoint that was reported for
/// it.
pub open spec fn spec_pruned<S: Store>(
    before: S,
    after: S,
    start: RunStateView,
    last: RunStateView,
    segments: Seq<Segment>,
    tip: BlockNumber,
    outcomes: Seq<PruneOutcome>,
) -> bool {
    let shown = spec_checkpoints_in::<S>(before.spec_shown());
    &&& outcomes.len() == segments.len()
    &&& start.kept_to(shown, segments, tip, outcomes)
    &&& last == start.run_over(segments, tip, outcomes)
    &&& after.spec_durable() == before.spec_durable()
    &&& after.spec_requests()@ == before.spec_requests()@ + start.requests_over(
        shown,
        segments,
        tip,
        outcomes,
    )
    &&& forall|category: Category| #[trigger]
        spec_checkpoint(after, category) == start.checkpoint_after(
            spec_checkpoint(before, category),
            category,
            segments,
            tip,
            outcomes,
        )
}

/// Whether the run that started in the state `start`, with the store `before`,
/// stopped at `segments[count]` with the store `after`, where `outcomes` holds
/// what the store reported for the segments before that one: those reports
/// kept to their requests, something of the budget was left for the segment,
/// which has a target, nothing durable changed, and the store was handed the
/// requests for the segments before it and at most the one for this segment;
/// none was made for a later segment.
pub open spec fn spec_stopped<S: Store>(
    before: S,
    after: S,
    start: RunStateView,
    segments: Seq<Segment>,
    tip: BlockNumber,
    count: int,
    outcomes: Seq<PruneOutcome>,
) -> bool {
    let shown = spec_checkpoints_in::<S>(before.spec_shown());
    let visited = segments.take(count);
    let earlier = before.spec_requests()@ + start.requests_over(shown, visited, tip, outcomes);
    &&& 0 <= count < segments.len()
    &&& outcomes.len() == count
    &&& start.kept_to(shown, visited, tip, outcomes)
    &&& start.run_over(visited, tip, outcomes).delete_limit != 0
    &&& start.request_for(shown, visited, tip, outcomes, segments[count]) is Some
    &&& after.spec_durable() == before.spec_durable()
    &&& after.spec_requests()@ == earlier || after.spec_requests()@ == earlier.push(
        (
            segments[count].category,
            start.request_for(shown, visited, tip, outcomes, segments[count]).unwrap(),
        ),
    )
}

/// Whether a run at `tip` with the given budget that came to its end took the
/// store from `before` to `after` and ended with these statistics and this
/// progress, where `outcomes` holds what the store reported for the archive
/// segments and then for the configured segments: every report kept to its
/// request, statistics and progress are what the reports make of them, the
/// store was handed the requests of the run and no other, the transaction is
/// committed, and the store holds durably, for each category, the last
/// checkpoint that was reported for it.
pub open spec fn spec_ran<S: Store>(
    before: S,
    after: S,
    budget: usize,
    configured: Seq<Segment>,
    tip: BlockNumber,
    outcomes: Seq<PruneOutcome>,
    stats: Map<Category, SegmentStats>,
    progress: PruneProgress,
) -> bool {
    let ordered = spec_archive_of(before) + configured;
    let start = RunStateView::initial(budget);
    let last = start.run_over(ordered, tip, outcomes);
    let shown = spec_checkpoints_in::<S>(before.spec_durable());
    &&& outcomes.len() == ordered.len()
    &&& start.kept_to(shown, ordered, tip, outcomes)
    &&& last.stats == stats
    &&& progress == PruneProgress::spec_from_done(last.done)
    &&& after.spec_shown() == after.spec_durable()
    &&& after.spec_requests()@ == before.spec_requests()@ + start.requests_over(
        shown,
        ordered,
        tip,
        outcomes,
    )
    &&& forall|category: Category| #[trigger]
        spec_durable_checkpoint(after, category) == start.checkpoint_after(
            spec_durable_checkpoint(before, category),
            category,
            ordered,
            tip,
            outcomes,
        )
}

/// Whether a run at `tip` with the given budget that failed after it had opened
/// its transaction got as far as `count` segments of its list, where
/// `outcomes` holds what the store reported for them: those reports kept to
/// their requests, and the store was handed the requests for those segments
/// and at most the one for the segment that follows, which then has a target
/// and found something of the budget left; none was made for a later segment.
/// With `count` at the length of the list, all segments were pruned and the
/// commit failed.
pub open spec fn spec_run_stopped<S: Store>(
    before: S,
    after: S,
    budget: usize,
    configured: Seq<Segment>,
    tip: BlockNumber,
    count: int,
    outcomes: Seq<PruneOutcome>,
) -> bool {
    let ordered = spec_archive_of(before) + configured;
    let shown = spec_checkpoints_in::<S>(before.spec_durable());
    let start = RunStateView::initial(budget);
    let visited = ordered.take(count);
    let earlier = before.spec_requests()@ + start.requests_over(shown, visited, tip, outcomes);
    &&& 0 <= count <= ordered.len()
    &&& outcomes.len() == count
    &&& start.kept_to(shown, visited, tip, outcomes)
    &&& if count == ordered.len() {
        after.spec_requests()@ == earlier
    } else {
        &&& start.run_over(visited, tip, outcomes).delete_limit != 0
        &&& start.request_for(shown, visited, tip, outcomes, ordered[count]) is Some
        &&& after.spec_requests()@ == earlier || after.spec_requests()@ == earlier.push(
            (
                ordered[count].category,
                start.request_for(shown, visited, tip, outcomes, ordered[count]).unwrap(),
            ),
        )
    }
}

impl<S: Store> Pruner<S> {
    /// Creates a pruner that has not run yet.
    pub fn new(
        store: S,
        segments: Vec<Segment>,
        min_block_interval: usize,
        delete_limit: usize,
        prune_max_blocks_per_run: usize,
    ) -> (pruner: Self)
        ensures
            pruner@ == (PrunerView {
                store,
                segments: segments@,
                min_block_interval,
                previous_tip_block_number: None,
                delete_limit,
                prune_max_blocks_per_run,
                events: Seq::empty(),
            }),
    {
        Pruner {
            store,
            segments,
            min_block_interval,
            previous_tip_block_number: None,
            delete_limit,
            prune_max_blocks_per_run,
            events: Vec::new(),
        }
    }

    /// The store that the pruner works against.
    pub fn store(&self) -> (store: &S)
        ensures
            *store == self@.store,
    {
        &self.store
    }

    /// The configured segments, in their order.
    pub fn segments(&self) -> (segments: &Vec<Segment>)
        ensures
            segments@ == self@.segments,
    {
        &self.segments
    }

    /// Number of blocks by which the tip has to advance before the next run is
    /// due.
    pub fn min_block_interval(&self) -> (interval: usize)
        ensures
            interval == self@.min_block_interval,
    {
        self.min_block_interval
    }

    /// The tip of the last run that came to its end.
    pub fn previous_tip_block_number(&self) -> (tip: Option<BlockNumber>)
        ensures
            tip == self@.previous_tip_block_number,
    {
        self.previous_tip_block_number
    }

    /// Number of entries that a run may delete for each block that the tip
    /// advanced.
    pub fn delete_limit(&self) -> (limit: usize)
        ensures
            limit == self@.delete_limit,
    {
        self.delete_limit
    }

    /// Highest number of blocks that count for the budget of one run.
    pub fn prune_max_blocks_per_run(&self) -> (blocks: usize)
        ensures
            blocks == self@.prune_max_blocks_per_run,
    {
        self.prune_max_blocks_per_run
    }

    /// Hands out the events that were emitted since the last call, oldest
    /// first, and keeps none of them.
    pub fn events(&mut self) -> (events: Vec<PrunerEvent>)
        ensures
            events@ == old(self)@.events,
            final(self)@ == (PrunerView { events: Seq::empty(), ..old(self)@ }),
    {
        let mut events: Vec<PrunerEvent> = Vec::new();
        core::mem::swap(&mut self.events, &mut events);
        events
    }

    /// The budget of a run at the given tip: the configured limit for each
    /// block that the tip advanced since the previous run, of which no more
    /// than the configured maximum count. The budget has to fit the machine
    /// word.
    pub fn run_delete_limit(&self, tip_block_number: BlockNumber) -> (limit: usize)
        requires
            self@.run_delete_limit(tip_block_number) <= usize::MAX,
        ensures
            limit == self@.run_delete_limit(tip_block_number),
    {
        run_delete_limit(
            self.delete_limit,
            self.previous_tip_block_number,
            tip_block_number,
            self.prune_max_blocks_per_run,
        )
    }

    /// The budget of a run at the given tip, or `None` if it does not fit the
    /// machine word.
    pub fn checked_run_delete_limit(&self, tip_block_number: BlockNumber) -> (limit: Option<usize>)
        ensures
            match limit {
                Some(limit) => limit == self@.run_delete_limit(tip_block_number),
                None => self@.run_delete_limit(tip_block_number) > usize::MAX,
            },
    {
        checked_run_delete_limit(
            self.delete_limit,
            self.previous_tip_block_number,
            tip_block_number,
            self.prune_max_blocks_per_run,
        )
    }

    /// Returns `true` if a run is due at the given tip: always before the first
    /// run, then once the tip is the minimum interval past the previous one. A
    /// tip below the previous one makes a run due as well; that run has no
    /// budget. Nothing changes by asking.
    pub fn is_pruning_needed(&self, tip_block_number: BlockNumber) -> (needed: bool)
        ensures
            needed == self@.is_pruning_needed(tip_block_number),
    {
        match self.previous_tip_block_number {
            None => true,
            Some(previous) => {
                tip_block_number < previous || tip_block_number - previous
                    >= self.min_block_interval as u64
            },
        }
    }

    /// Returns the segments that the archive boundaries of the store call for:
    /// one for each of headers, transactions and receipts of which the store
    /// reports a boundary, in that order, each deleting everything up to its
    /// boundary. The store is asked once for each of the three.
    pub fn snapshot_segments(&self) -> (segments: Vec<Segment>)
        ensures
            segments@ == spec_archive_of(self@.store),
    {
        let headers = self.store.highest_archived_block(Category::Headers);
        let transactions = self.store.highest_archived_block(Category::Transactions);
        let receipts = self.store.highest_archived_block(Category::Receipts);
        archive_segments(headers, transactions, receipts)
    }

    /// Prunes one segment within the open transaction, unless it has no target
    /// at this tip: reads its checkpoint, has the store prune from there up to
    /// the target within what is left of the budget, stores the new checkpoint
    /// if the report names one, and takes the report into the state of the run.
    /// Returns the report, or `None` for a segment without a target, of which
    /// nothing is asked of the store. The first error ends the step and is
    /// returned, as [`step_result`] says; the state of the run then stays as it
    /// is.
    pub fn prune_segment(
        store: &mut S,
        segment: Segment,
        tip_block_number: BlockNumber,
        state: &mut RunState,
    ) -> (result: Result<Option<PruneOutcome>, PrunerError>)
        ensures
            final(store).spec_durable() == old(store).spec_durable(),
            match segment.spec_request(
                tip_block_number,
                spec_checkpoint(*old(store), segment.category),
                old(state)@.delete_limit,
            ) {
                None => {
                    &&& result == Ok::<Option<PruneOutcome>, PrunerError>(None)
                    &&& *final(state) == *old(state)
                    &&& *final(store) == *old(store)
                },
                Some(request) => match result {
                    Ok(Some(outcome)) => {
                        &&& outcome.spec_respects(request)
                        &&& final(state)@ == old(state)@.record(segment.category, outcome)
                        &&& final(store).spec_requests()@ == old(store).spec_requests()@.push(
                            (segment.category, request),
                        )
                        &&& forall|category: Category| #[trigger]
                            spec_checkpoint(*final(store), category) == if category
                                == segment.category && outcome.new_checkpoint is Some {
                                outcome.new_checkpoint
                            } else {
                                spec_checkpoint(*old(store), category)
                            }
                    },
                    Ok(None) => false,
                    Err(_) => {
                        &&& *final(state) == *old(state)
                        &&& final(store).spec_requests()@ == old(store).spec_requests()@ || final(store).spec_requests()@ == old(store).spec_requests()@.push(
                            (segment.category, request),
                        )
                    },
                },
            },
    {
        if segment.target_block(tip_block_number).is_none() {
            return Ok(None);
        }
        let read = store.get_checkpoint(segment.category());
        let report = match read {
            Ok(shown) => match segment.request(tip_block_number, shown, state.delete_limit) {
                Some(request) => Some(segment.prune(store, request)),
                None => None,
            },
            Err(_) => None,
        };
        let saved = match checkpoint_to_save(&report) {
            Some(checkpoint) => Some(segment.save_checkpoint(store, checkpoint)),
            None => None,
        };
        let result = step_result(read, report, saved);
        if let Ok(Some(outcome)) = result {
            state.record(segment.category(), &outcome);
        }
        result
    }

    /// Prunes the segments of a list in their order, until the list or the
    /// budget ends.
    fn prune_list(
        store: &mut S,
        segments: &Vec<Segment>,
        tip_block_number: BlockNumber,
        state: &mut RunState,
    ) -> (result: Result<(), PrunerError>)
        ensures
            final(store).spec_durable() == old(store).spec_durable(),
            old(state)@.delete_limit == 0 || spec_no_target(segments@, tip_block_number)
                ==> result is Ok && *final(store) == *old(store),
            result is Ok ==> exists|outcomes: Seq<PruneOutcome>| #[trigger]
                spec_pruned(
                    *old(store),
                    *final(store),
                    old(state)@,
                    final(state)@,
                    segments@,
                    tip_block_number,
                    outcomes,
                ),
            result is Err ==> exists|count: int, outcomes: Seq<PruneOutcome>| #[trigger]
                spec_stopped(
                    *old(store),
                    *final(store),
                    old(state)@,
                    segments@,
                    tip_block_number,
                    count,
                    outcomes,
                ),
    {
        let ghost mut outcomes: Seq<PruneOutcome> = Seq::empty();
        let ghost shown = spec_checkpoints_in::<S>(old(store).spec_shown());
        let mut index: usize = 0;
        proof {
            assert(old(store).spec_requests()@ + Seq::<(Category, PruneRequest)>::empty() =~= old(store).spec_requests()@);
        }
        while index < segments.len()
            invariant
                index <= segments@.len(),
                shown == spec_checkpoints_in::<S>(old(store).spec_shown()),
                spec_pruned(
                    *old(store),
                    *store,
                    old(state)@,
                    state@,
                    segments@.take(index as int),
                    tip_block_number,
                    outcomes,
                ),
                old(state)@.delete_limit == 0 || spec_no_target(
                    segments@.take(index as int),
                    tip_block_number,
                ) ==> *store == *old(store),
            ensures
                index < segments@.len() ==> state@.delete_limit == 0,
            decreases segments@.len() - index,
        {
            if state.is_exhausted() {
                break ;
            }
            let segment = segments[index];
            let ghost store_before = *store;
            let ghost state_before = state@;
            let ghost visited = segments@.take(index as int);
            let ghost longer = segments@.take(index + 1);
            proof {
                assert(longer.drop_last() =~= visited);
                assert(longer.last() == segment);
                if old(state)@.delete_limit == 0 {
                    lemma_run_over_without_budget(old(state)@, visited, tip_block_number, outcomes);
                }
                if spec_no_target(segments@, tip_block_number) {
                    assert(segments@[index as int].spec_target_block(tip_block_number) is None);
                    assert forall|i: int| 0 <= i < visited.len() implies (
                    #[trigger] visited[i]).spec_target_block(tip_block_number) is None by {
                        assert(segments@[i].spec_target_block(tip_block_number) is None);
                    }
                }
                assert(spec_checkpoint(store_before, segment.category)
                    == old(state)@.checkpoint_after(
                    spec_lookup(shown, segment.category),
                    segment.category,
                    visited,
                    tip_block_number,
                    outcomes,
                ));
            }
            let reported = match Self::prune_segment(store, segment, tip_block_number, state) {
                Ok(reported) => reported,
                Err(error) => {
                    proof {
                        assert(segments@[index as int] == segment);
                        assert(state_before == old(state)@.run_over(
                            visited,
                            tip_block_number,
                            outcomes,
                        ));
                        assert(spec_stopped(
                            *old(store),
                            *store,
                            old(state)@,
                            segments@,
                            tip_block_number,
                            index as int,
                            outcomes,
                        ));
                    }
                    return Err(error);
                },
            };
            proof {
                let outcome = match reported {
                    Some(outcome) => outcome,
                    None => arbitrary(),
                };
                assert(outcomes.push(outcome).drop_last() =~= outcomes);
                assert(state_before == old(state)@.run_over(visited, tip_block_number, outcomes));
                assert forall|category: Category| #[trigger]
                    spec_checkpoint(*store, category) == old(state)@.checkpoint_after(
                        spec_checkpoint(*old(store), category),
                        category,
                        longer,
                        tip_block_number,
                        outcomes.push(outcome),
                    ) by {
                    assert(spec_checkpoint(store_before, category) == old(state)@.checkpoint_after(
                        spec_checkpoint(*old(store), category),
                        category,
                        visited,
                        tip_block_number,
                        outcomes,
                    ));
                }
                let earlier = old(state)@.requests_over(shown, visited, tip_block_number, outcomes);
                assert(store_before.spec_requests()@ == old(store).spec_requests()@ + earlier);
                if reported is Some {
                    let request = old(state)@.request_for(
                        shown,
                        visited,
                        tip_block_number,
                        outcomes,
                        segment,
                    ).unwrap();
                    assert(old(store).spec_requests()@ + earlier.push((segment.category, request))
                        =~= (old(store).spec_requests()@ + earlier).push(
                        (segment.category, request),
                    ));
                }
                assert forall|i: int| 0 <= i < longer.len() && spec_no_target(
                    longer,
                    tip_block_number,
                ) implies (#[trigger] visited[i]).spec_target_block(tip_block_number) is None || i
                    == index by {
                    if i < index {
                        assert(longer[i] == visited[i]);
                    }
                }
                if spec_no_target(longer, tip_block_number) {
                    assert(longer[index as int].spec_target_block(tip_block_number) is None);
                    assert forall|i: int| 0 <= i < visited.len() implies (
                    #[trigger] visited[i]).spec_target_block(tip_block_number) is None by {
                        assert(longer[i].spec_target_block(tip_block_number) is None);
                    }
                }
                outcomes = outcomes.push(outcome);
            }
            index += 1;
        }
        proof {
            let rest = Seq::new(
                (segments@.len() - index) as nat,
                |i: int| arbitrary::<PruneOutcome>(),
            );
            let all = outcomes + rest;
            assert(all.take(index as int) =~= outcomes);
            if index < segments@.len() {
                lemma_run_over_exhausted(old(state)@, segments@, tip_block_number, all, index as int);
            } else {
                assert(segments@.take(index as int) =~= segments@);
                assert(all =~= outcomes);
            }
            assert(spec_pruned(
                *old(store),
                *store,
                old(state)@,
                state@,
                segments@,
                tip_block_number,
                all,
            ));
            if spec_no_target(segments@, tip_block_number) {
                assert forall|i: int| 0 <= i < segments@.take(index as int).len() implies (
                #[trigger] segments@.take(index as int)[i]).spec_target_block(tip_block_number)
                    is None by {
                    assert(segments@[i].spec_target_block(tip_block_number) is None);
                }
            }
        }
        Ok(())
    }

    /// Prunes, within the open transaction, the segments that the archive
    /// boundaries call for and then the configured segments, in their order,
    /// until `delete_limit` entries were deleted.
    ///
    /// Returns the statistics, what is left of `delete_limit`, and whether
    /// every segment that was pruned reached its target. The first error ends
    /// the list: no segment after the failing one is pruned. Without a budget, and where no segment
    /// has a target at this tip, the call succeeds and asks nothing of the
    /// store but its archive boundaries. Nothing durable changes.
    pub fn prune_segments(&mut self, tip_block_number: BlockNumber, delete_limit: usize) -> (result:
        Result<(RunStatistics, usize, PruneProgress), PrunerError>)
        ensures
            final(self)@ == (PrunerView { store: final(self)@.store, ..old(self)@ }),
            final(self)@.store.spec_durable() == old(self)@.store.spec_durable(),
            delete_limit == 0 || spec_no_target(
                spec_archive_of(old(self)@.store) + old(self)@.segments,
                tip_block_number,
            ) ==> {
                &&& final(self)@.store == old(self)@.store
                &&& result matches Ok((stats, remaining, progress)) && stats@ == Map::<
                    Category,
                    SegmentStats,
                >::empty() && remaining == delete_limit && progress == PruneProgress::Finished
            },
            result matches Ok((stats, remaining, progress)) ==> exists|outcomes: Seq<PruneOutcome>|
             #[trigger]
                spec_pruned(
                    old(self)@.store,
                    final(self)@.store,
                    RunStateView::initial(delete_limit),
                    RunStateView {
                        delete_limit: remaining,
                        done: progress.spec_is_finished(),
                        stats: stats@,
                    },
                    spec_archive_of(old(self)@.store) + old(self)@.segments,
                    tip_block_number,
                    outcomes,
                ),
            result is Err ==> exists|count: int, outcomes: Seq<PruneOutcome>| #[trigger]
                spec_stopped(
                    old(self)@.store,
                    final(self)@.store,
                    RunStateView::initial(delete_limit),
                    spec_archive_of(old(self)@.store) + old(self)@.segments,
                    tip_block_number,
                    count,
                    outcomes,
                ),
    {
        let archive = self.snapshot_segments();
        let ordered = ordered_segments(archive, &self.segments);
        let mut state = RunState::new(delete_limit);
        let ghost start = state@;
        match Self::prune_list(&mut self.store, &ordered, tip_block_number, &mut state) {
            Ok(()) => {},
            Err(error) => {
                proof {
                    assert(ordered@ == spec_archive_of(old(self)@.store) + old(self)@.segments);
                    let (count, outcomes) = choose|count: int, outcomes: Seq<PruneOutcome>|
                     #[trigger]
                        spec_stopped(
                            old(self).store,
                            self.store,
                            start,
                            ordered@,
                            tip_block_number,
                            count,
                            outcomes,
                        );
                    assert(spec_stopped(
                        old(self)@.store,
                        self@.store,
                        RunStateView::initial(delete_limit),
                        spec_archive_of(old(self)@.store) + old(self)@.segments,
                        tip_block_number,
                        count,
                        outcomes,
                    ));
                }
                return Err(error);
            },
        }
        proof {
            assert(ordered@ == spec_archive_of(old(self)@.store) + old(self)@.segments);
            assert(start == RunStateView::initial(delete_limit));
            let outcomes = choose|outcomes: Seq<PruneOutcome>| #[trigger]
                spec_pruned(
                    old(self).store,
                    self.store,
                    start,
                    state@,
                    ordered@,
                    tip_block_number,
                    outcomes,
                );
            let last = RunStateView {
                delete_limit: state.delete_limit,
                done: PruneProgress::spec_from_done(state.done).spec_is_finished(),
                stats: state.stats@,
            };
            assert(last == state@);
            assert(spec_pruned(
                old(self)@.store,
                self@.store,
                RunStateView::initial(delete_limit),
                last,
                spec_archive_of(old(self)@.store) + old(self)@.segments,
                tip_block_number,
                outcomes,
            ));
            if delete_limit == 0 || spec_no_target(ordered@, tip_block_number) {
                lemma_run_over_idle(
                    start,
                    spec_checkpoints_in::<S>(old(self)@.store.spec_shown()),
                    ordered@,
                    tip_block_number,
                    outcomes,
                );
            }
        }
        let progress = state.progress();
        Ok((state.stats, state.delete_limit, progress))
    }

    /// Runs the pruner at the given tip. The budget of the run,
    /// [`Pruner::run_delete_limit`], has to fit the machine word.
    ///
    /// At tip 0 there is nothing to prune: the tip is recorded and the run is
    /// finished, without a word to the store. Otherwise the run opens one write
    /// transaction, prunes the segments within its budget, commits, records the
    /// tip and emits one [`PrunerEvent::Finished`]. A run without a budget, and
    /// one in which no segment has a target, leaves what the store durably
    /// holds as it is. If anything fails after the transaction was opened, the
    /// transaction is rolled back; the error is returned, neither the recorded
    /// tip nor the events change, the store holds and shows what it durably
    /// held before, and it was handed no request for a segment after the one
    /// at which the run failed.
    pub fn run(&mut self, tip_block_number: BlockNumber) -> (result: PrunerResult)
        requires
            tip_block_number != 0 ==> old(self)@.run_delete_limit(tip_block_number) <= usize::MAX,
        ensures
            final(self)@.segments == old(self)@.segments,
            final(self)@.min_block_interval == old(self)@.min_block_interval,
            final(self)@.delete_limit == old(self)@.delete_limit,
            final(self)@.prune_max_blocks_per_run == old(self)@.prune_max_blocks_per_run,
            tip_block_number == 0 ==> result == Ok::<PruneProgress, PrunerError>(
                PruneProgress::Finished,
            ) && final(self)@ == (PrunerView {
                previous_tip_block_number: Some(tip_block_number),
                ..old(self)@
            }),
            result is Err ==> {
                &&& final(self)@.previous_tip_block_number == old(self)@.previous_tip_block_number
                &&& final(self)@.events == old(self)@.events
                &&& final(self)@.store.spec_durable() == old(self)@.store.spec_durable()
                &&& final(self)@.store.spec_shown() == final(self)@.store.spec_durable()
                &&& final(self)@.store.spec_requests()@ == old(self)@.store.spec_requests()@
                    || exists|count: int, outcomes: Seq<PruneOutcome>| #[trigger]
                    spec_run_stopped(
                        old(self)@.store,
                        final(self)@.store,
                        old(self)@.run_delete_limit(tip_block_number) as usize,
                        old(self)@.segments,
                        tip_block_number,
                        count,
                        outcomes,
                    )
            },
            result is Ok ==> final(self)@.previous_tip_block_number == Some(tip_block_number),
            tip_block_number != 0 && (old(self)@.run_delete_limit(tip_block_number) == 0
                || spec_no_target(
                spec_archive_of(old(self)@.store) + old(self)@.segments,
                tip_block_number,
            )) ==> {
                &&& final(self)@.store.spec_durable() == old(self)@.store.spec_durable()
                &&& final(self)@.store.spec_requests()@ == old(self)@.store.spec_requests()@
                &&& result matches Ok(progress) ==> progress == PruneProgress::Finished && final(self)@.events.last().spec_stats()@ == Map::<Category, SegmentStats>::empty()
            },
            tip_block_number != 0 ==> (result matches Ok(progress) ==> {
                &&& final(self)@.events.len() == old(self)@.events.len() + 1
                &&& final(self)@.events.drop_last() == old(self)@.events
                &&& final(self)@.events.last().spec_tip_block_number() == tip_block_number
                &&& exists|outcomes: Seq<PruneOutcome>| #[trigger]
                    spec_ran(
                        old(self)@.store,
                        final(self)@.store,
                        old(self)@.run_delete_limit(tip_block_number) as usize,
                        old(self)@.segments,
                        tip_block_number,
                        outcomes,
                        final(self)@.events.last().spec_stats()@,
                        progress,
                    )
            }),
    {
        if tip_block_number == 0 {
            self.previous_tip_block_number = Some(tip_block_number);
            return Ok(PruneProgress::Finished);
        }
        let delete_limit = self.run_delete_limit(tip_block_number);

        match self.store.begin_write() {
            Ok(()) => {},
            Err(error) => {
                return Err(error);
            },
        }
        let ghost opened = self@.store;
        proof {
            assert(spec_archive_of(opened) == spec_archive_of(old(self)@.store));
        }
        let (stats, remaining, progress) = match self.prune_segments(tip_block_number, delete_limit) {
            Ok(report) => report,
            Err(error) => {
                let ghost failed = self@.store;
                self.store.rollback();
                proof {
                    let (count, outcomes) = choose|count: int, outcomes: Seq<PruneOutcome>|
                     #[trigger]
                        spec_stopped(
                            opened,
                            failed,
                            RunStateView::initial(delete_limit),
                            spec_archive_of(opened) + old(self)@.segments,
                            tip_block_number,
                            count,
                            outcomes,
                        );
                    assert(spec_run_stopped(
                        old(self)@.store,
                        self@.store,
                        old(self)@.run_delete_limit(tip_block_number) as usize,
                        old(self)@.segments,
                        tip_block_number,
                        count,
                        outcomes,
                    ));
                }
                return Err(error);
            },
        };
        let ghost pruned = self@.store;
        match self.store.commit() {
            Ok(()) => {},
            Err(error) => {
                self.store.rollback();
                proof {
                    let last = RunStateView {
                        delete_limit: remaining,
                        done: progress.spec_is_finished(),
                        stats: stats@,
                    };
                    let ordered = spec_archive_of(opened) + old(self)@.segments;
                    let outcomes = choose|outcomes: Seq<PruneOutcome>| #[trigger]
                        spec_pruned(
                            opened,
                            pruned,
                            RunStateView::initial(delete_limit),
                            last,
                            ordered,
                            tip_block_number,
                            outcomes,
                        );
                    assert(ordered.take(ordered.len() as int) =~= ordered);
                    assert(spec_run_stopped(
                        old(self)@.store,
                        self@.store,
                        old(self)@.run_delete_limit(tip_block_number) as usize,
                        old(self)@.segments,
                        tip_block_number,
                        ordered.len() as int,
                        outcomes,
                    ));
                }
                return Err(error);
            },
        }
        self.previous_tip_block_number = Some(tip_block_number);
        self.events.push(PrunerEvent::Finished { tip_block_number, stats });
        proof {
            let last = RunStateView {
                delete_limit: remaining,
                done: progress.spec_is_finished(),
                stats: stats@,
            };
            let outcomes = choose|outcomes: Seq<PruneOutcome>| #[trigger]
                spec_pruned(
                    opened,
                    pruned,
                    RunStateView::initial(delete_limit),
                    last,
                    spec_archive_of(opened) + old(self)@.segments,
                    tip_block_number,
                    outcomes,
                );
            lemma_committed(
                old(self)@.store,
                opened,
                pruned,
                self@.store,
                delete_limit,
                old(self)@.segments,
                tip_block_number,
                outcomes,
                last,
            );
            assert(progress == PruneProgress::spec_from_done(last.done));
            assert(self@.events.last() == (PrunerEvent::Finished { tip_block_number, stats }));
            assert(delete_limit == old(self)@.run_delete_limit(tip_block_number) as usize);
            assert(spec_ran(
                old(self)@.store,
                self@.store,
                old(self)@.run_delete_limit(tip_block_number) as usize,
                old(self)@.segments,
                tip_block_number,
                outcomes,
                self@.events.last().spec_stats()@,
                progress,
            ));
        }
        Ok(progress)
    }
}

/// A run that opened the transaction, pruned the segments and committed has run
/// as [`spec_ran`] says.
proof fn lemma_committed<S: Store>(
    before: S,
    opened: S,
    pruned: S,
    after: S,
    budget: usize,
    configured: Seq<Segment>,
    tip: BlockNumber,
    outcomes: Seq<PruneOutcome>,
    last: RunStateView,
)
    requires
        opened.spec_durable() == before.spec_durable(),
        opened.spec_shown() == opened.spec_durable(),
        opened.spec_requests()@ == before.spec_requests()@,
        forall|category: Category| #[trigger]
            opened.spec_highest_archived_block(category) == before.spec_highest_archived_block(
                category,
            ),
        spec_pruned(
            opened,
            pruned,
            RunStateView::initial(budget),
            last,
            spec_archive_of(opened) + configured,
            tip,
            outcomes,
        ),
        after.spec_durable() == pruned.spec_shown(),
        after.spec_shown() == pruned.spec_shown(),
        after.spec_requests()@ == pruned.spec_requests()@,
    ensures
        spec_ran(
            before,
            after,
            budget,
            configured,
            tip,
            outcomes,
            last.stats,
            PruneProgress::spec_from_done(last.done),
        ),
{
    assert(spec_archive_of(opened) == spec_archive_of(before));
    assert forall|category: Category| #[trigger]
        spec_durable_checkpoint(after, category) == RunStateView::initial(budget).checkpoint_after(
            spec_durable_checkpoint(before, category),
            category,
            spec_archive_of(before) + configured,
            tip,
            outcomes,
        ) by {
        assert(spec_checkpoint(pruned, category) == RunStateView::initial(budget).checkpoint_after(
            spec_checkpoint(opened, category),
            category,
            spec_archive_of(opened) + configured,
            tip,
            outcomes,
        ));
    }
}

} // verus!
