use std::collections::HashMap;

use reth_prune::prune::{
    BlockNumber, Category, Checkpoint, PruneOutcome, PruneProgress, PruneRequest, Pruner,
    PrunerError, PrunerEvent, RetentionPolicy, RunState, Segment, SegmentStats, Store,
};

/// What a store in memory holds: for each category the blocks that still have
/// an entry, and the checkpoints.
#[derive(Clone, Debug, Default, PartialEq)]
struct Contents {
    entries: HashMap<Category, Vec<BlockNumber>>,
    checkpoints: HashMap<Category, Checkpoint>,
}

/// A store in memory with one write transaction, which records every call.
#[derive(Debug, Default)]
struct MemoryStore {
    committed: Contents,
    open: Option<Contents>,
    archived: HashMap<Category, BlockNumber>,
    fail_begin: Option<PrunerError>,
    fail_commit: Option<PrunerError>,
    fail_prune: HashMap<Category, PrunerError>,
    fail_get: HashMap<Category, PrunerError>,
    fail_put: HashMap<Category, PrunerError>,
    misreport: HashMap<Category, PruneOutcome>,
    requests: Vec<(Category, PruneRequest)>,
    saved: Vec<(Category, Checkpoint)>,
    calls: Vec<String>,
}

impl MemoryStore {
    fn with_entries(category: Category, blocks: std::ops::RangeInclusive<BlockNumber>) -> Self {
        MemoryStore::default().and_entries(category, blocks, 1)
    }

    fn and_entries(
        mut self,
        category: Category,
        blocks: std::ops::RangeInclusive<BlockNumber>,
        per_block: usize,
    ) -> Self {
        let entries = blocks.flat_map(|block| std::iter::repeat(block).take(per_block)).collect();
        self.committed.entries.insert(category, entries);
        self
    }

    fn and_archived(mut self, category: Category, block: BlockNumber) -> Self {
        self.archived.insert(category, block);
        self
    }

    fn entries(&self, category: Category) -> Vec<BlockNumber> {
        self.committed.entries.get(&category).cloned().unwrap_or_default()
    }
}

impl Store for MemoryStore {
    type Contents = Contents;

    fn spec_durable(&self) -> Contents {
        self.committed.clone()
    }

    fn spec_shown(&self) -> Contents {
        self.open.clone().unwrap_or_else(|| self.committed.clone())
    }

    fn spec_checkpoint_in(contents: Contents, category: Category) -> Option<Checkpoint> {
        contents.checkpoints.get(&category).copied()
    }

    fn spec_highest_archived_block(&self, category: Category) -> Option<BlockNumber> {
        self.archived.get(&category).copied()
    }

    fn spec_requests(&self) -> Vec<(Category, PruneRequest)> {
        self.requests.clone()
    }

    fn begin_write(&mut self) -> Result<(), PrunerError> {
        self.calls.push("begin_write".to_string());
        if let Some(error) = self.fail_begin {
            self.open = None;
            return Err(error);
        }
        self.open = Some(self.committed.clone());
        Ok(())
    }

    fn commit(&mut self) -> Result<(), PrunerError> {
        self.calls.push("commit".to_string());
        if let Some(error) = self.fail_commit {
            return Err(error);
        }
        self.committed = self.open.take().expect("a transaction is open");
        Ok(())
    }

    fn rollback(&mut self) {
        self.calls.push("rollback".to_string());
        self.open = None;
    }

    fn highest_archived_block(&self, category: Category) -> Option<BlockNumber> {
        self.archived.get(&category).copied()
    }

    fn get_checkpoint(&self, category: Category) -> Result<Option<Checkpoint>, PrunerError> {
        if let Some(error) = self.fail_get.get(&category) {
            return Err(*error);
        }
        let contents = self.open.as_ref().unwrap_or(&self.committed);
        Ok(contents.checkpoints.get(&category).copied())
    }

    fn put_checkpoint(
        &mut self,
        category: Category,
        checkpoint: Checkpoint,
    ) -> Result<(), PrunerError> {
        self.calls.push(format!("put_checkpoint {:?}", category));
        if let Some(error) = self.fail_put.get(&category) {
            return Err(*error);
        }
        self.saved.push((category, checkpoint));
        let committed = &self.committed;
        let contents = self.open.get_or_insert_with(|| committed.clone());
        contents.checkpoints.insert(category, checkpoint);
        Ok(())
    }

    fn prune(
        &mut self,
        category: Category,
        request: PruneRequest,
    ) -> Result<PruneOutcome, PrunerError> {
        self.calls.push(format!("prune {:?}", category));
        self.requests.push((category, request));
        if let Some(error) = self.fail_prune.get(&category) {
            return Err(*error);
        }
        let committed = &self.committed;
        let contents = self.open.get_or_insert_with(|| committed.clone());
        let entries = contents.entries.entry(category).or_default();
        let mut pruned_count = 0;
        let mut last = None;
        while pruned_count < request.delete_limit {
            match entries.first() {
                Some(block) if *block <= request.target_block => {
                    last = Some(*block);
                    entries.remove(0);
                    pruned_count += 1;
                }
                _ => break,
            }
        }
        if let Some(outcome) = self.misreport.get(&category) {
            return Ok(*outcome);
        }
        let done = entries.first().map_or(true, |block| *block > request.target_block);
        let new_checkpoint = match (last, done) {
            (_, true) => Some(Checkpoint {
                category,
                block_number: request.target_block,
                position: None,
            }),
            (Some(block), false) => Some(Checkpoint { category, block_number: block, position: None }),
            (None, false) => None,
        };
        Ok(PruneOutcome { pruned_count, done, new_checkpoint })
    }
}

fn keep_last(category: Category, distance: u64) -> Segment {
    Segment::new(category, Some(RetentionPolicy::KeepLast(distance)))
}

fn finished_stats(event: &PrunerEvent) -> (BlockNumber, Vec<(Category, SegmentStats)>) {
    let PrunerEvent::Finished { tip_block_number, stats } = event;
    (*tip_block_number, stats.entries())
}

#[test]
fn is_pruning_needed() {
    let provider_factory = MemoryStore::default();
    let mut pruner = Pruner::new(provider_factory, vec![], 5, 0, 5);

    // No last pruned block number was set before
    let first_block_number = 1;
    assert!(pruner.is_pruning_needed(first_block_number));
    assert_eq!(pruner.run(first_block_number), Ok(PruneProgress::Finished));
    assert_eq!(pruner.previous_tip_block_number(), Some(first_block_number));

    // Tip block number delta is >= than min block interval
    let second_block_number = first_block_number + pruner.min_block_interval() as u64;
    assert!(pruner.is_pruning_needed(second_block_number));
    assert_eq!(pruner.run(second_block_number), Ok(PruneProgress::Finished));
    assert_eq!(pruner.previous_tip_block_number(), Some(second_block_number));

    // Tip block number delta is < than min block interval
    let third_block_number = second_block_number;
    assert!(!pruner.is_pruning_needed(third_block_number));
}

#[test]
fn first_call_is_always_scheduled() {
    let pruner = Pruner::new(MemoryStore::default(), vec![], 5, 0, 5);
    assert!(pruner.is_pruning_needed(0));
    assert!(pruner.is_pruning_needed(1));
    assert!(pruner.is_pruning_needed(u64::MAX));
    let lazy = Pruner::new(MemoryStore::default(), vec![], usize::MAX, 0, 5);
    assert!(lazy.is_pruning_needed(0));
}

#[test]
fn scenario_fresh_pruner_without_segments() {
    let mut pruner = Pruner::new(MemoryStore::default(), vec![], 5, 0, 5);
    assert!(pruner.is_pruning_needed(1));
    assert_eq!(pruner.run(1), Ok(PruneProgress::Finished));
    assert_eq!(pruner.previous_tip_block_number(), Some(1));
    assert!(pruner.is_pruning_needed(1 + 5));
    assert!(!pruner.is_pruning_needed(4));
    assert!(!pruner.is_pruning_needed(5));
    assert!(pruner.store().requests.is_empty());
}

#[test]
fn regressed_tip_is_scheduled_and_has_no_budget() {
    let store = MemoryStore::with_entries(Category::Receipts, 1..=50);
    let segments = vec![Segment::new(Category::Receipts, Some(RetentionPolicy::KeepNone))];
    let mut pruner = Pruner::new(store, segments, 5, 10, 100);
    assert_eq!(pruner.run(20), Ok(PruneProgress::Partial));
    assert_eq!(pruner.store().entries(Category::Receipts).len(), 40);
    pruner.events();

    assert!(pruner.is_pruning_needed(12));
    assert_eq!(pruner.run_delete_limit(12), 0);
    assert_eq!(pruner.run(12), Ok(PruneProgress::Finished));
    assert_eq!(pruner.previous_tip_block_number(), Some(12));
    assert_eq!(pruner.store().entries(Category::Receipts).len(), 40);
    assert_eq!(pruner.store().requests.len(), 1);
    let events = pruner.events();
    assert_eq!(events.len(), 1);
    assert_eq!(finished_stats(&events[0]), (12, vec![]));
}

#[test]
fn genesis_tip_touches_nothing() {
    let store = MemoryStore::with_entries(Category::Headers, 0..=10);
    let segments = vec![Segment::new(Category::Headers, Some(RetentionPolicy::KeepNone))];
    let mut pruner = Pruner::new(store, segments, 5, 10, 100);
    assert_eq!(pruner.run(0), Ok(PruneProgress::Finished));
    assert_eq!(pruner.previous_tip_block_number(), Some(0));
    assert!(pruner.store().calls.is_empty());
    assert!(pruner.events().is_empty());
    assert_eq!(pruner.store().entries(Category::Headers).len(), 11);
}

#[test]
fn scenario_not_enough_history() {
    let store = MemoryStore::with_entries(Category::Receipts, 1..=500);
    let mut pruner = Pruner::new(store, vec![keep_last(Category::Receipts, 1000)], 5, 10, 100);
    assert_eq!(pruner.segments()[0].target_block(500), None);
    assert_eq!(pruner.run(500), Ok(PruneProgress::Finished));
    assert!(pruner.store().requests.is_empty());
    assert_eq!(pruner.store().entries(Category::Receipts).len(), 500);
    let events = pruner.events();
    assert_eq!(events.len(), 1);
    assert_eq!(finished_stats(&events[0]), (500, vec![]));
    assert_eq!(pruner.store().calls, vec!["begin_write".to_string(), "commit".to_string()]);
}

#[test]
fn scenario_budget_of_an_advance() {
    // Three entries in each of the blocks 1 to 100: a backlog of 300.
    let store = MemoryStore::default().and_entries(Category::Receipts, 1..=100, 3);
    let mut pruner = Pruner::new(store, vec![keep_last(Category::Receipts, 1000)], 5, 10, 50);
    assert_eq!(pruner.run(1000), Ok(PruneProgress::Finished));
    assert!(pruner.store().requests.is_empty());
    pruner.events();

    assert_eq!(pruner.run_delete_limit(1100), 500);
    assert_eq!(pruner.run(1100), Ok(PruneProgress::Finished));
    assert_eq!(pruner.previous_tip_block_number(), Some(1100));
    assert_eq!(
        pruner.store().requests,
        vec![(
            Category::Receipts,
            PruneRequest { previous_checkpoint: None, target_block: 100, delete_limit: 500 }
        )]
    );
    assert!(pruner.store().entries(Category::Receipts).is_empty());
    assert_eq!(
        pruner.store().committed.checkpoints.get(&Category::Receipts),
        Some(&Checkpoint { category: Category::Receipts, block_number: 100, position: None })
    );
    let events = pruner.events();
    assert_eq!(events.len(), 1);
    assert_eq!(
        finished_stats(&events[0]),
        (
            1100,
            vec![(
                Category::Receipts,
                SegmentStats { progress: PruneProgress::Finished, deleted_count: 300 }
            )]
        )
    );
}

#[test]
fn prune_segments_reports_what_is_left_of_the_budget() {
    let store = MemoryStore::default().and_entries(Category::Receipts, 1..=100, 3);
    let mut pruner = Pruner::new(store, vec![keep_last(Category::Receipts, 1000)], 5, 10, 50);
    let (stats, remaining, progress) = pruner.prune_segments(1100, 500).unwrap();
    assert_eq!(remaining, 200);
    assert_eq!(progress, PruneProgress::Finished);
    assert_eq!(stats.len(), 1);
    assert_eq!(
        stats.get(Category::Receipts),
        Some(SegmentStats { progress: PruneProgress::Finished, deleted_count: 300 })
    );
    assert_eq!(stats.get(Category::Headers), None);
    // Nothing was recorded by the pruner itself.
    assert_eq!(pruner.previous_tip_block_number(), None);
    assert!(pruner.events().is_empty());
}

#[test]
fn prune_segments_without_budget_asks_nothing() {
    let store = MemoryStore::with_entries(Category::Receipts, 1..=10)
        .and_archived(Category::Headers, 5);
    let segments = vec![Segment::new(Category::Receipts, Some(RetentionPolicy::KeepNone))];
    let mut pruner = Pruner::new(store, segments, 5, 10, 50);
    let (stats, remaining, progress) = pruner.prune_segments(100, 0).unwrap();
    assert!(stats.is_empty());
    assert_eq!(stats.len(), 0);
    assert_eq!(remaining, 0);
    assert_eq!(progress, PruneProgress::Finished);
    assert!(pruner.store().requests.is_empty());
    assert!(pruner.store().calls.is_empty());
}

#[test]
fn scenario_error_rolls_everything_back() {
    let mut store = MemoryStore::with_entries(Category::Headers, 1..=20)
        .and_entries(Category::Receipts, 1..=20, 1);
    store.fail_prune.insert(Category::Receipts, PrunerError::Segment(Category::Receipts));
    let segments = vec![
        Segment::new(Category::Headers, Some(RetentionPolicy::KeepNone)),
        Segment::new(Category::Receipts, Some(RetentionPolicy::KeepNone)),
    ];
    let mut pruner = Pruner::new(store, segments, 5, 100, 50);
    assert_eq!(pruner.run(30), Err(PrunerError::Segment(Category::Receipts)));

    // The first segment did write in the transaction.
    assert_eq!(pruner.store().saved.len(), 1);
    assert_eq!(pruner.store().saved[0].0, Category::Headers);
    // Nothing of it is left.
    assert_eq!(pruner.store().committed.checkpoints.get(&Category::Headers), None);
    assert_eq!(pruner.store().committed.checkpoints.get(&Category::Receipts), None);
    assert_eq!(pruner.store().entries(Category::Headers).len(), 20);
    assert_eq!(pruner.store().entries(Category::Receipts).len(), 20);
    assert!(pruner.store().open.is_none());
    assert_eq!(
        pruner.store().calls,
        vec![
            "begin_write".to_string(),
            "prune Headers".to_string(),
            "put_checkpoint Headers".to_string(),
            "prune Receipts".to_string(),
            "rollback".to_string(),
        ]
    );
    // The run left no trace in the pruner either.
    assert_eq!(pruner.previous_tip_block_number(), None);
    assert!(pruner.events().is_empty());
    // The next attempt has the budget that the failed one had.
    assert_eq!(pruner.run_delete_limit(30), 100);
}

#[test]
fn store_errors_end_the_run() {
    let mut store = MemoryStore::with_entries(Category::Headers, 1..=20);
    store.fail_begin = Some(PrunerError::Store(-30783));
    let segments = vec![Segment::new(Category::Headers, Some(RetentionPolicy::KeepNone))];
    let mut pruner = Pruner::new(store, segments, 5, 10, 50);
    assert_eq!(pruner.run(30), Err(PrunerError::Store(-30783)));
    assert_eq!(pruner.store().calls, vec!["begin_write".to_string()]);
    assert_eq!(pruner.previous_tip_block_number(), None);

    let mut store = MemoryStore::with_entries(Category::Headers, 1..=20);
    store.fail_commit = Some(PrunerError::Store(5));
    let segments = vec![Segment::new(Category::Headers, Some(RetentionPolicy::KeepNone))];
    let mut pruner = Pruner::new(store, segments, 5, 10, 50);
    assert_eq!(pruner.run(30), Err(PrunerError::Store(5)));
    assert_eq!(pruner.store().calls.last(), Some(&"rollback".to_string()));
    assert_eq!(pruner.store().entries(Category::Headers).len(), 20);
    assert_eq!(pruner.previous_tip_block_number(), None);
    assert!(pruner.events().is_empty());

    let mut store = MemoryStore::with_entries(Category::Headers, 1..=20);
    store.fail_get.insert(Category::Headers, PrunerError::Store(7));
    let segments = vec![Segment::new(Category::Headers, Some(RetentionPolicy::KeepNone))];
    let mut pruner = Pruner::new(store, segments, 5, 10, 50);
    assert_eq!(pruner.run(30), Err(PrunerError::Store(7)));
    assert!(pruner.store().requests.is_empty());

    let mut store = MemoryStore::with_entries(Category::Headers, 1..=20);
    store.fail_put.insert(Category::Headers, PrunerError::Store(9));
    let segments = vec![Segment::new(Category::Headers, Some(RetentionPolicy::KeepNone))];
    let mut pruner = Pruner::new(store, segments, 5, 10, 50);
    assert_eq!(pruner.run(30), Err(PrunerError::Store(9)));
    assert_eq!(pruner.store().entries(Category::Headers).len(), 20);
    assert_eq!(pruner.previous_tip_block_number(), None);
}

#[test]
fn malformed_policy_switches_off_its_segment_only() {
    let store = MemoryStore::with_entries(Category::AccountHistory, 1..=20)
        .and_entries(Category::Receipts, 1..=20, 1);
    let segments = vec![
        Segment::new(Category::AccountHistory, Some(RetentionPolicy::KeepBeforeOrAt(10))),
        Segment::new(Category::Receipts, Some(RetentionPolicy::KeepBeforeOrAt(10))),
    ];
    assert_eq!(
        RetentionPolicy::KeepBeforeOrAt(10).target_block(30, Category::AccountHistory),
        Err(PrunerError::Config(Category::AccountHistory))
    );
    assert_eq!(segments[0].target_block(30), None);
    let mut pruner = Pruner::new(store, segments, 5, 100, 50);
    assert_eq!(pruner.run(30), Ok(PruneProgress::Finished));
    assert_eq!(pruner.store().entries(Category::AccountHistory).len(), 20);
    assert_eq!(pruner.store().entries(Category::Receipts).len(), 10);
    let events = pruner.events();
    assert_eq!(
        finished_stats(&events[0]),
        (
            30,
            vec![(
                Category::Receipts,
                SegmentStats { progress: PruneProgress::Finished, deleted_count: 10 }
            )]
        )
    );
}

#[test]
fn archive_segments_come_first_and_share_the_budget() {
    let store = MemoryStore::with_entries(Category::Headers, 1..=100)
        .and_entries(Category::Transactions, 1..=100, 1)
        .and_entries(Category::Receipts, 1..=100, 1)
        .and_entries(Category::SenderRecovery, 1..=100, 1)
        .and_archived(Category::Receipts, 30)
        .and_archived(Category::Headers, 20);
    let segments = vec![
        keep_last(Category::SenderRecovery, 60),
        Segment::new(Category::Headers, Some(RetentionPolicy::KeepNone)),
    ];
    let mut pruner = Pruner::new(store, segments, 5, 65, 50);
    assert_eq!(
        pruner.snapshot_segments(),
        vec![
            Segment::new(Category::Headers, Some(RetentionPolicy::KeepBeforeOrAt(20))),
            Segment::new(Category::Receipts, Some(RetentionPolicy::KeepBeforeOrAt(30))),
        ]
    );
    // First run: one block counts, so 65 entries may go.
    assert_eq!(pruner.run(100), Ok(PruneProgress::Partial));
    let requests = &pruner.store().requests;
    assert_eq!(requests.len(), 3);
    assert_eq!(
        requests[0],
        (
            Category::Headers,
            PruneRequest { previous_checkpoint: None, target_block: 20, delete_limit: 65 }
        )
    );
    assert_eq!(
        requests[1],
        (
            Category::Receipts,
            PruneRequest { previous_checkpoint: None, target_block: 30, delete_limit: 45 }
        )
    );
    // The budget ends with this segment: the configured headers segment has
    // to wait for a later run.
    assert_eq!(
        requests[2],
        (
            Category::SenderRecovery,
            PruneRequest { previous_checkpoint: None, target_block: 40, delete_limit: 15 }
        )
    );
    let events = pruner.events();
    assert_eq!(
        finished_stats(&events[0]),
        (
            100,
            vec![
                (
                    Category::Headers,
                    SegmentStats { progress: PruneProgress::Finished, deleted_count: 20 }
                ),
                (
                    Category::Receipts,
                    SegmentStats { progress: PruneProgress::Finished, deleted_count: 30 }
                ),
                (
                    Category::SenderRecovery,
                    SegmentStats { progress: PruneProgress::Partial, deleted_count: 15 }
                ),
            ]
        )
    );
}

#[test]
fn later_segment_of_a_category_replaces_the_statistics() {
    let store =
        MemoryStore::with_entries(Category::Headers, 1..=100).and_archived(Category::Headers, 20);
    let segments = vec![Segment::new(Category::Headers, Some(RetentionPolicy::KeepNone))];
    let mut pruner = Pruner::new(store, segments, 5, 50, 50);
    assert_eq!(pruner.run(100), Ok(PruneProgress::Partial));
    let requests = &pruner.store().requests;
    assert_eq!(requests.len(), 2);
    assert_eq!(
        requests[1],
        (
            Category::Headers,
            PruneRequest {
                previous_checkpoint: Some(Checkpoint {
                    category: Category::Headers,
                    block_number: 20,
                    position: None
                }),
                target_block: 100,
                delete_limit: 30
            }
        )
    );
    let events = pruner.events();
    assert_eq!(
        finished_stats(&events[0]),
        (
            100,
            vec![(
                Category::Headers,
                SegmentStats { progress: PruneProgress::Partial, deleted_count: 30 }
            )]
        )
    );
    assert_eq!(
        pruner.store().committed.checkpoints.get(&Category::Headers),
        Some(&Checkpoint { category: Category::Headers, block_number: 50, position: None })
    );
}

#[test]
fn successive_runs_use_the_advance_of_the_tip() {
    let store = MemoryStore::with_entries(Category::Transactions, 1..=10_000);
    let segments = vec![Segment::new(Category::Transactions, Some(RetentionPolicy::KeepNone))];
    let mut pruner = Pruner::new(store, segments, 5, 7, 50);
    assert_eq!(pruner.run_delete_limit(1000), 7);
    assert_eq!(pruner.run(1000), Ok(PruneProgress::Partial));
    assert_eq!(pruner.run_delete_limit(1020), 7 * 20);
    assert_eq!(pruner.run(1020), Ok(PruneProgress::Partial));
    assert_eq!(pruner.previous_tip_block_number(), Some(1020));
    assert_eq!(pruner.run_delete_limit(1100), 7 * 50);
    assert_eq!(pruner.run(1100), Ok(PruneProgress::Partial));
    assert_eq!(pruner.previous_tip_block_number(), Some(1100));
    let limits: Vec<usize> =
        pruner.store().requests.iter().map(|(_, request)| request.delete_limit).collect();
    assert_eq!(limits, vec![7, 140, 350]);
    assert_eq!(pruner.store().entries(Category::Transactions).len(), 10_000 - 7 - 140 - 350);
    // Each run resumes from the checkpoint of the one before.
    assert_eq!(pruner.store().requests[1].1.previous_checkpoint.unwrap().block_number, 7);
    assert_eq!(pruner.store().requests[2].1.previous_checkpoint.unwrap().block_number, 147);
}

#[test]
fn second_run_at_the_same_tip_deletes_nothing() {
    let store = MemoryStore::with_entries(Category::Receipts, 1..=40);
    let segments = vec![keep_last(Category::Receipts, 10)];
    let mut pruner = Pruner::new(store, segments, 5, 100, 50);
    assert_eq!(pruner.run(50), Ok(PruneProgress::Finished));
    assert_eq!(pruner.store().entries(Category::Receipts).len(), 0);
    assert_eq!(pruner.store().requests.len(), 1);
    pruner.events();

    assert_eq!(pruner.run(50), Ok(PruneProgress::Finished));
    assert_eq!(pruner.store().requests.len(), 1);
    assert_eq!(pruner.previous_tip_block_number(), Some(50));
    let events = pruner.events();
    assert_eq!(finished_stats(&events[0]), (50, vec![]));
}

#[test]
fn events_are_handed_out_once() {
    let mut pruner = Pruner::new(MemoryStore::default(), vec![], 5, 1, 5);
    assert!(pruner.events().is_empty());
    assert_eq!(pruner.run(3), Ok(PruneProgress::Finished));
    assert_eq!(pruner.run(9), Ok(PruneProgress::Finished));
    let events = pruner.events();
    assert_eq!(events.len(), 2);
    assert_eq!(finished_stats(&events[0]), (3, vec![]));
    assert_eq!(finished_stats(&events[1]), (9, vec![]));
    assert!(pruner.events().is_empty());
}

#[test]
fn disabled_segment_is_skipped() {
    let store = MemoryStore::with_entries(Category::Receipts, 1..=40);
    let segments = vec![
        Segment::new(Category::Receipts, None),
        Segment::new(Category::Receipts, Some(RetentionPolicy::KeepAll)),
    ];
    let mut pruner = Pruner::new(store, segments, 5, 100, 50);
    assert_eq!(pruner.run(50), Ok(PruneProgress::Finished));
    assert!(pruner.store().requests.is_empty());
    assert_eq!(pruner.store().entries(Category::Receipts).len(), 40);
}

#[test]
fn constructor_keeps_the_configuration() {
    let segments = vec![keep_last(Category::Receipts, 10)];
    let pruner = Pruner::new(MemoryStore::default(), segments.clone(), 5, 100, 50);
    assert_eq!(pruner.segments(), &segments);
    assert_eq!(pruner.min_block_interval(), 5);
    assert_eq!(pruner.delete_limit(), 100);
    assert_eq!(pruner.prune_max_blocks_per_run(), 50);
    assert_eq!(pruner.previous_tip_block_number(), None);

    // The limits may be as large as the machine word: what has to fit is the
    // budget of the run at hand.
    let mut pruner = Pruner::new(MemoryStore::default(), vec![], 5, usize::MAX, 2);
    assert_eq!(pruner.delete_limit(), usize::MAX);
    assert_eq!(pruner.checked_run_delete_limit(7), Some(usize::MAX));
    assert_eq!(pruner.run_delete_limit(7), usize::MAX);
    assert_eq!(pruner.run(7), Ok(PruneProgress::Finished));
    assert_eq!(pruner.checked_run_delete_limit(8), Some(usize::MAX));
    assert_eq!(pruner.checked_run_delete_limit(9), None);
    assert_eq!(pruner.checked_run_delete_limit(7), Some(0));
    assert_eq!(pruner.checked_run_delete_limit(3), Some(0));
}

#[test]
fn report_of_too_many_deletions_uses_up_the_budget() {
    let mut store = MemoryStore::with_entries(Category::Receipts, 1..=20)
        .and_entries(Category::Headers, 1..=20, 1);
    store.misreport.insert(
        Category::Receipts,
        PruneOutcome { pruned_count: 11, done: false, new_checkpoint: None },
    );
    let segments = vec![
        Segment::new(Category::Receipts, Some(RetentionPolicy::KeepNone)),
        Segment::new(Category::Headers, Some(RetentionPolicy::KeepNone)),
    ];
    let mut pruner = Pruner::new(store, segments, 5, 10, 50);
    assert_eq!(pruner.run(30), Ok(PruneProgress::Partial));
    // Nothing is left for the segment that follows.
    assert_eq!(pruner.store().requests.len(), 1);
    assert_eq!(pruner.store().entries(Category::Headers).len(), 20);
    assert_eq!(pruner.previous_tip_block_number(), Some(30));
    let events = pruner.events();
    assert_eq!(
        finished_stats(&events[0]),
        (
            30,
            vec![(
                Category::Receipts,
                SegmentStats { progress: PruneProgress::Partial, deleted_count: 11 }
            )]
        )
    );
}

#[test]
fn checkpoint_past_the_target_is_never_stored() {
    let mut store = MemoryStore::with_entries(Category::Receipts, 1..=20);
    store.misreport.insert(
        Category::Receipts,
        PruneOutcome {
            pruned_count: 3,
            done: true,
            new_checkpoint: Some(Checkpoint {
                category: Category::Receipts,
                block_number: 21,
                position: None,
            }),
        },
    );
    let segments = vec![keep_last(Category::Receipts, 10)];
    let mut pruner = Pruner::new(store, segments, 5, 10, 50);
    assert_eq!(pruner.segments()[0].target_block(30), Some(20));
    assert_eq!(pruner.run(30), Err(PrunerError::Segment(Category::Receipts)));
    assert!(pruner.store().saved.is_empty());
    assert_eq!(pruner.store().committed.checkpoints.get(&Category::Receipts), None);
    assert_eq!(pruner.store().calls.last(), Some(&"rollback".to_string()));
    assert_eq!(pruner.previous_tip_block_number(), None);
}

#[test]
fn report_at_the_limit_and_at_the_target_is_taken() {
    let mut store = MemoryStore::with_entries(Category::Receipts, 1..=20);
    let checkpoint = Checkpoint { category: Category::Receipts, block_number: 20, position: Some(4) };
    store.misreport.insert(
        Category::Receipts,
        PruneOutcome { pruned_count: 10, done: false, new_checkpoint: Some(checkpoint) },
    );
    let segments = vec![keep_last(Category::Receipts, 10)];
    let mut pruner = Pruner::new(store, segments, 5, 10, 50);
    assert_eq!(pruner.run(30), Ok(PruneProgress::Partial));
    assert_eq!(pruner.store().saved, vec![(Category::Receipts, checkpoint)]);
    assert_eq!(pruner.store().committed.checkpoints.get(&Category::Receipts), Some(&checkpoint));
}

#[test]
fn segment_passes_its_category_and_the_request_to_the_store() {
    let mut store = MemoryStore::with_entries(Category::Headers, 1..=20)
        .and_entries(Category::Receipts, 1..=20, 1);
    let segment = Segment::new(Category::Headers, Some(RetentionPolicy::KeepNone));
    let request = PruneRequest { previous_checkpoint: None, target_block: 8, delete_limit: 5 };
    let checkpoint = Checkpoint { category: Category::Headers, block_number: 5, position: None };
    assert_eq!(
        segment.prune(&mut store, request),
        Ok(PruneOutcome { pruned_count: 5, done: false, new_checkpoint: Some(checkpoint) })
    );
    assert_eq!(store.requests, vec![(Category::Headers, request)]);
    assert_eq!(segment.save_checkpoint(&mut store, checkpoint), Ok(()));
    assert_eq!(store.saved, vec![(Category::Headers, checkpoint)]);

    store.fail_prune.insert(Category::Headers, PrunerError::Store(2));
    assert_eq!(segment.prune(&mut store, request), Err(PrunerError::Store(2)));
    store.fail_put.insert(Category::Headers, PrunerError::Store(4));
    assert_eq!(segment.save_checkpoint(&mut store, checkpoint), Err(PrunerError::Store(4)));
}

#[test]
fn one_segment_is_pruned_in_one_step() {
    let mut store = MemoryStore::with_entries(Category::Headers, 1..=20);
    let shown = Checkpoint { category: Category::Headers, block_number: 2, position: None };
    store.committed.checkpoints.insert(Category::Headers, shown);
    let mut state = RunState::new(5);
    let segment = keep_last(Category::Headers, 10);

    // No target: nothing is asked of the store.
    assert_eq!(Pruner::prune_segment(&mut store, segment, 10, &mut state), Ok(None));
    assert!(store.calls.is_empty());
    assert_eq!(state, RunState::new(5));

    // A target: the store is handed the checkpoint it shows, the target and
    // what is left of the budget, and the checkpoint it reports is stored.
    let reported = Checkpoint { category: Category::Headers, block_number: 5, position: None };
    assert_eq!(
        Pruner::prune_segment(&mut store, segment, 18, &mut state),
        Ok(Some(PruneOutcome { pruned_count: 5, done: false, new_checkpoint: Some(reported) }))
    );
    assert_eq!(
        store.requests,
        vec![(
            Category::Headers,
            PruneRequest { previous_checkpoint: Some(shown), target_block: 8, delete_limit: 5 }
        )]
    );
    assert_eq!(store.saved, vec![(Category::Headers, reported)]);
    assert_eq!(state.delete_limit, 0);
    assert!(!state.done);

    // The first error ends the step and leaves the state of the run alone.
    let mut state = RunState::new(7);
    store.fail_get.insert(Category::Headers, PrunerError::Store(11));
    assert_eq!(
        Pruner::prune_segment(&mut store, segment, 18, &mut state),
        Err(PrunerError::Store(11))
    );
    assert_eq!(store.requests.len(), 1);
    assert_eq!(state, RunState::new(7));
    store.fail_get.clear();
    store.fail_put.insert(Category::Headers, PrunerError::Store(12));
    assert_eq!(
        Pruner::prune_segment(&mut store, segment, 18, &mut state),
        Err(PrunerError::Store(12))
    );
    assert_eq!(store.requests.len(), 2);
    assert_eq!(state, RunState::new(7));
}

#[test]
fn segments_after_a_failure_are_not_pruned() {
    let mut store = MemoryStore::with_entries(Category::Headers, 1..=20)
        .and_entries(Category::Receipts, 1..=20, 1)
        .and_entries(Category::Transactions, 1..=20, 1);
    store.fail_get.insert(Category::Receipts, PrunerError::Store(8));
    let segments = vec![
        Segment::new(Category::Headers, Some(RetentionPolicy::KeepNone)),
        Segment::new(Category::Receipts, Some(RetentionPolicy::KeepNone)),
        Segment::new(Category::Transactions, Some(RetentionPolicy::KeepNone)),
    ];
    let mut pruner = Pruner::new(store, segments, 5, 100, 50);
    assert_eq!(pruner.prune_segments(30, 100), Err(PrunerError::Store(8)));
    let asked: Vec<Category> =
        pruner.store().requests.iter().map(|(category, _)| *category).collect();
    assert_eq!(asked, vec![Category::Headers]);
    // The list does not commit nor roll back: that is for the run.
    assert_eq!(
        pruner.store().calls,
        vec!["prune Headers".to_string(), "put_checkpoint Headers".to_string()]
    );
}
