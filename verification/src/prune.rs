//! The pruning engine.

mod budget;
mod category;
mod checkpoint;
mod error;
mod event;
mod laws;
mod policy;
mod progress;
mod pruner;
mod run_state;
mod segment;
mod stats;
mod store;

pub use budget::{
    blocks_since_last_run, checked_run_delete_limit, run_delete_limit,
    spec_blocks_since_last_run, spec_run_delete_limit,
};
pub use category::Category;
pub use checkpoint::{BlockNumber, Checkpoint, PruneOutcome, PruneRequest};
pub use error::PrunerError;
pub use event::PrunerEvent;
pub use laws::{
    lemma_deletions_within_budget, lemma_first_call_is_scheduled, lemma_idle_run,
    lemma_persisted_checkpoint_within_target, lemma_regressed_tip_has_no_budget,
    lemma_run_keeps_to_budget_and_targets, lemma_run_over_idle, lemma_run_over_one_segment,
    lemma_run_over_report, lemma_run_report, lemma_same_tip_has_no_budget,
    lemma_successive_runs_budget, lemma_target_block_monotonic, spec_deleted_over, spec_prunes,
    spec_within_target_of,
};
pub use policy::RetentionPolicy;
pub use progress::PruneProgress;
pub use pruner::{
    spec_archive_of, spec_is_pruning_needed, spec_no_target, spec_pruned, spec_ran,
    spec_run_stopped, spec_stopped, Pruner,
    PrunerResult, PrunerView,
};
pub use run_state::{
    lemma_run_over_concat, lemma_run_over_exhausted, lemma_run_over_without_budget,
    lemma_run_over_without_targets, spec_lookup, RunState, RunStateView,
};
pub use segment::{
    archive_segments, checkpoint_to_save, ordered_segments, spec_archive_segment,
    spec_archive_segments, spec_checkpoint_to_save, spec_step_result, step_result, Segment,
};
pub use stats::{RunStatistics, SegmentStats};
pub use store::{spec_checkpoint, spec_checkpoints_in, spec_durable_checkpoint, Store};
