//! The store that a run works against.

use vstd::prelude::*;
use super::category::Category;
use super::checkpoint::{BlockNumber, Checkpoint, PruneOutcome, PruneRequest};
use super::error::PrunerError;

verus! {

/// The persistent store as the pruning engine sees it: one write transaction at
/// a time, the checkpoints, the deletions of each category and the boundary of
/// what cold storage has archived.
///
/// The spec functions say what a store holds and what it was asked to prune,
/// and the contracts of the methods say how a transaction works: what is
/// written shows only within the open transaction, becomes durable with a
/// commit, and is gone with a rollback. Opening a transaction gives up one
/// that was left open.
/// An implementation has to keep to them; what the engine proves of a run
/// holds of such stores.
pub trait Store {
    /// What a store holds: the data of every category, and the checkpoints.
    type Contents;

    /// What the store holds durably.
    spec fn spec_durable(&self) -> Self::Contents;

    /// What the store shows to a reader: what the open transaction has made of
    /// the durable contents, and the durable contents where none is open.
    spec fn spec_shown(&self) -> Self::Contents;

    /// The checkpoint of the category in the contents.
    spec fn spec_checkpoint_in(contents: Self::Contents, category: Category) -> Option<Checkpoint>;

    /// Highest block of the category that cold storage holds, if any.
    spec fn spec_highest_archived_block(&self, category: Category) -> Option<BlockNumber>;

    /// Every request to prune that the store was handed, oldest first, each
    /// with the category that it was made for.
    spec fn spec_requests(&self) -> Vec<(Category, PruneRequest)>;

    /// Opens the write transaction of a run. Whether it opens or not, nothing
    /// durable changes, and the store shows its durable contents.
    fn begin_write(&mut self) -> (result: Result<(), PrunerError>)
        ensures
            final(self).spec_durable() == old(self).spec_durable(),
            final(self).spec_shown() == final(self).spec_durable(),
            final(self).spec_requests()@ == old(self).spec_requests()@,
            forall|category: Category| #[trigger]
                final(self).spec_highest_archived_block(category) == old(self).spec_highest_archived_block(category),
    ;

    /// Makes durable what the open transaction shows. If that fails, nothing
    /// durable changes.
    fn commit(&mut self) -> (result: Result<(), PrunerError>)
        ensures
            result is Ok ==> final(self).spec_durable() == old(self).spec_shown() && final(self).spec_shown() == old(self).spec_shown(),
            result is Err ==> final(self).spec_durable() == old(self).spec_durable(),
            final(self).spec_requests()@ == old(self).spec_requests()@,
    ;

    /// Gives up the open transaction and all that was written in it: the store
    /// shows its durable contents again, which are as they were.
    fn rollback(&mut self)
        ensures
            final(self).spec_durable() == old(self).spec_durable(),
            final(self).spec_shown() == final(self).spec_durable(),
            final(self).spec_requests()@ == old(self).spec_requests()@,
    ;

    /// Highest block of the category that cold storage holds, if any.
    fn highest_archived_block(&self, category: Category) -> (block: Option<BlockNumber>)
        ensures
            block == self.spec_highest_archived_block(category),
    ;

    /// The checkpoint of the category, as the store shows it.
    fn get_checkpoint(&self, category: Category) -> (result: Result<
        Option<Checkpoint>,
        PrunerError,
    >)
        ensures
            result matches Ok(checkpoint) ==> checkpoint == Self::spec_checkpoint_in(
                self.spec_shown(),
                category,
            ),
    ;

    /// Stores the checkpoint of the category in the open transaction: on
    /// success the store shows it for the category and leaves the checkpoints
    /// of the other categories alone. Nothing durable changes.
    fn put_checkpoint(&mut self, category: Category, checkpoint: Checkpoint) -> (result: Result<
        (),
        PrunerError,
    >)
        ensures
            final(self).spec_durable() == old(self).spec_durable(),
            final(self).spec_requests()@ == old(self).spec_requests()@,
            result is Ok ==> forall|other: Category| #[trigger]
                Self::spec_checkpoint_in(final(self).spec_shown(), other) == if other == category {
                    Some(checkpoint)
                } else {
                    Self::spec_checkpoint_in(old(self).spec_shown(), other)
                },
    ;

    /// Deletes data of the category in the open transaction, as the request
    /// says, and reports what was done. It deletes no more entries than
    /// `request.delete_limit`, resumes from `request.previous_checkpoint`, and
    /// leaves the checkpoints alone. Nothing durable changes.
    fn prune(&mut self, category: Category, request: PruneRequest) -> (result: Result<
        PruneOutcome,
        PrunerError,
    >)
        ensures
            final(self).spec_durable() == old(self).spec_durable(),
            final(self).spec_requests()@ == old(self).spec_requests()@.push((category, request)),
            result matches Ok(outcome) ==> outcome.pruned_count <= request.delete_limit,
            result is Ok ==> forall|other: Category| #[trigger]
                Self::spec_checkpoint_in(final(self).spec_shown(), other)
                    == Self::spec_checkpoint_in(old(self).spec_shown(), other),
    ;
}

/// The checkpoint of the category as the store shows it.
pub open spec fn spec_checkpoint<S: Store>(store: S, category: Category) -> Option<Checkpoint> {
    S::spec_checkpoint_in(store.spec_shown(), category)
}

/// The checkpoints in the contents, by category.
pub open spec fn spec_checkpoints_in<S: Store>(contents: S::Contents) -> Map<Category, Checkpoint> {
    Map::new(
        |category: Category| S::spec_checkpoint_in(contents, category) is Some,
        |category: Category| S::spec_checkpoint_in(contents, category).unwrap(),
    )
}

/// The checkpoint of the category that the store holds durably.
pub open spec fn spec_durable_checkpoint<S: Store>(store: S, category: Category) -> Option<
    Checkpoint,
> {
    S::spec_checkpoint_in(store.spec_durable(), category)
}

} // verus!
