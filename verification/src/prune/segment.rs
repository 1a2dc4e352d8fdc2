//! Segments: a category together with the policy that governs it.

use vstd::prelude::*;
use super::category::Category;
use super::checkpoint::{BlockNumber, Checkpoint, PruneOutcome, PruneRequest};
use super::error::PrunerError;
use super::policy::RetentionPolicy;
use super::store::{spec_checkpoint, Store};

verus! {

/// The unit that a run prunes: one category under one retention policy.
#[derive(Clone, Copy, Debug, PartialEq, Eq, Structural)]
pub struct Segment {
    /// The category whose data the segment deletes.
    pub category: Category,
    /// The policy of the segment; `None` switches the segment off.
    pub policy: Option<RetentionPolicy>,
}

impl Segment {
    /// A segment for the category under the policy.
    pub fn new(category: Category, policy: Option<RetentionPolicy>) -> (segment: Self)
        ensures
            segment == (Segment { category, policy }),
    {
        Segment { category, policy }
    }

    /// The category whose data the segment deletes.
    pub fn category(&self) -> (category: Category)
        ensures
            category == self.category,
    {
        self.category
    }

    /// The policy of the segment; `None` switches the segment off.
    pub fn policy(&self) -> (policy: Option<RetentionPolicy>)
        ensures
            policy == self.policy,
    {
        self.policy
    }

    /// The block up to which a run at the given tip prunes the segment, if it
    /// prunes it at all: none for a segment that is switched off, for a policy
    /// that allows nothing yet, and for a policy that cannot be applied to the
    /// category.
    pub open spec fn spec_target_block(self, tip: BlockNumber) -> Option<BlockNumber> {
        match self.policy {
            None => None,
            Some(policy) => match policy.spec_target_block(tip, self.category) {
                Ok(target) => target,
                Err(_) => None,
            },
        }
    }

    /// The block up to which a run at the given tip prunes the segment. A
    /// malformed policy switches off this segment alone: it gives `None`, as a
    /// policy does that allows nothing yet.
    pub fn target_block(&self, tip: BlockNumber) -> (target: Option<BlockNumber>)
        ensures
            target == self.spec_target_block(tip),
    {
        match self.policy {
            None => None,
            Some(policy) => match policy.target_block(tip, self.category) {
                Ok(target) => target,
                Err(_) => None,
            },
        }
    }

    /// The request that a run at the given tip makes of the segment, if it
    /// prunes it at all: up to the segment's target, from the checkpoint that
    /// the store shows for the category, within what is left of the budget.
    pub open spec fn spec_request(
        self,
        tip: BlockNumber,
        shown: Option<Checkpoint>,
        budget: usize,
    ) -> Option<PruneRequest> {
        match self.spec_target_block(tip) {
            None => None,
            Some(target_block) => Some(
                PruneRequest { previous_checkpoint: shown, target_block, delete_limit: budget },
            ),
        }
    }

    /// Builds the request that a run at the given tip makes of the segment, or
    /// `None` if the segment has no target at this tip.
    pub fn request(&self, tip: BlockNumber, shown: Option<Checkpoint>, budget: usize) -> (request:
        Option<PruneRequest>)
        ensures
            request == self.spec_request(tip, shown, budget),
    {
        match self.target_block(tip) {
            None => None,
            Some(target_block) => Some(PruneRequest::new(shown, target_block, budget)),
        }
    }

    /// What the segment makes of the store's answer to a request: a report is
    /// passed on, as an error of the store is, unless the report names a
    /// checkpoint past the target of the request; that is an inconsistency of
    /// the segment.
    pub open spec fn spec_accept(
        self,
        request: PruneRequest,
        answer: Result<PruneOutcome, PrunerError>,
    ) -> Result<PruneOutcome, PrunerError> {
        match answer {
            Ok(outcome) => if outcome.spec_within_target(request) {
                Ok(outcome)
            } else {
                Err(PrunerError::Segment(self.category))
            },
            Err(error) => Err(error),
        }
    }

    /// Holds the store's answer to a request against the request: a report is
    /// passed on, as an error of the store is; a report of a checkpoint past
    /// the target gives `PrunerError::Segment` for the segment's category, so
    /// that no such checkpoint is ever stored.
    pub fn accept(&self, request: &PruneRequest, answer: Result<PruneOutcome, PrunerError>) -> (result:
        Result<PruneOutcome, PrunerError>)
        ensures
            result == self.spec_accept(*request, answer),
    {
        match answer {
            Ok(outcome) => {
                if outcome.within_target(request) {
                    Ok(outcome)
                } else {
                    Err(PrunerError::Segment(self.category))
                }
            },
            Err(error) => Err(error),
        }
    }

    /// Has the store delete data of the segment's category, handing it the
    /// request as it is, and holds the store's report against the request. A report comes
    /// back only if it keeps to the request: no more deletions than the limit,
    /// as the store owes it, and no checkpoint past the target, which makes the
    /// segment fail with `PrunerError::Segment`. An error of the store is
    /// passed on. The deletions are made in the open transaction: nothing
    /// durable changes, and on success no checkpoint either.
    pub fn prune<S: Store>(&self, store: &mut S, request: PruneRequest) -> (result: Result<
        PruneOutcome,
        PrunerError,
    >)
        ensures
            exists|answer: Result<PruneOutcome, PrunerError>|
                result == #[trigger] self.spec_accept(request, answer),
            result matches Ok(outcome) ==> outcome.spec_respects(request),
            final(store).spec_durable() == old(store).spec_durable(),
            final(store).spec_requests()@ == old(store).spec_requests()@.push(
                (self.category, request),
            ),
            result is Ok ==> forall|category: Category| #[trigger]
                spec_checkpoint(*final(store), category) == spec_checkpoint(*old(store), category),
    {
        let answer = store.prune(self.category, request);
        self.accept(&request, answer)
    }

    /// Stores the checkpoint under the segment's category, in the open
    /// transaction. Whether that succeeds is for the store to say. On success
    /// the store shows the checkpoint for the segment's category and the
    /// checkpoints of the other categories as before. Nothing durable changes.
    pub fn save_checkpoint<S: Store>(&self, store: &mut S, checkpoint: Checkpoint) -> (result: Result<
        (),
        PrunerError,
    >)
        ensures
            final(store).spec_durable() == old(store).spec_durable(),
            final(store).spec_requests()@ == old(store).spec_requests()@,
            result is Ok ==> forall|category: Category| #[trigger]
                spec_checkpoint(*final(store), category) == if category == self.category {
                    Some(checkpoint)
                } else {
                    spec_checkpoint(*old(store), category)
                },
    {
        store.put_checkpoint(self.category, checkpoint)
    }
}

/// The checkpoint that has to be stored after the store was asked to prune: the
/// one that an accepted report names, if the store was asked and the report
/// names one.
pub open spec fn spec_checkpoint_to_save(
    report: Option<Result<PruneOutcome, PrunerError>>,
) -> Option<Checkpoint> {
    match report {
        Some(Ok(outcome)) => outcome.new_checkpoint,
        _ => None,
    }
}

/// What comes of pruning one segment that has a target, given what the store
/// answered: `read` to the reading of the checkpoint, `report` to the request
/// to prune, as the segment accepted it, and `saved` to the storing of the new
/// checkpoint, where `None` stands for a call that was not made. The first
/// error ends the step and is its result; without an error the accepted report
/// is.
pub open spec fn spec_step_result(
    read: Result<Option<Checkpoint>, PrunerError>,
    report: Option<Result<PruneOutcome, PrunerError>>,
    saved: Option<Result<(), PrunerError>>,
) -> Result<Option<PruneOutcome>, PrunerError> {
    match read {
        Err(error) => Err(error),
        Ok(_) => match report {
            None => Ok(None),
            Some(Err(error)) => Err(error),
            Some(Ok(outcome)) => match saved {
                Some(Err(error)) => Err(error),
                _ => Ok(Some(outcome)),
            },
        },
    }
}

/// The checkpoint that has to be stored after the store was asked to prune, if
/// any.
pub fn checkpoint_to_save(report: &Option<Result<PruneOutcome, PrunerError>>) -> (checkpoint:
    Option<Checkpoint>)
    ensures
        checkpoint == spec_checkpoint_to_save(*report),
{
    match report {
        Some(Ok(outcome)) => outcome.new_checkpoint,
        _ => None,
    }
}

/// What comes of pruning one segment that has a target, given what the store
/// answered to each call; `None` stands for a call that was not made.
pub fn step_result(
    read: Result<Option<Checkpoint>, PrunerError>,
    report: Option<Result<PruneOutcome, PrunerError>>,
    saved: Option<Result<(), PrunerError>>,
) -> (result: Result<Option<PruneOutcome>, PrunerError>)
    ensures
        result == spec_step_result(read, report, saved),
{
    match read {
        Err(error) => Err(error),
        Ok(_) => match report {
            None => Ok(None),
            Some(Err(error)) => Err(error),
            Some(Ok(outcome)) => match saved {
                Some(Err(error)) => Err(error),
                _ => Ok(Some(outcome)),
            },
        },
    }
}

/// The segments that the archive boundaries call for: for each archived
/// category with a boundary, in the order headers, transactions, receipts, one
/// segment that deletes everything up to the boundary.
pub open spec fn spec_archive_segments(
    headers: Option<BlockNumber>,
    transactions: Option<BlockNumber>,
    receipts: Option<BlockNumber>,
) -> Seq<Segment> {
    spec_archive_segment(Category::Headers, headers) + spec_archive_segment(
        Category::Transactions,
        transactions,
    ) + spec_archive_segment(Category::Receipts, receipts)
}

/// The segments that one archive boundary calls for: one if there is a
/// boundary, else none.
pub open spec fn spec_archive_segment(category: Category, boundary: Option<BlockNumber>) -> Seq<
    Segment,
> {
    match boundary {
        Some(block) => seq![
            Segment { category, policy: Some(RetentionPolicy::KeepBeforeOrAt(block)) },
        ],
        None => Seq::empty(),
    }
}

/// Builds the segments that the archive boundaries call for.
pub fn archive_segments(
    headers: Option<BlockNumber>,
    transactions: Option<BlockNumber>,
    receipts: Option<BlockNumber>,
) -> (segments: Vec<Segment>)
    ensures
        segments@ == spec_archive_segments(headers, transactions, receipts),
{
    let mut segments: Vec<Segment> = Vec::new();
    if let Some(block) = headers {
        segments.push(Segment::new(Category::Headers, Some(RetentionPolicy::before_inclusive(block))));
    }
    if let Some(block) = transactions {
        segments.push(
            Segment::new(Category::Transactions, Some(RetentionPolicy::before_inclusive(block))),
        );
    }
    if let Some(block) = receipts {
        segments.push(Segment::new(Category::Receipts, Some(RetentionPolicy::before_inclusive(block))));
    }
    segments
}

/// Puts the segments of a run in their order: the segments that the archive
/// boundaries call for come first, then the configured segments, each list in
/// its own order.
pub fn ordered_segments(archive: Vec<Segment>, configured: &Vec<Segment>) -> (ordered: Vec<Segment>)
    ensures
        ordered@ == archive@ + configured@,
{
    let mut ordered = archive;
    let mut index: usize = 0;
    while index < configured.len()
        invariant
            index <= configured@.len(),
            ordered@ == archive@ + configured@.take(index as int),
        decreases configured@.len() - index,
    {
        ordered.push(configured[index]);
        index += 1;
    }
    ordered
}

} // verus!
