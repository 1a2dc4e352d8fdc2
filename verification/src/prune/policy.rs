//! Retention policies and the block up to which they allow deletion.

use vstd::prelude::*;
use super::category::Category;
use super::checkpoint::BlockNumber;
use super::error::PrunerError;

verus! {

/// How much history of a category is kept.
#[derive(Clone, Copy, Debug, PartialEq, Eq, Structural)]
pub enum RetentionPolicy {
    /// Keep everything: nothing is ever deleted.
    KeepAll,
    /// Keep nothing: everything up to the tip may be deleted.
    KeepNone,
    /// Keep the last blocks, as many as the payload says.
    KeepLast(u64),
    /// Delete the blocks up to the given one, that block included, whatever the
    /// tip is.
    KeepBeforeOrAt(BlockNumber),
}

impl RetentionPolicy {
    /// Whether the policy cannot be applied to the category: a fixed boundary
    /// needs a category whose checkpoints can point below the level of a block.
    pub open spec fn spec_is_malformed_for(self, category: Category) -> bool {
        self is KeepBeforeOrAt && !category.spec_supports_fine_grained_checkpoints()
    }

    /// The highest block that the policy allows to delete at the given tip:
    /// `Ok(None)` while nothing may be deleted, an error for a policy that
    /// cannot be applied to the category.
    pub open spec fn spec_target_block(self, tip: BlockNumber, category: Category) -> Result<
        Option<BlockNumber>,
        PrunerError,
    > {
        if self.spec_is_malformed_for(category) {
            Err(PrunerError::Config(category))
        } else {
            Ok(
                match self {
                    RetentionPolicy::KeepAll => None,
                    RetentionPolicy::KeepNone => Some(tip),
                    RetentionPolicy::KeepLast(distance) => if tip > distance {
                        Some((tip - distance) as BlockNumber)
                    } else {
                        None
                    },
                    RetentionPolicy::KeepBeforeOrAt(block) => Some(block),
                },
            )
        }
    }

    /// Whether the policy cannot be applied to the category.
    pub fn is_malformed_for(&self, category: Category) -> (malformed: bool)
        ensures
            malformed == self.spec_is_malformed_for(category),
    {
        match self {
            RetentionPolicy::KeepBeforeOrAt(_) => !category.supports_fine_grained_checkpoints(),
            _ => false,
        }
    }

    /// The highest block that may be deleted at the given tip, that block
    /// included. `Ok(None)` says that nothing may be deleted yet. A policy that
    /// cannot be applied to the category gives `PrunerError::Config`.
    pub fn target_block(&self, tip: BlockNumber, category: Category) -> (target: Result<
        Option<BlockNumber>,
        PrunerError,
    >)
        ensures
            target == self.spec_target_block(tip, category),
    {
        if self.is_malformed_for(category) {
            return Err(PrunerError::Config(category));
        }
        match self {
            RetentionPolicy::KeepAll => Ok(None),
            RetentionPolicy::KeepNone => Ok(Some(tip)),
            RetentionPolicy::KeepLast(distance) => {
                if tip > *distance {
                    Ok(Some(tip - *distance))
                } else {
                    Ok(None)
                }
            },
            RetentionPolicy::KeepBeforeOrAt(block) => Ok(Some(*block)),
        }
    }

    /// The policy under which everything up to the given block, that block
    /// included, may be deleted.
    pub fn before_inclusive(block: BlockNumber) -> (policy: Self)
        ensures
            policy == RetentionPolicy::KeepBeforeOrAt(block),
    {
        RetentionPolicy::KeepBeforeOrAt(block)
    }
}

} // verus!
