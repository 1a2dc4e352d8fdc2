//! What can go wrong in a run.

use vstd::prelude::*;
use super::category::Category;

verus! {

/// The one error type that a run hands to its caller.
#[derive(Clone, Copy, Debug, PartialEq, Eq, Structural)]
pub enum PrunerError {
    /// The retention policy configured for the category is malformed or not
    /// supported by it. It stops the evaluation of that one policy: a run goes
    /// on without the segment.
    Config(Category),
    /// The store failed to open, read, write or commit the transaction; the
    /// payload is the code that the store reported.
    Store(i32),
    /// A segment found its data inconsistent while it pruned the category:
    /// the store reported as much, or its report named a checkpoint past the
    /// target of the request.
    Segment(Category),
}

impl PrunerError {
    /// Whether the error ends the run in which it comes up.
    pub open spec fn spec_is_fatal(self) -> bool {
        !(self is Config)
    }

    /// Whether the error ends the run in which it comes up: every error but a
    /// configuration error does.
    pub fn is_fatal(&self) -> (fatal: bool)
        ensures
            fatal == self.spec_is_fatal(),
    {
        match self {
            PrunerError::Config(_) => false,
            _ => true,
        }
    }
}

} // verus!
