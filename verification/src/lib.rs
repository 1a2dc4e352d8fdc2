//! Retention management for the persistent store of a blockchain node.
//!
//! [`prune`] holds the pruning engine: retention policies, checkpoints, the
//! budget of a run and the [`prune::Pruner`] that drives the segments against a
//! [`prune::Store`]. [`primitives`] holds the abstractions over the node's block
//! types that the segments work with.

pub mod primitives;
pub mod prune;
