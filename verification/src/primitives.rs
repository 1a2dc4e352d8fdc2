//! Abstractions over the block types of a node.

mod block_body;
mod node;

pub use block_body::{
    blob_transactions_of, has_blob_transactions_in, has_eip7702_transactions_in,
    parallel_sender_recovery_threshold, recover_signers_of, spec_all_signers,
    spec_parallel_sender_recovery_threshold, BlockBody, BlockHeader, Body, FullBlockBody,
    FullSignedTx, InMemorySize, SignedTransaction,
};
pub use node::{
    FullBlock, FullNodePrimitives, FullReceipt, FullTxType, MaybeSerde, NodePrimitives, ReceiptTy,
};
