//! The primitive types of a node.

use vstd::prelude::*;
use super::block_body::{BlockBody, FullSignedTx};

verus! {

/// Marks the types that can be written to and read from a wire or disk format,
/// where the node is built with such a format. Every type carries the mark.
pub trait MaybeSerde {

}

impl<T> MaybeSerde for T {

}

/// Configures all the primitive types of the node.
pub trait NodePrimitives:
    Send + Sync + Unpin + Clone + Default + core::fmt::Debug + PartialEq + Eq + 'static {
    /// Block primitive.
    type Block: Send + Sync + Unpin + Clone + Default + core::fmt::Debug + PartialEq + Eq
        + MaybeSerde + 'static;

    /// Signed version of the transaction type.
    type SignedTx: Send + Sync + Unpin + Clone + Default + core::fmt::Debug + PartialEq + Eq
        + MaybeSerde + 'static;

    /// Transaction envelope type ID.
    type TxType: Send + Sync + Unpin + Clone + Default + core::fmt::Debug + PartialEq + Eq
        + 'static;

    /// A receipt.
    type Receipt: Send + Sync + Unpin + Clone + Default + core::fmt::Debug + PartialEq + Eq
        + MaybeSerde + 'static;
}

/// Marks the block types that a full node can work with.
pub trait FullBlock:
    Send + Sync + Unpin + Clone + Default + core::fmt::Debug + PartialEq + Eq + MaybeSerde
    + 'static {
    /// The body of the block.
    type Body: BlockBody;
}

/// Marks the transaction type IDs that a full node can work with.
pub trait FullTxType:
    Send + Sync + Unpin + Clone + Default + core::fmt::Debug + PartialEq + Eq + 'static {

}

/// Marks the receipts that a full node can work with.
pub trait FullReceipt:
    Send + Sync + Unpin + Clone + Default + core::fmt::Debug + PartialEq + Eq + MaybeSerde
    + 'static {

}

/// Helper trait that sets trait bounds on [`NodePrimitives`].
pub trait FullNodePrimitives:
    Send + Sync + Unpin + Clone + Default + core::fmt::Debug + PartialEq + Eq + 'static {
    /// Block primitive.
    type Block: FullBlock<Body: BlockBody<Transaction = Self::SignedTx>>;

    /// Signed version of the transaction type.
    type SignedTx: FullSignedTx + Send + Sync + Unpin + Clone + Default + core::fmt::Debug
        + PartialEq + Eq + MaybeSerde + 'static;

    /// Transaction envelope type ID.
    type TxType: FullTxType;

    /// A receipt.
    type Receipt: FullReceipt;
}

impl<T> NodePrimitives for T where T: FullNodePrimitives {
    type Block = T::Block;

    type SignedTx = T::SignedTx;

    type TxType = T::TxType;

    type Receipt = T::Receipt;
}

/// Helper adapter type for accessing the receipt type of [`NodePrimitives`].
pub type ReceiptTy<N> = <N as NodePrimitives>::Receipt;

} // verus!
