//! Block body abstraction.

use vstd::prelude::*;
use alloy_eips::eip7685::Requests;
use alloy_primitives::{Address, Bytes, FixedBytes, B256};
use super::node::MaybeSerde;

verus! {

/// The address type of the chain: 20 bytes. Its bytes are of no concern here;
/// addresses are only carried from a transaction to the caller.
#[verifier::external_type_specification]
#[verifier::external_body]
pub struct ExAddress(Address);

/// A fixed number of bytes; with 32 of them, a hash. Hashes are only carried
/// from a block body to the caller.
#[verifier::external_type_specification]
#[verifier::external_body]
pub struct ExFixedBytes<const N: usize>(FixedBytes<N>);

/// A run of bytes of any length, as the requests of a block hold them. Verus
/// has to know the type because the requests hand out their bytes.
#[verifier::external_type_specification]
#[verifier::external_body]
pub struct ExBytes(Bytes);

/// The requests of a block to the consensus layer. They are only carried from
/// a block body to the caller.
#[verifier::external_type_specification]
#[verifier::external_body]
pub struct ExRequests(Requests);

/// Marks the types that know how much memory they take.
pub trait InMemorySize {
    /// Number of bytes that the value takes in memory.
    fn size(&self) -> usize;
}

/// A block header, as far as a block body looks into it.
pub trait BlockHeader {

}

/// A signed transaction, as far as a block body looks into it.
///
/// The three methods are functions of the transaction alone; the spec
/// functions name what they return, and an implementation has to keep to them.
pub trait SignedTransaction {
    /// The signer of the transaction, if the signature is valid.
    spec fn spec_recover_signer(&self) -> Option<Address>;

    /// Whether the transaction carries blobs.
    spec fn spec_is_eip4844(&self) -> bool;

    /// Whether the transaction sets account code by authorisation.
    spec fn spec_is_eip7702(&self) -> bool;

    /// Recovers the signer from the signature; `None` if the signature is not
    /// valid.
    fn recover_signer(&self) -> (signer: Option<Address>)
        ensures
            signer == self.spec_recover_signer(),
    ;

    /// Whether the transaction carries blobs.
    fn is_eip4844(&self) -> (blob: bool)
        ensures
            blob == self.spec_is_eip4844(),
    ;

    /// Whether the transaction sets account code by authorisation.
    fn is_eip7702(&self) -> (set_code: bool)
        ensures
            set_code == self.spec_is_eip7702(),
    ;
}

/// Marks the signed transactions that a full node can work with.
pub trait FullSignedTx: SignedTransaction {

}

impl<T: SignedTransaction> FullSignedTx for T {

}

/// Number of transactions from which recovering the senders in parallel pays,
/// on a machine that runs the given number of worker threads: never with one
/// thread or none, from 10 with up to eight threads, from 5 with more.
pub open spec fn spec_parallel_sender_recovery_threshold(num_threads: usize) -> usize {
    if num_threads <= 1 {
        usize::MAX
    } else if num_threads <= 8 {
        10
    } else {
        5
    }
}

/// Number of transactions from which recovering the senders in parallel pays,
/// on a machine that runs the given number of worker threads.
pub fn parallel_sender_recovery_threshold(num_threads: usize) -> (threshold: usize)
    ensures
        threshold == spec_parallel_sender_recovery_threshold(num_threads),
{
    if num_threads <= 1 {
        usize::MAX
    } else if num_threads <= 8 {
        10
    } else {
        5
    }
}

/// The signers of all the transactions, in their order, if every signature is
/// valid; `None` as soon as one is not.
pub open spec fn spec_all_signers<T: SignedTransaction>(transactions: Seq<T>) -> Option<
    Seq<Address>,
> {
    if forall|i: int|
        0 <= i < transactions.len() ==> (#[trigger] transactions[i]).spec_recover_signer() is Some {
        Some(
            Seq::new(
                transactions.len(),
                |i: int| transactions[i].spec_recover_signer().unwrap(),
            ),
        )
    } else {
        None
    }
}

/// Recovers the signers of all the transactions, one after the other.
pub fn recover_signers_of<T: SignedTransaction>(transactions: &[T]) -> (signers: Option<
    Vec<Address>,
>)
    ensures
        match (signers, spec_all_signers(transactions@)) {
            (Some(recovered), Some(expected)) => recovered@ == expected,
            (None, None) => true,
            _ => false,
        },
{
    let mut signers: Vec<Address> = Vec::new();
    let mut index: usize = 0;
    while index < transactions.len()
        invariant
            index <= transactions@.len(),
            signers@.len() == index,
            forall|i: int|
                0 <= i < index ==> (#[trigger] transactions@[i]).spec_recover_signer() == Some(
                    signers@[i],
                ),
        decreases transactions@.len() - index,
    {
        match transactions[index].recover_signer() {
            Some(signer) => {
                signers.push(signer);
            },
            None => {
                return None;
            },
        }
        index += 1;
    }
    Some(signers)
}

/// Whether one of the transactions carries blobs.
pub fn has_blob_transactions_in<T: SignedTransaction>(transactions: &[T]) -> (found: bool)
    ensures
        found == exists|i: int|
            0 <= i < transactions@.len() && (#[trigger] transactions@[i]).spec_is_eip4844(),
{
    let mut index: usize = 0;
    while index < transactions.len()
        invariant
            index <= transactions@.len(),
            forall|i: int| 0 <= i < index ==> !(#[trigger] transactions@[i]).spec_is_eip4844(),
        decreases transactions@.len() - index,
    {
        if transactions[index].is_eip4844() {
            return true;
        }
        index += 1;
    }
    false
}

/// Whether one of the transactions sets account code by authorisation.
pub fn has_eip7702_transactions_in<T: SignedTransaction>(transactions: &[T]) -> (found: bool)
    ensures
        found == exists|i: int|
            0 <= i < transactions@.len() && (#[trigger] transactions@[i]).spec_is_eip7702(),
{
    let mut index: usize = 0;
    while index < transactions.len()
        invariant
            index <= transactions@.len(),
            forall|i: int| 0 <= i < index ==> !(#[trigger] transactions@[i]).spec_is_eip7702(),
        decreases transactions@.len() - index,
    {
        if transactions[index].is_eip7702() {
            return true;
        }
        index += 1;
    }
    false
}

/// The transactions that carry blobs, in their order.
pub fn blob_transactions_of<T: SignedTransaction>(transactions: &[T]) -> (blobs: Vec<&T>)
    ensures
        blobs@.map_values(|tx: &T| *tx) == transactions@.filter(|tx: T| tx.spec_is_eip4844()),
{
    let mut blobs: Vec<&T> = Vec::new();
    let mut index: usize = 0;
    let ghost carries_blobs = |tx: T| tx.spec_is_eip4844();
    while index < transactions.len()
        invariant
            index <= transactions@.len(),
            carries_blobs == |tx: T| tx.spec_is_eip4844(),
            blobs@.map_values(|tx: &T| *tx) == transactions@.take(index as int).filter(
                carries_blobs,
            ),
        decreases transactions@.len() - index,
    {
        let transaction = &transactions[index];
        proof {
            assert(transactions@.take(index + 1) =~= transactions@.take(index as int).push(
                *transaction,
            ));
            transactions@.take(index as int).lemma_filter_push(*transaction, carries_blobs);
        }
        if transaction.is_eip4844() {
            blobs.push(transaction);
        }
        index += 1;
    }
    assert(transactions@.take(index as int) =~= transactions@);
    blobs
}

/// Abstraction of block's body.
pub trait BlockBody:
    Send + Sync + Unpin + Clone + Default + core::fmt::Debug + PartialEq + Eq + InMemorySize
    + MaybeSerde {
    /// Signed transaction.
    type Transaction: SignedTransaction + 'static;

    /// Header type (uncle blocks).
    type Header: BlockHeader + 'static;

    /// Withdrawals in block.
    type Withdrawals: 'static;

    /// The transactions of the body, in their order.
    spec fn spec_transactions(&self) -> &[Self::Transaction];

    /// Returns reference to transactions in block.
    fn transactions(&self) -> (transactions: &[Self::Transaction])
        ensures
            transactions@ == self.spec_transactions()@,
    ;

    /// Returns `Withdrawals` in the block, if any.
    fn withdrawals(&self) -> Option<&Self::Withdrawals>;

    /// Returns reference to uncle block headers.
    fn ommers(&self) -> &[Self::Header];

    /// Returns the requests in block, if any.
    fn requests(&self) -> Option<&Requests>;

    /// Calculate the transaction root for the block body.
    fn calculate_tx_root(&self) -> B256;

    /// Calculate the ommers root for the block body.
    fn calculate_ommers_root(&self) -> B256;

    /// Calculate the withdrawals root for the block body, if withdrawals exist.
    /// If there are no withdrawals, this will return `None`.
    fn calculate_withdrawals_root(&self) -> Option<B256>;

    /// Returns references to all blob versioned hashes from the block body.
    fn blob_versioned_hashes(&self) -> Vec<&B256>;

    /// Returns all blob versioned hashes from the block body.
    fn blob_versioned_hashes_copied(&self) -> Vec<B256>;

    /// Recover signer addresses for all transactions in the block body.
    fn recover_signers(&self) -> (signers: Option<Vec<Address>>)
        ensures
            match (signers, spec_all_signers(self.spec_transactions()@)) {
                (Some(recovered), Some(expected)) => recovered@ == expected,
                (None, None) => true,
                _ => false,
            },
    {
        recover_signers_of(self.transactions())
    }

    /// Returns whether or not the block body contains any blob transactions.
    fn has_blob_transactions(&self) -> (found: bool)
        ensures
            found == exists|i: int|
                0 <= i < self.spec_transactions()@.len() && (
                #[trigger] self.spec_transactions()@[i]).spec_is_eip4844(),
    {
        has_blob_transactions_in(self.transactions())
    }

    /// Returns whether or not the block body contains any EIP-7702
    /// transactions.
    fn has_eip7702_transactions(&self) -> (found: bool)
        ensures
            found == exists|i: int|
                0 <= i < self.spec_transactions()@.len() && (
                #[trigger] self.spec_transactions()@[i]).spec_is_eip7702(),
    {
        has_eip7702_transactions_in(self.transactions())
    }

    /// Returns only the blob transactions, if any, from the block body.
    fn blob_transactions(&self) -> (blobs: Vec<&Self::Transaction>)
        ensures
            blobs@.map_values(|tx: &Self::Transaction| *tx) == self.spec_transactions()@.filter(
                |tx: Self::Transaction| tx.spec_is_eip4844(),
            ),
    {
        blob_transactions_of(self.transactions())
    }
}

/// Marks the block bodies that a full node can work with.
pub trait FullBlockBody: BlockBody where Self::Transaction: FullSignedTx {

}

impl<T> FullBlockBody for T where T: BlockBody, T::Transaction: FullSignedTx {

}

/// Helper trait to implement the functionality of [`BlockBody`] for block
/// types.
pub trait Body<Header: 'static, SignedTx: SignedTransaction + 'static, Withdrawals: 'static> {
    /// The transactions of the body, in their order.
    spec fn spec_transactions(&self) -> &[SignedTx];

    /// See [`BlockBody`].
    fn transactions(&self) -> (transactions: &[SignedTx])
        ensures
            transactions@ == self.spec_transactions()@,
    ;

    /// See [`BlockBody`].
    fn withdrawals(&self) -> Option<&Withdrawals>;

    /// See [`BlockBody`].
    fn ommers(&self) -> &[Header];

    /// See [`BlockBody`].
    fn requests(&self) -> Option<&Requests>;

    /// See [`BlockBody`].
    fn calculate_tx_root(&self) -> B256;

    /// See [`BlockBody`].
    fn calculate_ommers_root(&self) -> B256;

    /// See [`BlockBody`].
    fn calculate_withdrawals_root(&self) -> Option<B256>;

    /// See [`BlockBody`].
    fn blob_versioned_hashes(&self) -> Vec<&B256>;

    /// See [`BlockBody`].
    fn blob_versioned_hashes_copied(&self) -> Vec<B256>;

    /// See [`BlockBody`].
    fn recover_signers(&self) -> (signers: Option<Vec<Address>>)
        ensures
            match (signers, spec_all_signers(self.spec_transactions()@)) {
                (Some(recovered), Some(expected)) => recovered@ == expected,
                (None, None) => true,
                _ => false,
            },
    {
        recover_signers_of(self.transactions())
    }

    /// See [`BlockBody`].
    fn has_blob_transactions(&self) -> (found: bool)
        ensures
            found == exists|i: int|
                0 <= i < self.spec_transactions()@.len() && (
                #[trigger] self.spec_transactions()@[i]).spec_is_eip4844(),
    {
        has_blob_transactions_in(self.transactions())
    }

    /// See [`BlockBody`].
    fn has_eip7702_transactions(&self) -> (found: bool)
        ensures
            found == exists|i: int|
                0 <= i < self.spec_transactions()@.len() && (
                #[trigger] self.spec_transactions()@[i]).spec_is_eip7702(),
    {
        has_eip7702_transactions_in(self.transactions())
    }

    /// See [`BlockBody`].
    fn blob_transactions(&self) -> (blobs: Vec<&SignedTx>)
        ensures
            blobs@.map_values(|tx: &SignedTx| *tx) == self.spec_transactions()@.filter(
                |tx: SignedTx| tx.spec_is_eip4844(),
            ),
    {
        blob_transactions_of(self.transactions())
    }
}

} // verus!
