use alloy_eips::eip4895::Withdrawal;
use alloy_eips::eip7685::Requests;
use alloy_primitives::{Address, B256};
use reth_prune::primitives::{
    blob_transactions_of, has_blob_transactions_in, has_eip7702_transactions_in,
    parallel_sender_recovery_threshold, recover_signers_of, BlockBody, BlockHeader, Body,
    FullBlock, FullBlockBody, FullNodePrimitives, FullReceipt, FullTxType, InMemorySize,
    NodePrimitives, ReceiptTy, SignedTransaction,
};

/// Kind of a test transaction.
#[derive(Clone, Copy, Debug, PartialEq, Eq)]
enum Kind {
    Legacy,
    Blob,
    SetCode,
}

/// A transaction that knows its signer, if it has one.
#[derive(Clone, Debug, PartialEq, Eq)]
struct TestTx {
    id: u8,
    kind: Kind,
    signer: Option<Address>,
}

impl SignedTransaction for TestTx {
    fn spec_recover_signer(&self) -> Option<Address> {
        self.signer
    }

    fn spec_is_eip4844(&self) -> bool {
        self.kind == Kind::Blob
    }

    fn spec_is_eip7702(&self) -> bool {
        self.kind == Kind::SetCode
    }

    fn recover_signer(&self) -> Option<Address> {
        self.signer
    }

    fn is_eip4844(&self) -> bool {
        self.kind == Kind::Blob
    }

    fn is_eip7702(&self) -> bool {
        self.kind == Kind::SetCode
    }
}

/// A header that is nothing but its number.
#[derive(Clone, Debug, Default, PartialEq, Eq)]
struct TestHeader(u64);

impl BlockHeader for TestHeader {}

#[derive(Clone, Debug, Default, PartialEq, Eq)]
struct TestBody {
    transactions: Vec<TestTx>,
    ommers: Vec<TestHeader>,
    withdrawals: Option<Vec<Withdrawal>>,
    hashes: Vec<B256>,
}

impl TestBody {
    fn of(transactions: Vec<TestTx>) -> Self {
        TestBody { transactions, ..Default::default() }
    }
}

impl InMemorySize for TestBody {
    fn size(&self) -> usize {
        self.transactions.len() * std::mem::size_of::<TestTx>()
    }
}

impl BlockBody for TestBody {
    type Transaction = TestTx;
    type Header = TestHeader;
    type Withdrawals = Vec<Withdrawal>;

    fn spec_transactions(&self) -> &[TestTx] {
        &self.transactions
    }

    fn transactions(&self) -> &[TestTx] {
        &self.transactions
    }

    fn withdrawals(&self) -> Option<&Vec<Withdrawal>> {
        self.withdrawals.as_ref()
    }

    fn ommers(&self) -> &[TestHeader] {
        &self.ommers
    }

    fn requests(&self) -> Option<&Requests> {
        None
    }

    fn calculate_tx_root(&self) -> B256 {
        B256::repeat_byte(self.transactions.len() as u8)
    }

    fn calculate_ommers_root(&self) -> B256 {
        B256::repeat_byte(self.ommers.len() as u8)
    }

    fn calculate_withdrawals_root(&self) -> Option<B256> {
        self.withdrawals.as_ref().map(|withdrawals| B256::repeat_byte(withdrawals.len() as u8))
    }

    fn blob_versioned_hashes(&self) -> Vec<&B256> {
        self.hashes.iter().collect()
    }

    fn blob_versioned_hashes_copied(&self) -> Vec<B256> {
        self.hashes.clone()
    }
}

#[derive(Clone, Debug, Default, PartialEq, Eq)]
struct TestBlock {
    transactions: Vec<TestTx>,
    ommers: Vec<TestHeader>,
    withdrawals: Option<Vec<Withdrawal>>,
    hashes: Vec<B256>,
}

impl TestBlock {
    fn of(transactions: Vec<TestTx>) -> Self {
        TestBlock { transactions, ..Default::default() }
    }
}

impl Body<TestHeader, TestTx, Vec<Withdrawal>> for TestBlock {
    fn spec_transactions(&self) -> &[TestTx] {
        &self.transactions
    }

    fn transactions(&self) -> &[TestTx] {
        &self.transactions
    }

    fn withdrawals(&self) -> Option<&Vec<Withdrawal>> {
        self.withdrawals.as_ref()
    }

    fn ommers(&self) -> &[TestHeader] {
        &self.ommers
    }

    fn requests(&self) -> Option<&Requests> {
        None
    }

    fn calculate_tx_root(&self) -> B256 {
        B256::repeat_byte(self.transactions.len() as u8)
    }

    fn calculate_ommers_root(&self) -> B256 {
        B256::repeat_byte(self.ommers.len() as u8)
    }

    fn calculate_withdrawals_root(&self) -> Option<B256> {
        self.withdrawals.as_ref().map(|withdrawals| B256::repeat_byte(withdrawals.len() as u8))
    }

    fn blob_versioned_hashes(&self) -> Vec<&B256> {
        self.hashes.iter().collect()
    }

    fn blob_versioned_hashes_copied(&self) -> Vec<B256> {
        self.hashes.clone()
    }
}

fn address(byte: u8) -> Address {
    Address::repeat_byte(byte)
}

fn tx(id: u8, kind: Kind) -> TestTx {
    TestTx { id, kind, signer: Some(address(id)) }
}

fn unsigned(id: u8) -> TestTx {
    TestTx { id, kind: Kind::Legacy, signer: None }
}

#[test]
fn threshold_depends_on_the_number_of_threads() {
    assert_eq!(parallel_sender_recovery_threshold(0), usize::MAX);
    assert_eq!(parallel_sender_recovery_threshold(1), usize::MAX);
    assert_eq!(parallel_sender_recovery_threshold(2), 10);
    assert_eq!(parallel_sender_recovery_threshold(8), 10);
    assert_eq!(parallel_sender_recovery_threshold(9), 5);
    assert_eq!(parallel_sender_recovery_threshold(usize::MAX), 5);
}

#[test]
fn signers_are_recovered_in_order() {
    let transactions = vec![tx(3, Kind::Legacy), tx(1, Kind::Blob), tx(2, Kind::SetCode)];
    assert_eq!(
        recover_signers_of(&transactions),
        Some(vec![address(3), address(1), address(2)])
    );
    assert_eq!(recover_signers_of::<TestTx>(&[]), Some(vec![]));
}

#[test]
fn one_invalid_signature_fails_the_recovery() {
    let transactions = vec![tx(3, Kind::Legacy), unsigned(1), tx(2, Kind::SetCode)];
    assert_eq!(recover_signers_of(&transactions), None);
    assert_eq!(recover_signers_of(&[unsigned(1)]), None);
    assert_eq!(recover_signers_of(&[tx(1, Kind::Legacy), unsigned(2)]), None);
}

#[test]
fn blob_transactions_are_found() {
    let none = vec![tx(1, Kind::Legacy), tx(2, Kind::SetCode)];
    let some = vec![tx(1, Kind::Legacy), tx(2, Kind::Blob), tx(3, Kind::SetCode), tx(4, Kind::Blob)];
    assert!(!has_blob_transactions_in(&none));
    assert!(has_blob_transactions_in(&some));
    assert!(!has_blob_transactions_in::<TestTx>(&[]));
    assert_eq!(blob_transactions_of(&none), Vec::<&TestTx>::new());
    assert_eq!(blob_transactions_of(&some), vec![&some[1], &some[3]]);
}

#[test]
fn set_code_transactions_are_found() {
    let none = vec![tx(1, Kind::Legacy), tx(2, Kind::Blob)];
    let some = vec![tx(1, Kind::Legacy), tx(2, Kind::Blob), tx(3, Kind::SetCode)];
    assert!(!has_eip7702_transactions_in(&none));
    assert!(has_eip7702_transactions_in(&some));
    assert!(!has_eip7702_transactions_in::<TestTx>(&[]));
}

#[test]
fn block_body_answers_from_its_transactions() {
    let body = TestBody::of(vec![tx(1, Kind::Blob), tx(2, Kind::Legacy)]);
    assert_eq!(body.recover_signers(), Some(vec![address(1), address(2)]));
    assert!(body.has_blob_transactions());
    assert!(!body.has_eip7702_transactions());
    assert_eq!(body.blob_transactions(), vec![&body.transactions[0]]);

    let body = TestBody::of(vec![tx(1, Kind::SetCode), unsigned(2)]);
    assert_eq!(body.recover_signers(), None);
    assert!(!body.has_blob_transactions());
    assert!(body.has_eip7702_transactions());
    assert!(body.blob_transactions().is_empty());
}

#[test]
fn block_body_hands_out_its_other_parts() {
    let body = TestBody {
        transactions: vec![tx(1, Kind::Blob)],
        ommers: vec![TestHeader(7), TestHeader(8)],
        withdrawals: Some(vec![Withdrawal::default()]),
        hashes: vec![B256::repeat_byte(9)],
    };
    assert_eq!(body.ommers(), &[TestHeader(7), TestHeader(8)]);
    assert_eq!(body.withdrawals(), Some(&vec![Withdrawal::default()]));
    assert_eq!(body.requests(), None);
    assert_eq!(body.calculate_tx_root(), B256::repeat_byte(1));
    assert_eq!(body.calculate_ommers_root(), B256::repeat_byte(2));
    assert_eq!(body.calculate_withdrawals_root(), Some(B256::repeat_byte(1)));
    assert_eq!(body.blob_versioned_hashes(), vec![&B256::repeat_byte(9)]);
    assert_eq!(body.blob_versioned_hashes_copied(), vec![B256::repeat_byte(9)]);
    assert_eq!(body.size(), std::mem::size_of::<TestTx>());
    assert_eq!(TestBody::default().calculate_withdrawals_root(), None);
}

#[test]
fn block_answers_as_its_body_does() {
    let block = TestBlock::of(vec![tx(1, Kind::Blob), tx(2, Kind::SetCode)]);
    assert_eq!(block.recover_signers(), Some(vec![address(1), address(2)]));
    assert!(block.has_blob_transactions());
    assert!(block.has_eip7702_transactions());
    assert_eq!(block.blob_transactions(), vec![&block.transactions[0]]);

    let block = TestBlock::of(vec![]);
    assert_eq!(block.recover_signers(), Some(vec![]));
    assert!(!block.has_blob_transactions());
    assert!(!block.has_eip7702_transactions());
}

#[derive(Clone, Debug, Default, PartialEq, Eq)]
struct Block {
    transactions: Vec<SignedTx>,
}

#[derive(Clone, Debug, Default, PartialEq, Eq)]
struct SignedTx {
    blob: bool,
}

#[derive(Clone, Debug, Default, PartialEq, Eq)]
struct TypeId(u8);

#[derive(Clone, Debug, Default, PartialEq, Eq)]
struct Receipt {
    success: bool,
}

#[derive(Clone, Debug, Default, PartialEq, Eq)]
struct Primitives;

impl SignedTransaction for SignedTx {
    fn spec_recover_signer(&self) -> Option<Address> {
        None
    }

    fn spec_is_eip4844(&self) -> bool {
        self.blob
    }

    fn spec_is_eip7702(&self) -> bool {
        false
    }

    fn recover_signer(&self) -> Option<Address> {
        None
    }

    fn is_eip4844(&self) -> bool {
        self.blob
    }

    fn is_eip7702(&self) -> bool {
        false
    }
}

impl InMemorySize for Block {
    fn size(&self) -> usize {
        self.transactions.len()
    }
}

impl BlockBody for Block {
    type Transaction = SignedTx;
    type Header = TestHeader;
    type Withdrawals = Vec<Withdrawal>;

    fn spec_transactions(&self) -> &[SignedTx] {
        &self.transactions
    }

    fn transactions(&self) -> &[SignedTx] {
        &self.transactions
    }

    fn withdrawals(&self) -> Option<&Vec<Withdrawal>> {
        None
    }

    fn ommers(&self) -> &[TestHeader] {
        &[]
    }

    fn requests(&self) -> Option<&Requests> {
        None
    }

    fn calculate_tx_root(&self) -> B256 {
        B256::ZERO
    }

    fn calculate_ommers_root(&self) -> B256 {
        B256::ZERO
    }

    fn calculate_withdrawals_root(&self) -> Option<B256> {
        None
    }

    fn blob_versioned_hashes(&self) -> Vec<&B256> {
        Vec::new()
    }

    fn blob_versioned_hashes_copied(&self) -> Vec<B256> {
        Vec::new()
    }
}

impl FullBlock for Block {
    type Body = Block;
}

impl FullTxType for TypeId {}

impl FullReceipt for Receipt {}

impl FullNodePrimitives for Primitives {
    type Block = Block;
    type SignedTx = SignedTx;
    type TxType = TypeId;
    type Receipt = Receipt;
}

fn default_receipt<N: NodePrimitives>() -> ReceiptTy<N> {
    Default::default()
}

fn is_full_body<B: FullBlockBody>(body: &B) -> usize {
    body.transactions().len()
}

#[test]
fn full_node_primitives_are_node_primitives() {
    assert_eq!(default_receipt::<Primitives>(), Receipt { success: false });
    let block = <Primitives as NodePrimitives>::Block::default();
    assert_eq!(block, Block { transactions: vec![] });
    let block = Block { transactions: vec![SignedTx { blob: true }, SignedTx { blob: false }] };
    assert_eq!(is_full_body(&block), 2);
    assert!(block.has_blob_transactions());
    assert_eq!(block.recover_signers(), None);
}
