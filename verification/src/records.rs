//! The records of the ledger and their mathematical views.

use vstd::prelude::*;

verus! {

/// A decimal amount, carried as the bit pattern of its IEEE-754 binary64
/// encoding. The ledger stores and commits to amounts; it never computes
/// with them.
#[derive(Clone, Copy, Debug, PartialEq, Eq)]
pub struct Amount {
    pub bits: u64,
}

/// A transfer of an amount from a sender to a receiver.
#[derive(Clone, Debug)]
pub struct Transaction {
    pub sender: String,
    pub receiver: String,
    pub amount: Amount,
}

/// What a transaction says, as plain values.
pub struct TransactionView {
    pub sender: Seq<char>,
    pub receiver: Seq<char>,
    pub amount: u64,
}

impl View for Transaction {
    type V = TransactionView;

    open spec fn view(&self) -> TransactionView {
        TransactionView { sender: self.sender@, receiver: self.receiver@, amount: self.amount.bits }
    }
}

/// The header of a block: what the proof of work commits to.
#[derive(Clone, Debug)]
pub struct Blockheader {
    /// Milliseconds since the Unix epoch.
    pub timestamp: i64,
    /// The digest of the previous block's header.
    pub previous_hash: String,
    pub nonce: u64,
    /// The Merkle root of the block's transactions.
    pub merkle: String,
    /// How many leading zero digits the header's digest must show.
    pub difficulty: u32,
}

/// What a header says, as plain values.
pub struct BlockheaderView {
    pub timestamp: i64,
    pub previous_hash: Seq<char>,
    pub nonce: u64,
    pub merkle: Seq<char>,
    pub difficulty: u32,
}

impl BlockheaderView {
    /// The same header with another nonce.
    pub open spec fn with_nonce(self, nonce: u64) -> BlockheaderView {
        BlockheaderView { nonce, ..self }
    }
}

impl View for Blockheader {
    type V = BlockheaderView;

    open spec fn view(&self) -> BlockheaderView {
        BlockheaderView {
            timestamp: self.timestamp,
            previous_hash: self.previous_hash@,
            nonce: self.nonce,
            merkle: self.merkle@,
            difficulty: self.difficulty,
        }
    }
}

/// A sealed header with the transactions it commits to.
#[derive(Clone, Debug)]
pub struct Block {
    pub header: Blockheader,
    /// The number of transactions in the block.
    pub count: u32,
    pub transactions: Vec<Transaction>,
}

/// What a block says, as plain values.
pub struct BlockView {
    pub header: BlockheaderView,
    pub count: u32,
    pub transactions: Seq<TransactionView>,
}

/// The views of a list of transactions, in the same order.
pub open spec fn transaction_views(transactions: Seq<Transaction>) -> Seq<TransactionView> {
    Seq::new(transactions.len(), |i: int| transactions[i]@)
}

impl View for Block {
    type V = BlockView;

    open spec fn view(&self) -> BlockView {
        BlockView {
            header: self.header@,
            count: self.count,
            transactions: transaction_views(self.transactions@),
        }
    }
}

} // verus!
