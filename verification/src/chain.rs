//! The ledger: an append-only sequence of blocks, a pool of pending
//! transactions and the mining parameters.

use crate::canonical::header_digest;
use crate::digest::zero_digest;
use crate::merkle::{merkle_root, zero_hash};
use crate::pow::{can_seal, has_leading_zeros, is_least_seal, seals};
use crate::records::{
    transaction_views, Amount, Block, BlockView, Blockheader, BlockheaderView, Transaction,
    TransactionView,
};
use chrono::Utc;
use vstd::prelude::*;
use vstd::string::StringExecFns;

verus! {

/// The ledger. A single instance is owned by one caller.
pub struct Chain {
    /// The blocks mined so far, oldest first.
    pub chain: Vec<Block>,
    /// The difficulty that the next block will be sealed at.
    pub difficulty: u32,
    /// The pool of pending transactions, in the order of their submission.
    pub current_transactions: Vec<Transaction>,
    /// Who receives the reward of each block.
    pub miner_address: String,
    /// The reward that the next block will pay.
    pub reward: Amount,
}

/// What a ledger holds, as plain values.
pub struct ChainView {
    pub chain: Seq<BlockView>,
    pub difficulty: u32,
    pub current_transactions: Seq<TransactionView>,
    pub miner_address: Seq<char>,
    pub reward: u64,
}

impl View for Chain {
    type V = ChainView;

    open spec fn view(&self) -> ChainView {
        ChainView {
            chain: Seq::new(self.chain@.len(), |i: int| self.chain@[i]@),
            difficulty: self.difficulty,
            current_transactions: transaction_views(self.current_transactions@),
            miner_address: self.miner_address@,
            reward: self.reward.bits,
        }
    }
}

/// The transaction that credits the miner with the reward.
pub open spec fn reward_transaction(miner_address: Seq<char>, reward: u64) -> TransactionView {
    TransactionView { sender: "Root"@, receiver: miner_address, amount: reward }
}

/// A ledger without blocks and without pending transactions.
pub open spec fn empty_ledger(miner_address: Seq<char>, reward: u64, difficulty: u32) -> ChainView {
    ChainView {
        chain: Seq::empty(),
        difficulty,
        current_transactions: Seq::empty(),
        miner_address,
        reward,
    }
}

/// Whether block `i` of `blocks` is as mining leaves a block: it names its
/// predecessor's digest (the sentinel for the first block), commits to its
/// transactions, counts them, and meets its own difficulty.
pub open spec fn block_valid(blocks: Seq<BlockView>, i: int) -> bool {
    let block = blocks[i];
    &&& block.header.previous_hash == if i == 0 {
        zero_digest()
    } else {
        header_digest(blocks[i - 1].header)
    }
    &&& block.header.merkle == merkle_root(block.transactions)
    &&& block.count == block.transactions.len()
    &&& seals(block.header, block.header.nonce)
}

impl ChainView {
    /// The digest that the next block names as its predecessor: that of the
    /// last header, or the sentinel where there is no block yet.
    pub open spec fn last_digest(self) -> Seq<char> {
        if self.chain.len() == 0 {
            zero_digest()
        } else {
            header_digest(self.chain.last().header)
        }
    }

    /// The transactions of the next block: the reward first, then the pool
    /// in the order of submission.
    pub open spec fn next_transactions(self) -> Seq<TransactionView> {
        seq![reward_transaction(self.miner_address, self.reward)] + self.current_transactions
    }

    /// The header of the next block before it is sealed.
    pub open spec fn candidate_header(self, timestamp: i64) -> BlockheaderView {
        BlockheaderView {
            timestamp,
            previous_hash: self.last_digest(),
            nonce: 0,
            merkle: merkle_root(self.next_transactions()),
            difficulty: self.difficulty,
        }
    }

    /// The next block, sealed with `nonce`.
    pub open spec fn next_block(self, timestamp: i64, nonce: u64) -> BlockView {
        BlockView {
            header: self.candidate_header(timestamp).with_nonce(nonce),
            count: self.next_transactions().len() as u32,
            transactions: self.next_transactions(),
        }
    }

    /// The ledger after the next block, sealed with `nonce`, has been
    /// appended and the pool has gone into it.
    pub open spec fn with_block(self, timestamp: i64, nonce: u64) -> ChainView {
        ChainView {
            chain: self.chain.push(self.next_block(timestamp, nonce)),
            current_transactions: Seq::empty(),
            ..self
        }
    }

    /// How mining at `timestamp` takes this ledger to `after`: where a nonce
    /// seals the candidate header, the block sealed with the least such
    /// nonce is appended and the pool is drained; where none does, nothing
    /// changes.
    pub open spec fn mines_to(self, timestamp: i64, after: ChainView, mined: bool) -> bool {
        let header = self.candidate_header(timestamp);
        &&& mined == can_seal(header)
        &&& mined ==> {
            &&& after.chain.len() == self.chain.len() + 1
            &&& is_least_seal(header, after.chain.last().header.nonce)
            &&& after == self.with_block(timestamp, after.chain.last().header.nonce)
        }
        &&& !mined ==> after == self
    }

    /// Whether every block is valid.
    pub open spec fn blocks_valid(self) -> bool {
        forall|i: int| 0 <= i < self.chain.len() ==> block_valid(self.chain, i)
    }

    /// The invariant of a ledger in use: there is a genesis block, and every
    /// block is valid.
    pub open spec fn well_formed(self) -> bool {
        &&& self.chain.len() >= 1
        &&& self.blocks_valid()
    }
}

/// How founding a ledger at `timestamp` ends: with the genesis block alone,
/// sealed with the least nonce that seals it, or with no ledger where no
/// nonce does.
pub open spec fn founded(
    ledger: Option<Chain>,
    miner_address: Seq<char>,
    reward: u64,
    difficulty: u32,
    timestamp: i64,
) -> bool {
    let start = empty_ledger(miner_address, reward, difficulty);
    match ledger {
        Some(chain) => start.mines_to(timestamp, chain@, true),
        None => !can_seal(start.candidate_header(timestamp)),
    }
}

/// In a ledger whose blocks are valid, every block but the first names the
/// digest of the header before it.
pub proof fn blocks_are_linked(ledger: ChainView, i: int)
    requires
        ledger.blocks_valid(),
        1 <= i < ledger.chain.len(),
    ensures
        ledger.chain[i].header.previous_hash == header_digest(ledger.chain[i - 1].header),
{
    assert(block_valid(ledger.chain, i));
}

/// In a well-formed ledger the first block names the sentinel.
pub proof fn genesis_names_sentinel(ledger: ChainView)
    requires
        ledger.well_formed(),
    ensures
        ledger.chain[0].header.previous_hash == zero_digest(),
{
    assert(block_valid(ledger.chain, 0));
}

/// In a ledger whose blocks are valid, the digest of every header starts
/// with as many zeros as the header's difficulty, and every block's Merkle
/// root and count are those of its transactions.
pub proof fn blocks_are_sealed(ledger: ChainView, i: int)
    requires
        ledger.blocks_valid(),
        0 <= i < ledger.chain.len(),
    ensures
        has_leading_zeros(
            header_digest(ledger.chain[i].header),
            ledger.chain[i].header.difficulty as nat,
        ),
        ledger.chain[i].header.merkle == merkle_root(ledger.chain[i].transactions),
        ledger.chain[i].count == ledger.chain[i].transactions.len(),
{
    assert(block_valid(ledger.chain, i));
}

/// Mining moves the pool into the new block behind the reward: the pool is
/// left empty, the blocks that were there stay as they were, and the new
/// block holds one transaction more than the pool held.
pub proof fn mining_moves_pool(before: ChainView, timestamp: i64, nonce: u64)
    ensures
        before.with_block(timestamp, nonce).current_transactions.len() == 0,
        before.with_block(timestamp, nonce).chain.len() == before.chain.len() + 1,
        before.with_block(timestamp, nonce).chain.take(before.chain.len() as int) == before.chain,
        before.with_block(timestamp, nonce).chain.last().transactions.len()
            == before.current_transactions.len() + 1,
        before.with_block(timestamp, nonce).chain.last().transactions[0] == reward_transaction(
            before.miner_address,
            before.reward,
        ),
        before.with_block(timestamp, nonce).chain.last().transactions.skip(1)
            == before.current_transactions,
{
}

/// The block that mining appends bears the given timestamp, names the digest
/// of the block before it, commits to its own transactions, and is sealed at
/// the difficulty that the ledger had when it was mined: a change of
/// difficulty or reward shows in the next block and in no earlier one.
pub proof fn mined_block_header(before: ChainView, timestamp: i64, nonce: u64)
    ensures
        before.with_block(timestamp, nonce).chain.last().header == (BlockheaderView {
            timestamp,
            previous_hash: before.last_digest(),
            nonce,
            merkle: merkle_root(before.with_block(timestamp, nonce).chain.last().transactions),
            difficulty: before.difficulty,
        }),
        before.with_block(timestamp, nonce).difficulty == before.difficulty,
        before.with_block(timestamp, nonce).reward == before.reward,
        before.with_block(timestamp, nonce).miner_address == before.miner_address,
{
}

/// Appending a sealed block keeps every block valid.
pub proof fn with_block_keeps_valid(before: ChainView, timestamp: i64, nonce: u64)
    requires
        before.blocks_valid(),
        before.current_transactions.len() < u32::MAX,
        seals(before.candidate_header(timestamp), nonce),
    ensures
        before.with_block(timestamp, nonce).blocks_valid(),
{
    let after = before.with_block(timestamp, nonce);
    assert forall|i: int| 0 <= i < after.chain.len() implies block_valid(after.chain, i) by {
        if i < before.chain.len() {
            assert(block_valid(before.chain, i));
        }
    }
}

/// `Utc::now` and `DateTime::timestamp_millis` of the `chrono` crate: the
/// reading of the system clock, in milliseconds since the Unix epoch. Nothing
/// is claimed of the value. `Utc::now` takes the clock to stand at or after
/// the epoch.
#[verifier::external_body]
pub(crate) fn current_millis() -> (now: i64) {
    Utc::now().timestamp_millis()
}

impl Chain {
    /// Founds a ledger and mines its genesis block, which holds the reward
    /// alone and names the sentinel as its predecessor. The block's timestamp
    /// is the clock's reading. There is no ledger where no nonce seals the
    /// genesis block.
    pub fn new(miner_address: String, reward: Amount, difficulty: u32) -> (ledger: Option<Chain>)
        ensures
            exists|timestamp: i64| founded(ledger, miner_address@, reward.bits, difficulty, timestamp),
            ledger matches Some(chain) ==> {
                &&& chain@.well_formed()
                &&& chain@.chain.len() == 1
                &&& chain@.chain[0].header.previous_hash == zero_digest()
                &&& chain@.chain[0].count == 1
                &&& chain@.current_transactions.len() == 0
            },
    {
        let now = current_millis();
        Chain::new_at(miner_address, reward, difficulty, now)
    }

    /// Founds a ledger whose genesis block bears the given timestamp.
    pub fn new_at(miner_address: String, reward: Amount, difficulty: u32, timestamp: i64) -> (ledger:
        Option<Chain>)
        ensures
            founded(ledger, miner_address@, reward.bits, difficulty, timestamp),
            ledger matches Some(chain) ==> {
                &&& chain@.well_formed()
                &&& chain@.chain.len() == 1
                &&& chain@.chain[0].header.previous_hash == zero_digest()
                &&& chain@.chain[0].count == 1
                &&& chain@.current_transactions.len() == 0
            },
    {
        let mut chain = Chain {
            chain: Vec::new(),
            difficulty,
            current_transactions: Vec::new(),
            miner_address,
            reward,
        };
        assert(chain@.chain =~= Seq::empty());
        if chain.generate_new_block_at(timestamp) {
            Some(chain)
        } else {
            None
        }
    }

    /// Adds a transaction to the end of the pool. Nothing is checked of it,
    /// and nothing else changes.
    pub fn new_transaction(&mut self, sender: String, receiver: String, amount: Amount) -> (added:
        bool)
        ensures
            added,
            final(self)@ == (ChainView {
                current_transactions: old(self)@.current_transactions.push(
                    TransactionView { sender: sender@, receiver: receiver@, amount: amount.bits },
                ),
                ..old(self)@
            }),
            final(self)@.current_transactions.len() == old(self)@.current_transactions.len() + 1,
            old(self)@.well_formed() ==> final(self)@.well_formed(),
    {
        let transaction = Transaction { sender, receiver, amount };
        self.current_transactions.push(transaction);
        assert(self@.current_transactions =~= old(self)@.current_transactions.push(transaction@));
        true
    }

    /// The digest of the last block's header, or the sentinel where there is
    /// no block.
    pub fn last_hash(&self) -> (digest: String)
        ensures
            digest@ == self@.last_digest(),
    {
        let len = self.chain.len();
        if len == 0 {
            zero_hash()
        } else {
            Chain::hash(&self.chain[len - 1].header)
        }
    }

    /// Sets the difficulty of the blocks mined from now on.
    pub fn update_difficulty(&mut self, difficulty: u32) -> (updated: bool)
        ensures
            updated,
            final(self)@ == (ChainView { difficulty, ..old(self)@ }),
            old(self)@.well_formed() ==> final(self)@.well_formed(),
    {
        self.difficulty = difficulty;
        true
    }

    /// Sets the reward of the blocks mined from now on.
    pub fn update_reward(&mut self, reward: Amount) -> (updated: bool)
        ensures
            updated,
            final(self)@ == (ChainView { reward: reward.bits, ..old(self)@ }),
            old(self)@.well_formed() ==> final(self)@.well_formed(),
    {
        self.reward = reward;
        true
    }

    /// Mines the next block, with the clock's reading as its timestamp.
    pub fn generate_new_block(&mut self) -> (mined: bool)
        requires
            old(self).current_transactions.len() < u32::MAX,
        ensures
            exists|timestamp: i64| old(self)@.mines_to(timestamp, final(self)@, mined),
            old(self)@.blocks_valid() ==> final(self)@.blocks_valid(),
            old(self)@.well_formed() ==> final(self)@.well_formed(),
            mined ==> {
                &&& final(self)@.current_transactions.len() == 0
                &&& final(self)@.chain.len() == old(self)@.chain.len() + 1
                &&& final(self)@.chain.last().count == old(self)@.current_transactions.len() + 1
            },
    {
        let now = current_millis();
        self.generate_new_block_at(now)
    }

    /// Mines the next block with the given timestamp: the reward and then
    /// the pool go into a block that names the last block's digest, commits
    /// to its transactions by their Merkle root and is sealed by proof of
    /// work; the block is appended and the pool is left empty. Where no
    /// nonce seals the block, the ledger stays as it was and the result is
    /// `false`.
    pub fn generate_new_block_at(&mut self, timestamp: i64) -> (mined: bool)
        requires
            old(self).current_transactions.len() < u32::MAX,
        ensures
            old(self)@.mines_to(timestamp, final(self)@, mined),
            old(self)@.blocks_valid() ==> final(self)@.blocks_valid(),
            old(self)@.well_formed() ==> final(self)@.well_formed(),
            mined ==> {
                &&& final(self)@.current_transactions.len() == 0
                &&& final(self)@.chain.len() == old(self)@.chain.len() + 1
                &&& final(self)@.chain.last().count == old(self)@.current_transactions.len() + 1
            },
    {
        let ghost before = self@;
        let mut header = Blockheader {
            timestamp,
            nonce: 0,
            previous_hash: self.last_hash(),
            merkle: String::new(),
            difficulty: self.difficulty,
        };
        let reward_trans = Transaction {
            sender: String::from_str("Root"),
            receiver: self.miner_address.clone(),
            amount: self.reward,
        };
        let mut transactions: Vec<Transaction> = Vec::new();
        transactions.push(reward_trans);
        transactions.append(&mut self.current_transactions);
        assert(transaction_views(transactions@) =~= before.next_transactions());
        let count = transactions.len() as u32;
        header.merkle = Chain::get_merkle(&transactions);
        let sealed = Chain::proof_of_work(&mut header);
        if sealed {
            let ghost nonce = header.nonce;
            let block = Block { header, count, transactions };
            self.chain.push(block);
            assert(self@.chain =~= before.chain.push(block@));
            assert(self@.current_transactions =~= Seq::empty());
            proof {
                if before.blocks_valid() {
                    with_block_keeps_valid(before, timestamp, nonce);
                }
            }
            true
        } else {
            transactions.remove(0);
            self.current_transactions = transactions;
            assert(self@.current_transactions =~= before.current_transactions);
            false
        }
    }
}

} // verus!
