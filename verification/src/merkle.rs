//! The commitment builder: one root digest for an ordered list of
//! transactions, by pairwise reduction level by level.

use crate::canonical::transaction_digest;
use crate::chain::Chain;
use crate::digest::{digest_of, zero_digest};
use crate::json::json_string_text;
use crate::records::{transaction_views, Transaction, TransactionView};
use vstd::prelude::*;
use vstd::string::StringExecFns;

verus! {

/// The digest of two neighbours: the digest of their texts joined, taken
/// as a string.
pub open spec fn pair_digest(left: Seq<char>, right: Seq<char>) -> Seq<char> {
    digest_of(json_string_text(left + right))
}

/// The right-hand neighbour of the `i`-th pair of `level`. Where the level
/// has an odd number of digests, its last digest is paired with itself.
pub open spec fn right_neighbour(level: Seq<Seq<char>>, i: int) -> Seq<char> {
    if 2 * i + 1 < level.len() {
        level[2 * i + 1]
    } else {
        level[2 * i]
    }
}

/// The level above `level`: the digests of its pairs, left to right.
pub open spec fn next_level(level: Seq<Seq<char>>) -> Seq<Seq<char>> {
    Seq::new(((level.len() + 1) / 2) as nat, |i: int| pair_digest(level[2 * i], right_neighbour(level, i)))
}

/// The root above `level`: a single digest is its own root, and a longer
/// level is reduced through the level above it.
pub open spec fn reduce(level: Seq<Seq<char>>) -> Seq<char>
    decreases level.len(),
{
    if level.len() == 0 {
        zero_digest()
    } else if level.len() == 1 {
        level[0]
    } else {
        reduce(next_level(level))
    }
}

/// The leaves of the tree: the digests of the transactions, in their order.
pub open spec fn leaf_digests(transactions: Seq<TransactionView>) -> Seq<Seq<char>> {
    Seq::new(transactions.len(), |i: int| transaction_digest(transactions[i]))
}

/// The Merkle root of a list of transactions; the sentinel for the empty
/// list.
pub open spec fn merkle_root(transactions: Seq<TransactionView>) -> Seq<char> {
    reduce(leaf_digests(transactions))
}

/// The root of no transactions is the sentinel.
pub proof fn merkle_root_of_none()
    ensures
        merkle_root(Seq::<TransactionView>::empty()) == zero_digest(),
{
}

/// The root of a single transaction is the digest of that transaction.
pub proof fn merkle_root_of_one(transaction: TransactionView)
    ensures
        merkle_root(seq![transaction]) == transaction_digest(transaction),
{
}

/// A level of odd length is paired off as the level that repeats its last
/// digest: this holds of every level of the reduction, not of the leaves
/// alone.
pub proof fn odd_level_repeats_last(level: Seq<Seq<char>>)
    requires
        level.len() % 2 == 1,
    ensures
        next_level(level) == next_level(level.push(level.last())),
{
}

/// Above a level of two or more digests the root is that of the level
/// above; the level above has half as many digests, rounded up.
pub proof fn root_is_root_of_level_above(level: Seq<Seq<char>>)
    requires
        level.len() >= 2,
    ensures
        reduce(level) == reduce(next_level(level)),
        next_level(level).len() == (level.len() + 1) / 2,
{
}

/// The texts of a list of strings, in the same order.
pub open spec fn texts(strings: Seq<String>) -> Seq<Seq<char>> {
    Seq::new(strings.len(), |i: int| strings[i]@)
}

/// The sentinel digest as a string.
pub fn zero_hash() -> (digest: String)
    ensures
        digest@ == zero_digest(),
{
    let zeros = "0000000000000000000000000000000000000000000000000000000000000000";
    proof {
        reveal_strlit("0000000000000000000000000000000000000000000000000000000000000000");
    }
    String::from_str(zeros)
}

/// The digest of two neighbouring digests.
pub fn pair_hash(left: &String, right: &String) -> (digest: String)
    ensures
        digest@ == pair_digest(left@, right@),
{
    let mut joined = left.clone();
    joined.append(right.as_str());
    Chain::hash(&joined)
}

/// Builds the level above `level`.
pub fn pair_level(level: &Vec<String>) -> (above: Vec<String>)
    ensures
        texts(above@) == next_level(texts(level@)),
        above.len() == (level.len() + 1) / 2,
{
    let pairs = level.len() / 2 + level.len() % 2;
    let mut above: Vec<String> = Vec::new();
    let mut k: usize = 0;
    while k < pairs
        invariant
            pairs == (level.len() + 1) / 2,
            k <= pairs,
            above.len() == k,
            forall|j: int|
                0 <= j < k ==> above[j]@ == pair_digest(
                    level[2 * j]@,
                    right_neighbour(texts(level@), j),
                ),
        decreases pairs - k,
    {
        let left = 2 * k;
        let digest = if left + 1 < level.len() {
            pair_hash(&level[left], &level[left + 1])
        } else {
            pair_hash(&level[left], &level[left])
        };
        above.push(digest);
        k += 1;
    }
    above
}

impl Chain {
    /// The Merkle root of `transactions`: the sentinel where there are none,
    /// the digest of the transaction where there is one, and otherwise the
    /// last digest left when each level has been paired off into the next.
    pub fn get_merkle(transactions: &Vec<Transaction>) -> (root: String)
        ensures
            root@ == merkle_root(transaction_views(transactions@)),
    {
        if transactions.len() == 0 {
            return zero_hash();
        }
        let mut level: Vec<String> = Vec::new();
        let mut i: usize = 0;
        while i < transactions.len()
            invariant
                i <= transactions.len(),
                level.len() == i,
                forall|k: int| 0 <= k < i ==> level[k]@ == transaction_digest(transactions[k]@),
            decreases transactions.len() - i,
        {
            level.push(Chain::hash(&transactions[i]));
            i += 1;
        }
        assert(texts(level@) =~= leaf_digests(transaction_views(transactions@)));
        while level.len() > 1
            invariant
                level.len() >= 1,
                reduce(texts(level@)) == merkle_root(transaction_views(transactions@)),
            decreases level.len(),
        {
            level = pair_level(&level);
        }
        level.remove(0)
    }
}

} // verus!
