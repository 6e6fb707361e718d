//! The proof-of-work engine: the search for the least nonce under which a
//! header's digest starts with as many zeros as its difficulty asks for.

use crate::canonical::header_digest;
use crate::chain::Chain;
use crate::records::{Blockheader, BlockheaderView};
use vstd::prelude::*;
use vstd::string::StrSliceExecFns;

verus! {

/// Whether the first `difficulty` characters of `digest` exist and are all
/// the character `0`.
pub open spec fn has_leading_zeros(digest: Seq<char>, difficulty: nat) -> bool {
    &&& difficulty <= digest.len()
    &&& forall|i: int| 0 <= i < difficulty ==> digest[i] == '0'
}

/// Whether `header`, with its nonce set to `nonce`, meets its own difficulty.
pub open spec fn seals(header: BlockheaderView, nonce: u64) -> bool {
    has_leading_zeros(header_digest(header.with_nonce(nonce)), header.difficulty as nat)
}

/// Whether `nonce` is the first nonce, counting up from zero, that seals
/// `header`.
pub open spec fn is_least_seal(header: BlockheaderView, nonce: u64) -> bool {
    &&& seals(header, nonce)
    &&& forall|m: u64| m < nonce ==> !seals(header, m)
}

/// Whether some nonce seals `header`.
pub open spec fn can_seal(header: BlockheaderView) -> bool {
    exists|n: u64| seals(header, n)
}

/// A header has at most one least sealing nonce.
pub proof fn least_seal_is_unique(header: BlockheaderView, a: u64, b: u64)
    requires
        is_least_seal(header, a),
        is_least_seal(header, b),
    ensures
        a == b,
{
}

/// Difficulty zero asks for nothing: the nonce zero seals the header.
pub proof fn zero_difficulty_is_sealed_at_once(header: BlockheaderView)
    requires
        header.difficulty == 0,
    ensures
        is_least_seal(header, 0),
{
}

/// Compares the first `difficulty` characters of `digest` with `0`, one by
/// one. A digest shorter than `difficulty` does not meet it.
pub fn meets_difficulty(digest: &str, difficulty: u32) -> (met: bool)
    ensures
        met == has_leading_zeros(digest@, difficulty as nat),
{
    let len = digest.unicode_len();
    let wanted = difficulty as usize;
    if wanted > len {
        return false;
    }
    let mut i: usize = 0;
    while i < wanted
        invariant
            i <= wanted <= len,
            wanted == difficulty,
            len == digest@.len(),
            forall|k: int| 0 <= k < i ==> digest@[k] == '0',
        decreases wanted - i,
    {
        if digest.get_char(i) != '0' {
            return false;
        }
        i += 1;
    }
    true
}

impl Chain {
    /// Seals `header`: tries the nonces from zero upwards and stops at the
    /// first under which the header's digest meets the header's difficulty.
    /// Returns `false`, with the nonce at its largest value, when no nonce
    /// does. Nothing but the nonce changes.
    pub fn proof_of_work(header: &mut Blockheader) -> (sealed: bool)
        ensures
            final(header)@ == old(header)@.with_nonce(final(header).nonce),
            sealed == can_seal(old(header)@),
            sealed ==> is_least_seal(old(header)@, final(header).nonce),
            !sealed ==> final(header).nonce == u64::MAX,
    {
        let ghost start = header@;
        header.nonce = 0;
        loop
            invariant
                start == old(header)@,
                header@ == start.with_nonce(header.nonce),
                forall|m: u64| m < header.nonce ==> !seals(start, m),
            decreases u64::MAX - header.nonce,
        {
            let digest = Chain::hash(header);
            assert(start.with_nonce(header.nonce).with_nonce(header.nonce) == start.with_nonce(
                header.nonce,
            ));
            if meets_difficulty(digest.as_str(), header.difficulty) {
                assert(seals(start, header.nonce));
                return true;
            }
            if header.nonce == u64::MAX {
                return false;
            }
            header.nonce += 1;
        }
    }
}

} // verus!
