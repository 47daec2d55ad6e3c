//! Pairwise reduction of an ordered list of digests to a single root.

use crate::hash::{digest_hex, HashMaker};
use vstd::prelude::*;

verus! {

/// One halving round. Adjacent digests are paired and each pair becomes the
/// digest of `left` followed by `right`, as text. A trailing digest without a
/// partner becomes the digest of itself alone: it is not doubled.
pub open spec fn merkle_round(level: Seq<Seq<char>>) -> Seq<Seq<char>> {
    Seq::new(
        ((level.len() + 1) / 2) as nat,
        |i: int|
            if 2 * i + 1 < level.len() {
                digest_hex(level[2 * i] + level[2 * i + 1])
            } else {
                digest_hex(level[2 * i])
            },
    )
}

/// Rounds are repeated while more than one digest is left. A list of one
/// digest, or of none, is its own reduction.
pub open spec fn merkle_reduce(leaves: Seq<Seq<char>>) -> Seq<Seq<char>>
    decreases leaves.len(),
{
    if leaves.len() <= 1 {
        leaves
    } else {
        merkle_reduce(merkle_round(leaves))
    }
}

/// Reduces ordered digests to a root by repeated pairwise hashing.
pub struct MerkleCombiner;

impl MerkleCombiner {
    /// One round of pairing over `level`.
    pub fn round(level: &Vec<String>) -> (next: Vec<String>)
        ensures
            next.deep_view() == merkle_round(level.deep_view()),
            next.len() == (level.len() + 1) / 2,
    {
        let ghost target = merkle_round(level.deep_view());
        let mut next: Vec<String> = Vec::new();
        let mut i: usize = 0;
        while i < level.len()
            invariant
                i <= level.len(),
                i % 2 == 0 || i == level.len(),
                next.len() == (i + 1) / 2,
                target == merkle_round(level.deep_view()),
                forall|j: int| 0 <= j < next.len() ==> (#[trigger] next[j])@ == target[j],
            decreases level.len() - i,
        {
            let ghost k = next.len() as int;
            if i + 1 < level.len() {
                let mut pair = level[i].clone();
                pair.append(level[i + 1].as_str());
                let digest = HashMaker::generate(pair.as_str());
                assert(level.deep_view()[2 * k] == level[i as int]@);
                assert(level.deep_view()[2 * k + 1] == level[i as int + 1]@);
                next.push(digest);
                i += 2;
            } else {
                let digest = HashMaker::generate(level[i].as_str());
                assert(level.deep_view()[2 * k] == level[i as int]@);
                next.push(digest);
                i += 1;
            }
        }
        assert(next.deep_view() =~= target);
        next
    }

    /// Reduces `leaves` until at most one digest is left and returns what is
    /// left: the root as the only element, or `leaves` itself where it held
    /// fewer than two digests.
    pub fn reduce(leaves: Vec<String>) -> (r: Vec<String>)
        ensures
            r.deep_view() == merkle_reduce(leaves.deep_view()),
            leaves.len() <= 1 ==> r == leaves,
            leaves.len() >= 1 ==> r.len() == 1,
    {
        let ghost given = leaves;
        let mut level = leaves;
        while level.len() > 1
            invariant
                merkle_reduce(level.deep_view()) == merkle_reduce(given.deep_view()),
                given.len() >= 1 ==> level.len() >= 1,
                given.len() <= 1 ==> level == given,
            decreases level.len(),
        {
            level = Self::round(&level);
        }
        level
    }
}

/// Whatever the number of digests, as long as there is one, the reduction
/// ends with exactly one: the root.
pub proof fn lemma_reduce_ends_with_one(leaves: Seq<Seq<char>>)
    requires
        leaves.len() >= 1,
    ensures
        merkle_reduce(leaves).len() == 1,
    decreases leaves.len(),
{
    if leaves.len() > 1 {
        lemma_reduce_ends_with_one(merkle_round(leaves));
    }
}

/// A single digest is returned as it is: no round runs.
pub proof fn lemma_reduce_single(h1: Seq<char>)
    ensures
        merkle_reduce(seq![h1]) == seq![h1],
{
}

/// Two digests reduce to the digest of the first followed by the second.
pub proof fn lemma_reduce_pair(h1: Seq<char>, h2: Seq<char>)
    ensures
        merkle_reduce(seq![h1, h2]) == seq![digest_hex(h1 + h2)],
{
    let leaves = seq![h1, h2];
    assert(merkle_round(leaves) =~= seq![digest_hex(h1 + h2)]);
    assert(merkle_reduce(leaves) == merkle_reduce(merkle_round(leaves)));
}

/// Three digests take two rounds. The first pairs the first two and hashes
/// the third alone; the second combines the two results.
pub proof fn lemma_reduce_triple(h1: Seq<char>, h2: Seq<char>, h3: Seq<char>)
    ensures
        merkle_round(seq![h1, h2, h3]) == seq![digest_hex(h1 + h2), digest_hex(h3)],
        merkle_reduce(seq![h1, h2, h3]) == seq![
            digest_hex(digest_hex(h1 + h2) + digest_hex(h3)),
        ],
{
    let leaves = seq![h1, h2, h3];
    let first = seq![digest_hex(h1 + h2), digest_hex(h3)];
    assert(merkle_round(leaves) =~= first);
    assert(merkle_reduce(leaves) == merkle_reduce(first));
    lemma_reduce_pair(digest_hex(h1 + h2), digest_hex(h3));
}

} // verus!
