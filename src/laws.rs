use vstd::prelude::*;

verus! {

use vstd::arithmetic::div_mod::lemma_add_mod_noop;
use vstd::wrapping::u64_specs;
use crate::digest::{
    accumulate, digest_of, hash_total, lemma_digest_push, lemma_hash_total_concat,
    lemma_hash_total_nonnegative, lemma_hash_total_permutation, lemma_wrapping_add_is_mod,
    modulus,
};

/// Reordering the element hashes never changes the digest: two sequences that hold the
/// same hashes, each as often, have the same digest.
pub proof fn law_permutation_invariance(hashes: Seq<u64>, other: Seq<u64>)
    requires
        hashes.to_multiset() == other.to_multiset(),
    ensures
        digest_of(hashes) == digest_of(other),
{
    lemma_hash_total_permutation(hashes, other);
}

/// Splitting a sequence anywhere, digesting both parts and adding the two digests with
/// wraparound gives the digest of the whole.
pub proof fn law_partition_merge(front: Seq<u64>, back: Seq<u64>)
    ensures
        digest_of(front + back) == u64_specs::wrapping_add(digest_of(front), digest_of(back)),
{
    lemma_hash_total_concat(front, back);
    lemma_hash_total_nonnegative(front);
    lemma_hash_total_nonnegative(back);
    lemma_wrapping_add_is_mod(digest_of(front), digest_of(back));
    lemma_add_mod_noop(hash_total(front), hash_total(back), modulus());
}

/// The digest of no elements is 0.
pub proof fn law_empty_digest()
    ensures
        digest_of(Seq::<u64>::empty()) == 0,
{
}

/// Adding the element hashes one at a time into a running total that starts at 0 ends at
/// the one-shot digest of the whole sequence.
pub proof fn law_accumulator_matches_one_shot(hashes: Seq<u64>)
    ensures
        accumulate(0, hashes) == digest_of(hashes),
    decreases hashes.len(),
{
    if hashes.len() > 0 {
        let rest = hashes.drop_last();
        law_accumulator_matches_one_shot(rest);
        lemma_digest_push(rest, hashes.last());
        assert(rest.push(hashes.last()) =~= hashes);
    }
}

} // verus!
