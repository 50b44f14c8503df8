use vstd::prelude::*;

verus! {

use vstd::arithmetic::div_mod::{lemma_add_mod_noop, lemma_fundamental_div_mod_converse, lemma_small_mod};
use vstd::wrapping::u64_specs;

/// The number of distinct `u64` values: wraparound addition works modulo this.
pub open spec fn modulus() -> int {
    0x1_0000_0000_0000_0000
}

/// The exact (unbounded) sum of a sequence of element hashes.
pub open spec fn hash_total(hashes: Seq<u64>) -> int
    decreases hashes.len(),
{
    if hashes.len() == 0 {
        0
    } else {
        hash_total(hashes.drop_last()) + hashes.last()
    }
}

/// The digest of a bag of element hashes: their sum modulo 2^64.
pub open spec fn digest_of(hashes: Seq<u64>) -> u64 {
    (hash_total(hashes) % modulus()) as u64
}

/// Folding the hashes one at a time, left to right, into `start` with wraparound addition.
pub open spec fn accumulate(start: u64, hashes: Seq<u64>) -> u64
    decreases hashes.len(),
{
    if hashes.len() == 0 {
        start
    } else {
        u64_specs::wrapping_add(accumulate(start, hashes.drop_last()), hashes.last())
    }
}

/// Wraparound addition on `u64` is addition modulo 2^64.
pub proof fn lemma_wrapping_add_is_mod(x: u64, y: u64)
    ensures
        u64_specs::wrapping_add(x, y) as int == (x as int + y as int) % modulus(),
{
    let s = x as int + y as int;
    if s > u64::MAX {
        lemma_fundamental_div_mod_converse(s, modulus(), 1, s - modulus());
    } else {
        lemma_small_mod(s as nat, modulus() as nat);
    }
}

/// Adding one more hash into a digest with wraparound addition gives the digest of the
/// longer sequence.
pub proof fn lemma_digest_push(hashes: Seq<u64>, h: u64)
    ensures
        digest_of(hashes.push(h)) == u64_specs::wrapping_add(digest_of(hashes), h),
{
    let t = hash_total(hashes);
    assert(hashes.push(h).drop_last() =~= hashes);
    assert(hash_total(hashes.push(h)) == t + h);
    lemma_hash_total_nonnegative(hashes);
    lemma_wrapping_add_is_mod(digest_of(hashes), h);
    lemma_add_mod_noop(t, h as int, modulus());
    lemma_small_mod(h as nat, modulus() as nat);
    lemma_small_mod((t % modulus()) as nat, modulus() as nat);
}

/// A sum of unsigned values is never negative.
pub proof fn lemma_hash_total_nonnegative(hashes: Seq<u64>)
    ensures
        hash_total(hashes) >= 0,
    decreases hashes.len(),
{
    if hashes.len() > 0 {
        lemma_hash_total_nonnegative(hashes.drop_last());
    }
}

/// Taking one hash out of any position lowers the total by exactly that hash.
pub proof fn lemma_hash_total_remove(hashes: Seq<u64>, i: int)
    requires
        0 <= i < hashes.len(),
    ensures
        hash_total(hashes) == hash_total(hashes.remove(i)) + hashes[i],
    decreases hashes.len(),
{
    if i == hashes.len() - 1 {
        assert(hashes.remove(i) =~= hashes.drop_last());
    } else {
        let rest = hashes.drop_last();
        lemma_hash_total_remove(rest, i);
        assert(hashes.remove(i).drop_last() =~= rest.remove(i));
        assert(hashes.remove(i).last() == hashes.last());
    }
}

/// The exact total of two sequences joined is the sum of their totals.
pub proof fn lemma_hash_total_concat(front: Seq<u64>, back: Seq<u64>)
    ensures
        hash_total(front + back) == hash_total(front) + hash_total(back),
    decreases back.len(),
{
    if back.len() == 0 {
        assert(front + back =~= front);
    } else {
        lemma_hash_total_concat(front, back.drop_last());
        assert((front + back).drop_last() =~= front + back.drop_last());
        assert((front + back).last() == back.last());
    }
}

/// The exact total depends only on which hashes occur and how often, not on their order.
pub proof fn lemma_hash_total_permutation(hashes: Seq<u64>, other: Seq<u64>)
    requires
        hashes.to_multiset() == other.to_multiset(),
    ensures
        hash_total(hashes) == hash_total(other),
    decreases hashes.len(),
{
    broadcast use vstd::seq_lib::group_to_multiset_ensures;

    hashes.to_multiset_ensures();
    other.to_multiset_ensures();
    if hashes.len() == 0 {
        assert(other.len() == 0);
        assert(other =~= hashes);
    } else {
        let x = hashes.last();
        let rest = hashes.drop_last();
        assert(hashes =~= rest.push(x));
        rest.to_multiset_ensures();
        assert(hashes.to_multiset().count(x) > 0);
        assert(other.contains(x));
        let i = choose|i: int| 0 <= i < other.len() && other[i] == x;
        let other_rest = other.remove(i);
        assert(other_rest.to_multiset() =~= rest.to_multiset());
        lemma_hash_total_permutation(rest, other_rest);
        lemma_hash_total_remove(other, i);
    }
}

} // verus!
