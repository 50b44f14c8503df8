use std::collections::hash_map::DefaultHasher;
use std::hash::{Hash, Hasher};
use std::marker::PhantomData;
use vstd::prelude::*;

verus! {

use vstd::wrapping::u64_specs;
use crate::digest::{digest_of, lemma_digest_push};

/// Relies on `Hash::hash`: feeds the whole of `value` into `state`.
#[verifier::external_body]
fn feed<H: Hash + ?Sized, T: Hasher>(value: &H, state: &mut T) {
    value.hash(state)
}

/// Relies on `Hasher::finish`: the hash of what `state` was fed. Nothing is stated of the
/// value, which depends on the hashing algorithm `T`.
#[verifier::external_body]
fn finished<T: Hasher>(state: &T) -> u64 {
    state.finish()
}

/// The hash of one element on its own: a fresh `T` is fed the whole element, then finished.
fn element_hash<T: Hasher + Default, H: Hash + ?Sized>(value: &H) -> u64 {
    let mut state = T::default();
    feed(value, &mut state);
    finished(&state)
}

/// An accumulator of element hashes whose result does not depend on the order in which
/// elements are written.
///
/// Each element is hashed on its own with a fresh hasher of type `T`, and the element
/// hashes are added with wraparound, so the running total is the sum of all the element
/// hashes seen so far, modulo 2^64.
pub struct UnorderedHasher<T = DefaultHasher> {
    hash: u64,
    hashes: Ghost<Seq<u64>>,
    _marker: PhantomData<T>,
}

impl<T> UnorderedHasher<T> {
    /// The element hashes written so far, in the order they were written.
    pub closed spec fn element_hashes(&self) -> Seq<u64> {
        self.hashes@
    }

    /// The running total: the digest of the element hashes written so far.
    pub closed spec fn total(&self) -> u64 {
        self.hash
    }

    #[verifier::type_invariant]
    spec fn inv(&self) -> bool {
        self.hash == digest_of(self.hashes@)
    }

    /// The current digest; the accumulator is left as it is.
    pub fn finish(&self) -> (r: u64)
        ensures
            r == self.total(),
            r == digest_of(self.element_hashes()),
    {
        proof {
            use_type_invariant(self);
        }
        self.hash
    }

    /// Adds one finished element hash into the running total.
    pub fn write_hash(&mut self, h: u64)
        ensures
            final(self).element_hashes() == old(self).element_hashes().push(h),
            final(self).total() == u64_specs::wrapping_add(old(self).total(), h),
    {
        proof {
            use_type_invariant(&*self);
            lemma_digest_push(self.hashes@, h);
        }
        let hashes = Ghost(self.hashes@.push(h));
        *self = UnorderedHasher { hash: self.hash.wrapping_add(h), hashes, _marker: PhantomData };
    }
}

impl<T: Hasher + Default> UnorderedHasher<T> {
    /// A fresh accumulator: no element written, running total 0.
    pub fn new() -> (r: Self)
        ensures
            r.element_hashes() == Seq::<u64>::empty(),
            r.total() == 0,
    {
        UnorderedHasher { hash: 0, hashes: Ghost(Seq::empty()), _marker: PhantomData }
    }

    /// Hashes `value` on its own with a fresh `T` and adds the result into the running
    /// total. Exactly one element hash is added, whatever the hashing algorithm returns.
    pub fn write<H: Hash + ?Sized>(&mut self, value: &H)
        ensures
            final(self).element_hashes().len() == old(self).element_hashes().len() + 1,
            final(self).element_hashes().drop_last() == old(self).element_hashes(),
            final(self).total() == u64_specs::wrapping_add(
                old(self).total(),
                final(self).element_hashes().last(),
            ),
    {
        let h = element_hash::<T, H>(value);
        self.write_hash(h);
        proof {
            assert(final(self).element_hashes().drop_last() =~= old(self).element_hashes());
        }
    }
}

impl Default for UnorderedHasher {
    fn default() -> (r: Self)
        ensures
            r.element_hashes() == Seq::<u64>::empty(),
            r.total() == 0,
    {
        Self::new()
    }
}

/// The digest of a bag of finished element hashes: their sum with wraparound.
pub fn combine_hashes(hashes: &[u64]) -> (r: u64)
    ensures
        r == digest_of(hashes@),
{
    let mut acc: UnorderedHasher = UnorderedHasher::new();
    let mut i: usize = 0;
    while i < hashes.len()
        invariant
            i <= hashes.len(),
            acc.element_hashes() == hashes@.subrange(0, i as int),
        decreases hashes.len() - i,
    {
        acc.write_hash(hashes[i]);
        proof {
            assert(hashes@.subrange(0, i + 1) =~= hashes@.subrange(0, i as int).push(hashes@[i as int]));
        }
        i = i + 1;
    }
    proof {
        assert(hashes@.subrange(0, i as int) =~= hashes@);
    }
    acc.finish()
}

/// The digest of a sequence of values, each hashed on its own with the standard library's
/// default hasher: the same as writing every value into a fresh `UnorderedHasher` and
/// finishing it. There is one element hash per value, and an empty slice gives 0.
pub fn unordered_hash<T: Hash>(values: &[T]) -> (r: u64)
    ensures
        exists|hashes: Seq<u64>| hashes.len() == values@.len() && r == digest_of(hashes),
        values@.len() == 0 ==> r == 0,
{
    let mut acc: UnorderedHasher = UnorderedHasher::new();
    let mut i: usize = 0;
    while i < values.len()
        invariant
            i <= values.len(),
            acc.element_hashes().len() == i,
        decreases values.len() - i,
    {
        acc.write(&values[i]);
        i = i + 1;
    }
    let r = acc.finish();
    proof {
        if values@.len() == 0 {
            assert(acc.element_hashes() =~= Seq::<u64>::empty());
        }
    }
    r
}

} // verus!
