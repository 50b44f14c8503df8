use std::collections::hash_map::DefaultHasher;
use std::hash::{Hash, Hasher};

use rand::seq::SliceRandom;
use rand::thread_rng;

use unordered_hasher::{combine_hashes, unordered_hash, UnorderedHasher};

fn order_independent_hash<T: Hash>(value: &[T]) -> u64 {
    let mut hasher: UnorderedHasher = UnorderedHasher::new();
    for item in value {
        hasher.write(item);
    }
    hasher.finish()
}

fn default_hash_of<T: Hash>(value: &T) -> u64 {
    let mut hasher = DefaultHasher::default();
    value.hash(&mut hasher);
    hasher.finish()
}

#[test]
fn list_permutations_have_same_hash() {
    let mut values: Vec<_> = (0..50).collect();

    let mut hash = order_independent_hash(&values);

    while values.pop().is_some() {
        assert_ne!(hash, order_independent_hash(&values));
        hash = order_independent_hash(&values);

        for _ in 0..10 {
            values.shuffle(&mut thread_rng());

            assert_eq!(hash, order_independent_hash(&values));
        }
    }
    assert_eq!(hash, 0);
}

#[test]
fn empty_input_digests_to_zero() {
    let empty: [u32; 0] = [];
    assert_eq!(unordered_hash(&empty), 0);
    assert_eq!(combine_hashes(&[]), 0);
    let fresh: UnorderedHasher = UnorderedHasher::new();
    assert_eq!(fresh.finish(), 0);
    let defaulted: UnorderedHasher = UnorderedHasher::default();
    assert_eq!(defaulted.finish(), 0);
}

#[test]
fn single_value_digest_is_its_default_hash() {
    assert_eq!(unordered_hash(&[7u32]), default_hash_of(&7u32));
    let mut acc: UnorderedHasher = UnorderedHasher::new();
    acc.write("hello");
    assert_eq!(acc.finish(), default_hash_of(&"hello"));
    assert_ne!(acc.finish(), 0);
}

#[test]
fn digest_is_wraparound_sum_of_element_hashes() {
    let values = ["a", "bb", "ccc"];
    let expected = default_hash_of(&"a")
        .wrapping_add(default_hash_of(&"bb"))
        .wrapping_add(default_hash_of(&"ccc"));
    assert_eq!(unordered_hash(&values), expected);
}

#[test]
fn combine_hashes_exact_values() {
    assert_eq!(combine_hashes(&[1, 2, 3]), 6);
    assert_eq!(combine_hashes(&[u64::MAX, 2]), 1);
    assert_eq!(combine_hashes(&[u64::MAX, u64::MAX, u64::MAX]), u64::MAX - 2);
    assert_eq!(combine_hashes(&[5]), 5);
}

#[test]
fn write_hash_wraps_around() {
    let mut acc: UnorderedHasher = UnorderedHasher::new();
    acc.write_hash(u64::MAX);
    assert_eq!(acc.finish(), u64::MAX);
    acc.write_hash(3);
    assert_eq!(acc.finish(), 2);
}

#[test]
fn finish_does_not_change_the_accumulator() {
    let mut acc: UnorderedHasher = UnorderedHasher::new();
    acc.write(&1u64);
    let first = acc.finish();
    assert_eq!(acc.finish(), first);
    acc.write(&2u64);
    assert_eq!(acc.finish(), first.wrapping_add(default_hash_of(&2u64)));
}

#[test]
fn permutations_of_values_agree() {
    let a = unordered_hash(&[3i32, 1, 4, 1, 5, 9, 2, 6]);
    let b = unordered_hash(&[9i32, 6, 5, 4, 3, 2, 1, 1]);
    assert_eq!(a, b);
    assert_eq!(combine_hashes(&[10, 20, 30]), combine_hashes(&[30, 10, 20]));
}

#[test]
fn partition_merge_of_values() {
    let whole = [11u16, 22, 33, 44, 55];
    for split in 0..=whole.len() {
        let (front, back) = whole.split_at(split);
        assert_eq!(
            unordered_hash(&whole),
            unordered_hash(front).wrapping_add(unordered_hash(back))
        );
    }
    assert_eq!(
        combine_hashes(&[u64::MAX, 4, 9]),
        combine_hashes(&[u64::MAX]).wrapping_add(combine_hashes(&[4, 9]))
    );
}

#[test]
fn accumulator_matches_one_shot() {
    let values: Vec<String> = vec!["x".to_string(), "y".to_string(), "z".to_string()];
    let mut acc: UnorderedHasher = UnorderedHasher::new();
    for v in &values {
        acc.write(v);
    }
    assert_eq!(acc.finish(), unordered_hash(&values));

    let hashes = [8u64, u64::MAX, 17];
    let mut acc: UnorderedHasher = UnorderedHasher::new();
    for h in hashes {
        acc.write_hash(h);
    }
    assert_eq!(acc.finish(), combine_hashes(&hashes));
}

#[test]
fn duplicates_count_separately() {
    let once = unordered_hash(&[42u8]);
    let twice = unordered_hash(&[42u8, 42]);
    assert_ne!(once, twice);
    assert_eq!(twice, once.wrapping_add(once));
}

#[test]
fn different_contents_give_different_digests() {
    let mut seen = std::collections::HashSet::new();
    for n in 0u32..200 {
        let values: Vec<u32> = (0..n).collect();
        assert!(seen.insert(unordered_hash(&values)));
    }
}

#[derive(Default)]
struct SumOfBytes {
    total: u64,
}

impl Hasher for SumOfBytes {
    fn finish(&self) -> u64 {
        self.total
    }

    fn write(&mut self, bytes: &[u8]) {
        for b in bytes {
            self.total += *b as u64;
        }
    }
}

#[test]
fn other_hashing_algorithm_is_used_per_element() {
    let mut acc: UnorderedHasher<SumOfBytes> = UnorderedHasher::new();
    acc.write(&[1u8, 2, 3][..]);
    acc.write(&10u8);
    // The slice feeds its length (3 as usize) and then its bytes: 3 + 6; the byte feeds 10.
    assert_eq!(acc.finish(), 19);
}
