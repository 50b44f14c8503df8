pub mod digest;
pub mod hasher;
pub mod laws;

pub use hasher::{combine_hashes, unordered_hash, UnorderedHasher};
