//! The checksum that guards data on disk.
use vstd::prelude::*;

verus! {

/// The 64-bit XXH3 hash (seed 0) of `data`.
pub uninterp spec fn xxh3_64_of(data: Seq<u8>) -> u64;

/// The 64-bit XXH3 hash of `data`.
///
/// Trusted: calls `xxhash_rust::xxh3::xxh3_64`, a pure function of its input
/// (seed 0, default secret). The contract claims only that the result is
/// `xxh3_64_of` of the bytes; what the hash is on given bytes is not stated.
#[verifier::external_body]
pub(crate) fn xxh3_64(data: &[u8]) -> (h: u64)
    ensures
        h == xxh3_64_of(data@),
{
    xxhash_rust::xxh3::xxh3_64(data)
}

} // verus!
