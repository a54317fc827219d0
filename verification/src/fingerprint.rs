//! Fingerprints: a stable, non-negative 63-bit key for a sequence of bytes.

use std::collections::hash_map::DefaultHasher;
use std::hash::Hasher;
use vstd::prelude::*;
use vstd::std_specs::hash::DefaultHasherAdditionalSpecFns;

verus! {

/// The fingerprint of a byte sequence: the standard hasher's digest of the
/// bytes, written in one piece, reduced modulo the largest `i64`.
pub open spec fn fingerprint_of(bytes: Seq<u8>) -> int {
    (DefaultHasher::spec_finish(seq![bytes]) as int) % (i64::MAX as int)
}

/// Hashes `key` into a cache key in `0 .. i64::MAX`.
pub fn hash_content(key: &[u8]) -> (h: i64)
    ensures
        h == fingerprint_of(key@),
        0 <= h < i64::MAX,
{
    let mut hasher = DefaultHasher::new();
    hasher.write(key);
    let digest: u64 = hasher.finish();
    assert(hasher@ =~= seq![key@]);
    let reduced: u64 = digest % (i64::MAX as u64);
    reduced as i64
}

} // verus!
