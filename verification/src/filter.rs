//! The hash functions of a Bloom filter: one function for each index.

use vstd::prelude::*;

verus! {

/// The seed of the hash function of index `i`: the low 32 bits of `i`.
pub open spec fn seed_of(i: u64) -> u32 {
    (i % 0x1_0000_0000) as u32
}

/// `fasthash::murmur3::hash32_with_seed`, the 32-bit MurmurHash3 of `data`
/// under `seed`. It reads the bytes in words of the machine, so nothing is
/// said here of the number that comes out. It takes the number of bytes as a
/// signed 32-bit integer: more bytes than that are not handed to it.
#[verifier::external_body]
fn murmur3_32(data: &[u8], seed: u32) -> (r: u32)
    requires
        data@.len() <= i32::MAX,
{
    fasthash::murmur3::hash32_with_seed(data, seed)
}

/// The seed of the hash function of index `i`.
pub fn hash_seed(i: u64) -> (r: u32)
    ensures
        r == seed_of(i),
{
    let low: u64 = i % 0x1_0000_0000;
    low as u32
}

/// The hash of `data` under the hash function of index `i`: `hash_value` of
/// what MurmurHash3 gives under `hash_seed(i)`, which goes by the machine.
pub fn hash(data: &[u8], i: u64) -> (r: u64)
    requires
        data@.len() <= i32::MAX,
    ensures
        r <= u32::MAX,
{
    hash_value(murmur3_32(data, hash_seed(i)))
}

/// The hash that is handed out for the number `h` that MurmurHash3 gave: `h`
/// itself, in 64 bits.
pub fn hash_value(h: u32) -> (r: u64)
    ensures
        r == h,
{
    h as u64
}

} // verus!
