use vstd::prelude::*;
use vstd::string::StringSliceAdditionalSpecFns;

verus! {

/// 32-bit XXH32 of a byte sequence under a seed.
pub uninterp spec fn xxh32_of(bytes: Seq<u8>, seed: u32) -> u32;

/// 64-bit XXH64 of a byte sequence under a seed.
pub uninterp spec fn xxh64_of(bytes: Seq<u8>, seed: u64) -> u64;

/// 64-bit XXH3 of a byte sequence under a seed.
pub uninterp spec fn xxh3_64_of(bytes: Seq<u8>, seed: u64) -> u64;

/// 128-bit XXH3 of a byte sequence under a seed, as its 16 little-endian
/// bytes.
pub uninterp spec fn xxh3_128_of(bytes: Seq<u8>, seed: u64) -> Seq<u8>;

/// Relies on xxhash_rust::xxh32::xxh32 over the value's UTF-8 bytes.
#[verifier::external_body]
pub(crate) fn xxh32_call(value: &str, seed: u32) -> (r: u32)
    ensures
        r == xxh32_of(value.spec_bytes(), seed),
{
    xxhash_rust::xxh32::xxh32(value.as_bytes(), seed)
}

/// Relies on xxhash_rust::xxh64::xxh64 over the value's UTF-8 bytes.
#[verifier::external_body]
pub(crate) fn xxh64_call(value: &str, seed: u64) -> (r: u64)
    ensures
        r == xxh64_of(value.spec_bytes(), seed),
{
    xxhash_rust::xxh64::xxh64(value.as_bytes(), seed)
}

/// Relies on xxhash_rust::xxh3::xxh3_64_with_seed over the value's UTF-8
/// bytes.
#[verifier::external_body]
pub(crate) fn xxh3_64_call(value: &str, seed: u64) -> (r: u64)
    ensures
        r == xxh3_64_of(value.spec_bytes(), seed),
{
    xxhash_rust::xxh3::xxh3_64_with_seed(value.as_bytes(), seed)
}

/// Relies on xxhash_rust::xxh3::xxh3_128_with_seed over the value's UTF-8
/// bytes; the 128-bit result is rendered as its little-endian bytes.
#[verifier::external_body]
pub(crate) fn xxh3_128_call(value: &str, seed: u64) -> (r: Vec<u8>)
    ensures
        r@ == xxh3_128_of(value.spec_bytes(), seed),
        r@.len() == 16,
{
    xxhash_rust::xxh3::xxh3_128_with_seed(value.as_bytes(), seed).to_le_bytes().to_vec()
}

/// 32-bit XXH32 of one slot: a missing value stays missing.
pub fn xxhash_32(value: Option<&str>, seed: u32) -> (r: Option<u32>)
    ensures
        r is Some <==> value is Some,
        value matches Some(v) ==> r == Some(xxh32_of(v.spec_bytes(), seed)),
{
    match value {
        Some(v) => Some(xxh32_call(v, seed)),
        None => None,
    }
}

/// 64-bit XXH64 of one slot: a missing value stays missing.
pub fn xxhash_64(value: Option<&str>, seed: u64) -> (r: Option<u64>)
    ensures
        r is Some <==> value is Some,
        value matches Some(v) ==> r == Some(xxh64_of(v.spec_bytes(), seed)),
{
    match value {
        Some(v) => Some(xxh64_call(v, seed)),
        None => None,
    }
}

/// 64-bit XXH3 of one slot: a missing value stays missing.
pub fn xxhash3_64(value: Option<&str>, seed: u64) -> (r: Option<u64>)
    ensures
        r is Some <==> value is Some,
        value matches Some(v) ==> r == Some(xxh3_64_of(v.spec_bytes(), seed)),
{
    match value {
        Some(v) => Some(xxh3_64_call(v, seed)),
        None => None,
    }
}

/// 128-bit XXH3 of one slot: a missing value stays missing.
pub fn xxhash3_128(value: Option<&str>, seed: u64) -> (r: Option<Vec<u8>>)
    ensures
        r is Some <==> value is Some,
        value matches Some(v) ==> r matches Some(b) && b@ == xxh3_128_of(v.spec_bytes(), seed),
{
    match value {
        Some(v) => Some(xxh3_128_call(v, seed)),
        None => None,
    }
}

} // verus!
