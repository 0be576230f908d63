use vstd::prelude::*;
use vstd::string::StringSliceAdditionalSpecFns;

verus! {

/// 32-bit MurmurHash3 (x86 variant) of a byte sequence under a seed.
pub uninterp spec fn murmur3_32_of(bytes: Seq<u8>, seed: u32) -> u32;

/// 128-bit MurmurHash3 (x64 variant) of a byte sequence under a seed, laid
/// out as 16 bytes: each 64-bit half little-endian, low half first.
pub uninterp spec fn murmur3_128_of(bytes: Seq<u8>, seed: u32) -> Seq<u8>;

/// Relies on mur3::murmurhash3_x86_32 over the value's UTF-8 bytes.
#[verifier::external_body]
pub(crate) fn murmur3_x86_32(value: &str, seed: u32) -> (r: u32)
    ensures
        r == murmur3_32_of(value.spec_bytes(), seed),
{
    mur3::murmurhash3_x86_32(value.as_bytes(), seed)
}

/// Relies on mur3::murmurhash3_x64_128 over the value's UTF-8 bytes; the two
/// 64-bit halves of its result are appended little-endian, low half first.
#[verifier::external_body]
pub(crate) fn murmur3_x64_128(value: &str, seed: u32) -> (r: Vec<u8>)
    ensures
        r@ == murmur3_128_of(value.spec_bytes(), seed),
        r@.len() == 16,
{
    let hash = mur3::murmurhash3_x64_128(value.as_bytes(), seed);
    let mut result = Vec::new();
    result.extend_from_slice(hash.0.to_le_bytes().as_ref());
    result.extend_from_slice(hash.1.to_le_bytes().as_ref());
    result
}

/// 32-bit MurmurHash3 of one slot: a missing value stays missing.
pub fn murmurhash3_32(value: Option<&str>, seed: u32) -> (r: Option<u32>)
    ensures
        r is Some <==> value is Some,
        value matches Some(v) ==> r == Some(murmur3_32_of(v.spec_bytes(), seed)),
{
    match value {
        Some(v) => Some(murmur3_x86_32(v, seed)),
        None => None,
    }
}

/// 128-bit MurmurHash3 of one slot: a missing value stays missing.
pub fn murmurhash3_128(value: Option<&str>, seed: u32) -> (r: Option<Vec<u8>>)
    ensures
        r is Some <==> value is Some,
        value matches Some(v) ==> r matches Some(b) && b@ == murmur3_128_of(
            v.spec_bytes(),
            seed,
        ),
{
    match value {
        Some(v) => Some(murmur3_x64_128(v, seed)),
        None => None,
    }
}

} // verus!
