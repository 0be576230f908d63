use vstd::prelude::*;
use vstd::string::StringSliceAdditionalSpecFns;
use std::fmt::Write;
use crate::error::{EngineError, ErrSpec};
use crate::eval::{
    bytes_text_model, bytes_wyhash_model, map_bytes_text_column, map_bytes_wyhash_column,
    map_text_column, map_text_u64_column, text_bytes_op_spec, text_bytes_operation, text_op_spec,
    text_operation, text_text_model, text_u32_op_spec, text_u32_operation, text_u64_model,
    text_u64_op_spec, text_u64_operation, BytesTextCodec, TextBytesCodec, TextCodec, TextU32Codec,
    TextU64Codec,
};
use crate::geohashers::{geohash_decoder, geohash_neighbors};
use crate::geometry::{
    decode_col_model, encode_op_spec, encode_operation, neighbor_names, neighbors_col_model,
    GeoCodec,
};
use crate::series::{DataType, SchemaField, Series};

verus! {

/// Lowercase hex BLAKE3 digest of a byte sequence.
pub uninterp spec fn blake3_hex_of(bytes: Seq<u8>) -> Seq<char>;

/// Lowercase hex MD5 digest of a byte sequence.
pub uninterp spec fn md5_hex_of(bytes: Seq<u8>) -> Seq<char>;

/// Lowercase hex SHA-256 digest of a byte sequence, as rendered by the
/// sha256 crate.
pub uninterp spec fn sha256_digest_of(bytes: Seq<u8>) -> Seq<char>;

/// 64-bit wyhash of a byte sequence under a seed.
pub uninterp spec fn wyhash_of(bytes: Seq<u8>, seed: u64) -> u64;

/// Relies on blake3::hash and its hex display: appends the lowercase hex
/// BLAKE3 digest of the value's UTF-8 bytes to `output`.
#[verifier::external_body]
pub fn blake3_hash_str(value: &str, output: &mut String)
    ensures
        final(output)@ == old(output)@ + blake3_hex_of(value.spec_bytes()),
        final(output)@.len() == old(output)@.len() + 64,
{
    let hash = blake3::hash(value.as_bytes());
    write!(output, "{}", hash).unwrap()
}

/// Relies on blake3::hash and its hex display, over raw bytes.
#[verifier::external_body]
pub(crate) fn blake3_bytes_hex(value: &[u8]) -> (r: String)
    ensures
        r@ == blake3_hex_of(value@),
        r@.len() == 64,
{
    let hash = blake3::hash(value);
    format!("{}", hash)
}

/// Lowercase hex BLAKE3 digest of one byte slot: a missing value stays
/// missing and no digest is computed for it.
pub fn blake3_hash_bytes(value: Option<&[u8]>) -> (r: Option<String>)
    ensures
        r is Some <==> value is Some,
        value matches Some(v) ==> r matches Some(s) && s@ == blake3_hex_of(v@),
{
    match value {
        Some(v) => Some(blake3_bytes_hex(v)),
        None => None,
    }
}

/// Relies on md5::compute and `{:x}` on its output: appends the lowercase
/// hex MD5 digest of the value's UTF-8 bytes to `output`.
#[verifier::external_body]
pub fn md5_hash_str(value: &str, output: &mut String)
    ensures
        final(output)@ == old(output)@ + md5_hex_of(value.spec_bytes()),
        final(output)@.len() == old(output)@.len() + 32,
{
    let hash = md5::compute(value);
    write!(output, "{:x}", hash).unwrap()
}

/// Relies on md5::compute and `{:x}` on its output, over raw bytes.
#[verifier::external_body]
pub(crate) fn md5_bytes_hex(value: &[u8]) -> (r: String)
    ensures
        r@ == md5_hex_of(value@),
        r@.len() == 32,
{
    let hash = md5::compute(value);
    format!("{:x}", hash)
}

/// Lowercase hex MD5 digest of one byte slot: a missing value stays
/// missing and no digest is computed for it.
pub fn md5_hash_bytes(value: Option<&[u8]>) -> (r: Option<String>)
    ensures
        r is Some <==> value is Some,
        value matches Some(v) ==> r matches Some(s) && s@ == md5_hex_of(v@),
{
    match value {
        Some(v) => Some(md5_bytes_hex(v)),
        None => None,
    }
}

/// Relies on sha256::digest: appends the lowercase hex SHA-256 digest of
/// the value's UTF-8 bytes to `output`.
#[verifier::external_body]
pub fn sha256_hash(value: &str, output: &mut String)
    ensures
        final(output)@ == old(output)@ + sha256_digest_of(value.spec_bytes()),
        final(output)@.len() == old(output)@.len() + 64,
{
    let hash = sha256::digest(value);
    write!(output, "{hash}").unwrap()
}

/// Relies on wyhash::wyhash over the value's UTF-8 bytes.
#[verifier::external_body]
pub(crate) fn wyhash_str_call(value: &str, seed: u64) -> (r: u64)
    ensures
        r == wyhash_of(value.spec_bytes(), seed),
{
    wyhash::wyhash(value.as_bytes(), seed)
}

/// Relies on wyhash::wyhash over raw bytes.
#[verifier::external_body]
pub(crate) fn wyhash_bytes_call(value: &[u8], seed: u64) -> (r: u64)
    ensures
        r == wyhash_of(value@, seed),
{
    wyhash::wyhash(value, seed)
}

/// Seed-0 wyhash of one text slot: a missing value stays missing.
pub fn wyhash_hash_str(value: Option<&str>) -> (r: Option<u64>)
    ensures
        r is Some <==> value is Some,
        value matches Some(v) ==> r == Some(wyhash_of(v.spec_bytes(), 0u64)),
{
    match value {
        Some(v) => Some(wyhash_str_call(v, 0)),
        None => None,
    }
}

/// Seed-0 wyhash of one byte slot: a missing value stays missing.
pub fn wyhash_hash_bytes(value: Option<&[u8]>) -> (r: Option<u64>)
    ensures
        r is Some <==> value is Some,
        value matches Some(v) ==> r == Some(wyhash_of(v@, 0u64)),
{
    match value {
        Some(v) => Some(wyhash_bytes_call(v, 0)),
        None => None,
    }
}

/// Full contract of the wyhash operation: a text or byte column gives a
/// 64-bit column of seed-0 wyhash values; anything else is rejected.
pub open spec fn wyhash_op_spec(input: Series, r: Result<Series, EngineError>) -> bool {
    match input {
        Series::Utf8(col) => r matches Ok(Series::UInt64(out)) && out@ == text_u64_model(
            TextU64Codec::Wyhash,
            col.deep_view(),
        ),
        Series::Binary(col) => r matches Ok(Series::UInt64(out)) && out@ == bytes_wyhash_model(
            col.deep_view(),
        ),
        _ => r matches Err(e) && e@ == ErrSpec::InvalidOp(
            "wyhash only works on strings or binary data"@,
        ),
    }
}

/// Seed-0 wyhash of each present row of a text or byte column.
pub fn wyhash(input: &Series) -> (r: Result<Series, EngineError>)
    ensures
        wyhash_op_spec(*input, r),
        r matches Ok(out) ==> out.spec_len() == input.spec_len(),
{
    match input {
        Series::Utf8(col) => Ok(
            Series::UInt64(map_text_u64_column(&TextU64Codec::Wyhash, col)),
        ),
        Series::Binary(col) => Ok(Series::UInt64(map_bytes_wyhash_column(col))),
        _ => Err(
            EngineError::InvalidOperation("wyhash only works on strings or binary data".to_owned()),
        ),
    }
}

/// Full contract of the blake3 operation: a text or byte column gives a text
/// column of lowercase hex BLAKE3 digests; anything else is rejected.
pub open spec fn blake3_op_spec(input: Series, r: Result<Series, EngineError>) -> bool {
    match input {
        Series::Utf8(col) => r matches Ok(Series::Utf8(out)) && out.deep_view() == text_text_model(
            TextCodec::Blake3,
            col.deep_view(),
        ),
        Series::Binary(col) => r matches Ok(Series::Utf8(out)) && out.deep_view()
            == bytes_text_model(BytesTextCodec::Blake3, col.deep_view()),
        _ => r matches Err(e) && e@ == ErrSpec::InvalidOp(
            "blake3 only works on strings or binary data"@,
        ),
    }
}

/// Lowercase hex BLAKE3 digest of each present row of a text or byte column.
pub fn blake3(input: &Series) -> (r: Result<Series, EngineError>)
    ensures
        blake3_op_spec(*input, r),
        r matches Ok(out) ==> out.spec_len() == input.spec_len(),
{
    match input {
        Series::Utf8(col) => Ok(Series::Utf8(map_text_column(&TextCodec::Blake3, col))),
        Series::Binary(col) => Ok(
            Series::Utf8(map_bytes_text_column(&BytesTextCodec::Blake3, col)),
        ),
        _ => Err(
            EngineError::InvalidOperation("blake3 only works on strings or binary data".to_owned()),
        ),
    }
}

/// Full contract of the md5 operation: a text or byte column gives a text
/// column of lowercase hex MD5 digests; anything else is rejected.
pub open spec fn md5_op_spec(input: Series, r: Result<Series, EngineError>) -> bool {
    match input {
        Series::Utf8(col) => r matches Ok(Series::Utf8(out)) && out.deep_view() == text_text_model(
            TextCodec::Md5,
            col.deep_view(),
        ),
        Series::Binary(col) => r matches Ok(Series::Utf8(out)) && out.deep_view()
            == bytes_text_model(BytesTextCodec::Md5, col.deep_view()),
        _ => r matches Err(e) && e@ == ErrSpec::InvalidOp(
            "md5 only works on strings or binary data"@,
        ),
    }
}

/// Lowercase hex MD5 digest of each present row of a text or byte column.
pub fn md5(input: &Series) -> (r: Result<Series, EngineError>)
    ensures
        md5_op_spec(*input, r),
        r matches Ok(out) ==> out.spec_len() == input.spec_len(),
{
    match input {
        Series::Utf8(col) => Ok(Series::Utf8(map_text_column(&TextCodec::Md5, col))),
        Series::Binary(col) => Ok(
            Series::Utf8(map_bytes_text_column(&BytesTextCodec::Md5, col)),
        ),
        _ => Err(
            EngineError::InvalidOperation("md5 only works on strings or binary data".to_owned()),
        ),
    }
}

/// Lowercase hex SHA-1 digest of each present row of a text column.
pub fn sha1(input: &Series) -> (r: Result<Series, EngineError>)
    ensures
        text_op_spec(TextCodec::Sha1, *input, r),
        r matches Ok(out) ==> out.spec_len() == input.spec_len(),
{
    text_operation(&TextCodec::Sha1, input)
}

/// Lowercase hex SHA-256 digest of each present row of a text column.
pub fn sha2_256(input: &Series) -> (r: Result<Series, EngineError>)
    ensures
        text_op_spec(TextCodec::Sha2_256, *input, r),
        r matches Ok(out) ==> out.spec_len() == input.spec_len(),
{
    text_operation(&TextCodec::Sha2_256, input)
}

/// Lowercase hex SHA-512 digest of each present row of a text column.
pub fn sha2_512(input: &Series) -> (r: Result<Series, EngineError>)
    ensures
        text_op_spec(TextCodec::Sha2_512, *input, r),
        r matches Ok(out) ==> out.spec_len() == input.spec_len(),
{
    text_operation(&TextCodec::Sha2_512, input)
}

/// Lowercase hex SHA-384 digest of each present row of a text column.
pub fn sha2_384(input: &Series) -> (r: Result<Series, EngineError>)
    ensures
        text_op_spec(TextCodec::Sha2_384, *input, r),
        r matches Ok(out) ==> out.spec_len() == input.spec_len(),
{
    text_operation(&TextCodec::Sha2_384, input)
}

/// Lowercase hex SHA-224 digest of each present row of a text column.
pub fn sha2_224(input: &Series) -> (r: Result<Series, EngineError>)
    ensures
        text_op_spec(TextCodec::Sha2_224, *input, r),
        r matches Ok(out) ==> out.spec_len() == input.spec_len(),
{
    text_operation(&TextCodec::Sha2_224, input)
}

/// Lowercase hex SHA3-256 digest of each present row of a text column.
pub fn sha3_256(input: &Series) -> (r: Result<Series, EngineError>)
    ensures
        text_op_spec(TextCodec::Sha3_256, *input, r),
        r matches Ok(out) ==> out.spec_len() == input.spec_len(),
{
    text_operation(&TextCodec::Sha3_256, input)
}

/// Lowercase hex SHA3-512 digest of each present row of a text column.
pub fn sha3_512(input: &Series) -> (r: Result<Series, EngineError>)
    ensures
        text_op_spec(TextCodec::Sha3_512, *input, r),
        r matches Ok(out) ==> out.spec_len() == input.spec_len(),
{
    text_operation(&TextCodec::Sha3_512, input)
}

/// Lowercase hex SHA3-384 digest of each present row of a text column.
pub fn sha3_384(input: &Series) -> (r: Result<Series, EngineError>)
    ensures
        text_op_spec(TextCodec::Sha3_384, *input, r),
        r matches Ok(out) ==> out.spec_len() == input.spec_len(),
{
    text_operation(&TextCodec::Sha3_384, input)
}

/// Lowercase hex SHA3-224 digest of each present row of a text column.
pub fn sha3_224(input: &Series) -> (r: Result<Series, EngineError>)
    ensures
        text_op_spec(TextCodec::Sha3_224, *input, r),
        r matches Ok(out) ==> out.spec_len() == input.spec_len(),
{
    text_operation(&TextCodec::Sha3_224, input)
}

/// Lowercase hex of the first `length` SHAKE128 output bytes of each present
/// row of a text column.
pub fn sha3_shake128(input: &Series, length: usize) -> (r: Result<Series, EngineError>)
    ensures
        text_op_spec(TextCodec::Shake128 { length }, *input, r),
        r matches Ok(out) ==> out.spec_len() == input.spec_len(),
{
    text_operation(&TextCodec::Shake128 { length }, input)
}

/// Lowercase hex SHA-256 digest (sha256 crate rendering) of each present row
/// of a text column.
pub fn sha256(input: &Series) -> (r: Result<Series, EngineError>)
    ensures
        text_op_spec(TextCodec::Sha256, *input, r),
        r matches Ok(out) ==> out.spec_len() == input.spec_len(),
{
    text_operation(&TextCodec::Sha256, input)
}

/// Version-5 identifier under the DNS namespace of each present row of a
/// text column.
pub fn uuid5_dns(input: &Series) -> (r: Result<Series, EngineError>)
    ensures
        text_op_spec(TextCodec::Uuid5Dns, *input, r),
        r matches Ok(out) ==> out.spec_len() == input.spec_len(),
{
    text_operation(&TextCodec::Uuid5Dns, input)
}

/// Version-5 identifier under the URL namespace of each present row of a
/// text column.
pub fn uuid5_url(input: &Series) -> (r: Result<Series, EngineError>)
    ensures
        text_op_spec(TextCodec::Uuid5Url, *input, r),
        r matches Ok(out) ==> out.spec_len() == input.spec_len(),
{
    text_operation(&TextCodec::Uuid5Url, input)
}

/// Version-5 identifier under the OID namespace of each present row of a
/// text column.
pub fn uuid5_oid(input: &Series) -> (r: Result<Series, EngineError>)
    ensures
        text_op_spec(TextCodec::Uuid5Oid, *input, r),
        r matches Ok(out) ==> out.spec_len() == input.spec_len(),
{
    text_operation(&TextCodec::Uuid5Oid, input)
}

/// Version-5 identifier under the X.500 namespace of each present row of a
/// text column.
pub fn uuid5_x500(input: &Series) -> (r: Result<Series, EngineError>)
    ensures
        text_op_spec(TextCodec::Uuid5X500, *input, r),
        r matches Ok(out) ==> out.spec_len() == input.spec_len(),
{
    text_operation(&TextCodec::Uuid5X500, input)
}

/// Seeded 32-bit MurmurHash3 of each present row of a text column.
pub fn murmur32(input: &Series, seed: u32) -> (r: Result<Series, EngineError>)
    ensures
        text_u32_op_spec(TextU32Codec::Murmur32 { seed }, *input, r),
        r matches Ok(out) ==> out.spec_len() == input.spec_len(),
{
    text_u32_operation(&TextU32Codec::Murmur32 { seed }, input)
}

/// Seeded 128-bit MurmurHash3 of each present row of a text column, as 16
/// bytes.
pub fn murmur128(input: &Series, seed: u32) -> (r: Result<Series, EngineError>)
    ensures
        text_bytes_op_spec(TextBytesCodec::Murmur128 { seed }, *input, r),
        r matches Ok(out) ==> out.spec_len() == input.spec_len(),
{
    text_bytes_operation(&TextBytesCodec::Murmur128 { seed }, input)
}

/// Seeded 32-bit XXH32 of each present row of a text column.
pub fn xxhash32(input: &Series, seed: u32) -> (r: Result<Series, EngineError>)
    ensures
        text_u32_op_spec(TextU32Codec::Xxhash32 { seed }, *input, r),
        r matches Ok(out) ==> out.spec_len() == input.spec_len(),
{
    text_u32_operation(&TextU32Codec::Xxhash32 { seed }, input)
}

/// Seeded 64-bit XXH64 of each present row of a text column.
pub fn xxhash64(input: &Series, seed: u64) -> (r: Result<Series, EngineError>)
    ensures
        text_u64_op_spec(TextU64Codec::Xxhash64 { seed }, *input, r),
        r matches Ok(out) ==> out.spec_len() == input.spec_len(),
{
    text_u64_operation(&TextU64Codec::Xxhash64 { seed }, input)
}

/// Seeded 64-bit XXH3 of each present row of a text column.
pub fn xxh3_64(input: &Series, seed: u64) -> (r: Result<Series, EngineError>)
    ensures
        text_u64_op_spec(TextU64Codec::Xxh3_64 { seed }, *input, r),
        r matches Ok(out) ==> out.spec_len() == input.spec_len(),
{
    text_u64_operation(&TextU64Codec::Xxh3_64 { seed }, input)
}

/// Seeded 128-bit XXH3 of each present row of a text column, as 16 bytes.
pub fn xxh3_128(input: &Series, seed: u64) -> (r: Result<Series, EngineError>)
    ensures
        text_bytes_op_spec(TextBytesCodec::Xxh3_128 { seed }, *input, r),
        r matches Ok(out) ==> out.spec_len() == input.spec_len(),
{
    text_bytes_operation(&TextBytesCodec::Xxh3_128 { seed }, input)
}

/// Encodes a composite geometry column (sub-columns `latitude` and
/// `longitude`) to geohash cell codes at the precision given by the second
/// column, which may be a broadcast scalar of length 1.
pub fn ghash_encode(geo: &Series, len: &Series) -> (r: Result<Series, EngineError>)
    requires
        geo.well_formed(),
    ensures
        encode_op_spec(GeoCodec::Geohash, *geo, *len, r),
        r matches Ok(out) ==> out.spec_len() == geo.spec_len(),
{
    encode_operation(&GeoCodec::Geohash, geo, len)
}

/// Encodes a composite geometry column (sub-columns `latitude` and
/// `longitude`) to H3 cell indexes at the resolution given by the second
/// column, which may be a broadcast scalar of length 1.
pub fn h3_encode(geo: &Series, len: &Series) -> (r: Result<Series, EngineError>)
    requires
        geo.well_formed(),
    ensures
        encode_op_spec(GeoCodec::H3, *geo, *len, r),
        r matches Ok(out) ==> out.spec_len() == geo.spec_len(),
{
    encode_operation(&GeoCodec::H3, geo, len)
}

/// Full contract of the geohash decode operation: a text column of cell
/// codes gives a composite with the sub-columns `longitude` then `latitude`,
/// in that order; anything else is rejected.
pub open spec fn decode_op_spec(input: Series, r: Result<Series, EngineError>) -> bool {
    match input {
        Series::Utf8(col) => match decode_col_model(col.deep_view()) {
            Ok(pair) => r matches Ok(out) && out matches Series::Struct(fields) && fields@.len()
                == 2 && fields@[0].name@ == "longitude"@ && fields@[1].name@ == "latitude"@ && (
            fields@[0].data matches Series::Float64(lons) && lons@ == pair.0) && (
            fields@[1].data matches Series::Float64(lats) && lats@ == pair.1),
            Err(e) => r matches Err(er) && er@ == e,
        },
        _ => r matches Err(e) && e@ == ErrSpec::InvalidOp("expected a string column"@),
    }
}

/// Decodes a text column of geohash cell codes into a composite of cell
/// centres, sub-columns `longitude` then `latitude`, missing rows kept.
pub fn ghash_decode(input: &Series) -> (r: Result<Series, EngineError>)
    ensures
        decode_op_spec(*input, r),
        r matches Ok(out) ==> out.spec_len() == input.spec_len() && out.well_formed(),
{
    match input {
        Series::Utf8(col) => geohash_decoder(col),
        _ => Err(EngineError::InvalidOperation("expected a string column".to_owned())),
    }
}

/// Full contract of the geohash neighbour operation: a text column of cell
/// codes gives a composite with the eight neighbour sub-columns in the
/// order n, ne, e, se, s, sw, w, nw; anything else is rejected.
pub open spec fn neighbors_op_spec(input: Series, r: Result<Series, EngineError>) -> bool {
    match input {
        Series::Utf8(col) => match neighbors_col_model(col.deep_view()) {
            Ok(cols) => r matches Ok(out) && out matches Series::Struct(fields) && fields@.len()
                == 8 && (forall|k: int|
                0 <= k < 8 ==> (((#[trigger] fields@[k].name)@ == neighbor_names()[k]) && (
                fields@[k].data matches Series::Utf8(c) && c.deep_view() == cols[k]))),
            Err(e) => r matches Err(er) && er@ == e,
        },
        _ => r matches Err(e) && e@ == ErrSpec::InvalidOp("expected a string column"@),
    }
}

/// Looks up the eight neighbouring cell codes of each present row of a text
/// column of geohash cell codes, missing rows kept.
pub fn ghash_neighbors(input: &Series) -> (r: Result<Series, EngineError>)
    ensures
        neighbors_op_spec(*input, r),
        r matches Ok(out) ==> out.spec_len() == input.spec_len() && out.well_formed(),
{
    match input {
        Series::Utf8(col) => geohash_neighbors(col),
        _ => Err(EngineError::InvalidOperation("expected a string column".to_owned())),
    }
}

/// Declares the output schema of the geohash decode operation: a composite
/// named after the first input field, with the sub-columns `longitude` then
/// `latitude`, both 64-bit float, in that fixed order.
pub fn geohash_decode_output(fields: &Vec<SchemaField>) -> (r: Result<SchemaField, EngineError>)
    requires
        fields@.len() >= 1,
    ensures
        r matches Ok(f) && f.name@ == fields@[0].name@ && (f.kind matches DataType::Struct(v)
            && v@.len() == 2 && v@[0].name@ == "longitude"@ && v@[0].kind is Float64
            && v@[1].name@ == "latitude"@ && v@[1].kind is Float64),
{
    let mut v: Vec<SchemaField> = Vec::new();
    v.push(SchemaField { name: "longitude".to_owned(), kind: DataType::Float64 });
    v.push(SchemaField { name: "latitude".to_owned(), kind: DataType::Float64 });
    Ok(SchemaField { name: fields[0].name.clone(), kind: DataType::Struct(v) })
}

/// Declares the output schema of the geohash neighbour operation: a
/// composite named after the first input field, with the eight text
/// sub-columns n, ne, e, se, s, sw, w, nw, in that fixed order.
pub fn geohash_neighbors_output(fields: &Vec<SchemaField>) -> (r: Result<SchemaField, EngineError>)
    requires
        fields@.len() >= 1,
    ensures
        r matches Ok(f) && f.name@ == fields@[0].name@ && (f.kind matches DataType::Struct(v)
            && v@.len() == 8 && (forall|k: int|
            0 <= k < 8 ==> (((#[trigger] v@[k].name)@ == neighbor_names()[k]) && v@[k].kind
                is Utf8))),
{
    let mut v: Vec<SchemaField> = Vec::new();
    v.push(SchemaField { name: "n".to_owned(), kind: DataType::Utf8 });
    v.push(SchemaField { name: "ne".to_owned(), kind: DataType::Utf8 });
    v.push(SchemaField { name: "e".to_owned(), kind: DataType::Utf8 });
    v.push(SchemaField { name: "se".to_owned(), kind: DataType::Utf8 });
    v.push(SchemaField { name: "s".to_owned(), kind: DataType::Utf8 });
    v.push(SchemaField { name: "sw".to_owned(), kind: DataType::Utf8 });
    v.push(SchemaField { name: "w".to_owned(), kind: DataType::Utf8 });
    v.push(SchemaField { name: "nw".to_owned(), kind: DataType::Utf8 });
    Ok(SchemaField { name: fields[0].name.clone(), kind: DataType::Struct(v) })
}

} // verus!
