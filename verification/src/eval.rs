use vstd::prelude::*;
use vstd::utf8::encode_utf8;
use crate::error::{EngineError, ErrSpec};
use crate::expressions::{
    blake3_bytes_hex, blake3_hash_str, blake3_hex_of, md5_bytes_hex, md5_hash_str, md5_hex_of,
    sha256_digest_of, sha256_hash, wyhash_bytes_call, wyhash_of, wyhash_str_call,
};
use crate::murmurhash_hashers::{murmur3_128_of, murmur3_32_of, murmur3_x64_128, murmur3_x86_32};
use crate::series::Series;
use crate::sha_hashers::{
    hex_of, sha1_hash, sha1_hex_of, sha2_224_hash, sha2_224_hex_of, sha2_256_hash,
    sha2_256_hex_of, sha2_384_hash, sha2_384_hex_of, sha2_512_hash, sha2_512_hex_of,
    sha3_224_hash, sha3_224_hex_of, sha3_256_hash, sha3_256_hex_of, sha3_384_hash,
    sha3_384_hex_of, sha3_512_hash, sha3_512_hex_of, sha3_shake128_hash, shake128_of,
};
use crate::uuid_hashers::{
    namespace_dns, namespace_oid, namespace_url, namespace_x500, uuid5_dns_hash, uuid5_of,
    uuid5_oid_hash, uuid5_url_hash, uuid5_x500_hash,
};
use crate::xxhash_hashers::{
    xxh32_call, xxh32_of, xxh3_128_call, xxh3_128_of, xxh3_64_call, xxh3_64_of, xxh64_call,
    xxh64_of,
};

verus! {

/// How an operation family treats missing operands: a missing input row
/// either yields a missing output row without invoking the codec, or aborts
/// the whole call.
pub enum NullPolicy {
    Propagate,
    FailOnMissingOperand,
}

/// A text-to-text scalar codec: a digest or identifier of the row's text,
/// rendered as text.
#[derive(Clone, Copy)]
pub enum TextCodec {
    Sha1,
    Sha2_256,
    Sha2_512,
    Sha2_384,
    Sha2_224,
    Sha3_256,
    Sha3_512,
    Sha3_384,
    Sha3_224,
    Shake128 { length: usize },
    Sha256,
    Blake3,
    Md5,
    Uuid5Dns,
    Uuid5Url,
    Uuid5Oid,
    Uuid5X500,
}

/// A bytes-to-text scalar codec.
#[derive(Clone, Copy)]
pub enum BytesTextCodec {
    Blake3,
    Md5,
}

/// A text-to-32-bit-integer scalar codec, with its seed.
#[derive(Clone, Copy)]
pub enum TextU32Codec {
    Murmur32 { seed: u32 },
    Xxhash32 { seed: u32 },
}

/// A text-to-64-bit-integer scalar codec, with its seed where one applies.
#[derive(Clone, Copy)]
pub enum TextU64Codec {
    Wyhash,
    Xxhash64 { seed: u64 },
    Xxh3_64 { seed: u64 },
}

/// A text-to-bytes scalar codec, with its seed.
#[derive(Clone, Copy)]
pub enum TextBytesCodec {
    Murmur128 { seed: u32 },
    Xxh3_128 { seed: u64 },
}

impl TextCodec {
    /// All plain hash and identifier operations propagate missing rows.
    pub open spec fn policy(self) -> NullPolicy {
        NullPolicy::Propagate
    }
}

impl BytesTextCodec {
    /// All plain hash operations propagate missing rows.
    pub open spec fn policy(self) -> NullPolicy {
        NullPolicy::Propagate
    }
}

impl TextU32Codec {
    /// All plain hash operations propagate missing rows.
    pub open spec fn policy(self) -> NullPolicy {
        NullPolicy::Propagate
    }
}

impl TextU64Codec {
    /// All plain hash operations propagate missing rows.
    pub open spec fn policy(self) -> NullPolicy {
        NullPolicy::Propagate
    }
}

impl TextBytesCodec {
    /// All plain hash operations propagate missing rows.
    pub open spec fn policy(self) -> NullPolicy {
        NullPolicy::Propagate
    }
}

/// What a text-to-text codec returns for one present row.
pub open spec fn text_codec_of(c: TextCodec, s: Seq<char>) -> Seq<char> {
    match c {
        TextCodec::Sha1 => sha1_hex_of(encode_utf8(s)),
        TextCodec::Sha2_256 => sha2_256_hex_of(encode_utf8(s)),
        TextCodec::Sha2_512 => sha2_512_hex_of(encode_utf8(s)),
        TextCodec::Sha2_384 => sha2_384_hex_of(encode_utf8(s)),
        TextCodec::Sha2_224 => sha2_224_hex_of(encode_utf8(s)),
        TextCodec::Sha3_256 => sha3_256_hex_of(encode_utf8(s)),
        TextCodec::Sha3_512 => sha3_512_hex_of(encode_utf8(s)),
        TextCodec::Sha3_384 => sha3_384_hex_of(encode_utf8(s)),
        TextCodec::Sha3_224 => sha3_224_hex_of(encode_utf8(s)),
        TextCodec::Shake128 { length } => hex_of(shake128_of(encode_utf8(s), length)),
        TextCodec::Sha256 => sha256_digest_of(encode_utf8(s)),
        TextCodec::Blake3 => blake3_hex_of(encode_utf8(s)),
        TextCodec::Md5 => md5_hex_of(encode_utf8(s)),
        TextCodec::Uuid5Dns => uuid5_of(namespace_dns(), encode_utf8(s)),
        TextCodec::Uuid5Url => uuid5_of(namespace_url(), encode_utf8(s)),
        TextCodec::Uuid5Oid => uuid5_of(namespace_oid(), encode_utf8(s)),
        TextCodec::Uuid5X500 => uuid5_of(namespace_x500(), encode_utf8(s)),
    }
}

/// What a bytes-to-text codec returns for one present row.
pub open spec fn bytes_text_codec_of(c: BytesTextCodec, b: Seq<u8>) -> Seq<char> {
    match c {
        BytesTextCodec::Blake3 => blake3_hex_of(b),
        BytesTextCodec::Md5 => md5_hex_of(b),
    }
}

/// What a text-to-u32 codec returns for one present row.
pub open spec fn text_u32_codec_of(c: TextU32Codec, s: Seq<char>) -> u32 {
    match c {
        TextU32Codec::Murmur32 { seed } => murmur3_32_of(encode_utf8(s), seed),
        TextU32Codec::Xxhash32 { seed } => xxh32_of(encode_utf8(s), seed),
    }
}

/// What a text-to-u64 codec returns for one present row.
pub open spec fn text_u64_codec_of(c: TextU64Codec, s: Seq<char>) -> u64 {
    match c {
        TextU64Codec::Wyhash => wyhash_of(encode_utf8(s), 0u64),
        TextU64Codec::Xxhash64 { seed } => xxh64_of(encode_utf8(s), seed),
        TextU64Codec::Xxh3_64 { seed } => xxh3_64_of(encode_utf8(s), seed),
    }
}

/// What a text-to-bytes codec returns for one present row.
pub open spec fn text_bytes_codec_of(c: TextBytesCodec, s: Seq<char>) -> Seq<u8> {
    match c {
        TextBytesCodec::Murmur128 { seed } => murmur3_128_of(encode_utf8(s), seed),
        TextBytesCodec::Xxh3_128 { seed } => xxh3_128_of(encode_utf8(s), seed),
    }
}

/// Row-wise application of a text-to-text codec under the Propagate policy.
pub open spec fn text_text_model(c: TextCodec, col: Seq<Option<Seq<char>>>) -> Seq<
    Option<Seq<char>>,
> {
    col.map_values(
        |v: Option<Seq<char>>|
            match v {
                Some(s) => Some(text_codec_of(c, s)),
                None => None,
            },
    )
}

/// Row-wise application of a bytes-to-text codec under the Propagate policy.
pub open spec fn bytes_text_model(c: BytesTextCodec, col: Seq<Option<Seq<u8>>>) -> Seq<
    Option<Seq<char>>,
> {
    col.map_values(
        |v: Option<Seq<u8>>|
            match v {
                Some(b) => Some(bytes_text_codec_of(c, b)),
                None => None,
            },
    )
}

/// Row-wise application of a text-to-u32 codec under the Propagate policy.
pub open spec fn text_u32_model(c: TextU32Codec, col: Seq<Option<Seq<char>>>) -> Seq<Option<u32>> {
    col.map_values(
        |v: Option<Seq<char>>|
            match v {
                Some(s) => Some(text_u32_codec_of(c, s)),
                None => None,
            },
    )
}

/// Row-wise application of a text-to-u64 codec under the Propagate policy.
pub open spec fn text_u64_model(c: TextU64Codec, col: Seq<Option<Seq<char>>>) -> Seq<Option<u64>> {
    col.map_values(
        |v: Option<Seq<char>>|
            match v {
                Some(s) => Some(text_u64_codec_of(c, s)),
                None => None,
            },
    )
}

/// Row-wise application of a text-to-bytes codec under the Propagate policy.
pub open spec fn text_bytes_model(c: TextBytesCodec, col: Seq<Option<Seq<char>>>) -> Seq<
    Option<Seq<u8>>,
> {
    col.map_values(
        |v: Option<Seq<char>>|
            match v {
                Some(s) => Some(text_bytes_codec_of(c, s)),
                None => None,
            },
    )
}

/// Row-wise seed-0 wyhash of a byte column under the Propagate policy.
pub open spec fn bytes_wyhash_model(col: Seq<Option<Seq<u8>>>) -> Seq<Option<u64>> {
    col.map_values(
        |v: Option<Seq<u8>>|
            match v {
                Some(b) => Some(wyhash_of(b, 0u64)),
                None => None,
            },
    )
}

/// One present row through a text-to-text codec.
fn apply_text_codec(c: &TextCodec, value: &str) -> (r: String)
    ensures
        r@ == text_codec_of(*c, value@),
{
    let mut out = String::new();
    match c {
        TextCodec::Sha1 => sha1_hash(value, &mut out),
        TextCodec::Sha2_256 => sha2_256_hash(value, &mut out),
        TextCodec::Sha2_512 => sha2_512_hash(value, &mut out),
        TextCodec::Sha2_384 => sha2_384_hash(value, &mut out),
        TextCodec::Sha2_224 => sha2_224_hash(value, &mut out),
        TextCodec::Sha3_256 => sha3_256_hash(value, &mut out),
        TextCodec::Sha3_512 => sha3_512_hash(value, &mut out),
        TextCodec::Sha3_384 => sha3_384_hash(value, &mut out),
        TextCodec::Sha3_224 => sha3_224_hash(value, &mut out),
        TextCodec::Shake128 { length } => sha3_shake128_hash(value, &mut out, *length),
        TextCodec::Sha256 => sha256_hash(value, &mut out),
        TextCodec::Blake3 => blake3_hash_str(value, &mut out),
        TextCodec::Md5 => md5_hash_str(value, &mut out),
        TextCodec::Uuid5Dns => uuid5_dns_hash(value, &mut out),
        TextCodec::Uuid5Url => uuid5_url_hash(value, &mut out),
        TextCodec::Uuid5Oid => uuid5_oid_hash(value, &mut out),
        TextCodec::Uuid5X500 => uuid5_x500_hash(value, &mut out),
    }
    proof {
        assert(out@ =~= text_codec_of(*c, value@));
    }
    out
}

/// Applies a text-to-text codec to each present row; missing rows stay
/// missing and the codec is not invoked for them.
pub fn map_text_column(c: &TextCodec, col: &Vec<Option<String>>) -> (out: Vec<Option<String>>)
    ensures
        out@.len() == col@.len(),
        out.deep_view() == text_text_model(*c, col.deep_view()),
{
    let n = col.len();
    let mut out: Vec<Option<String>> = Vec::new();
    for i in 0..n
        invariant
            n == col@.len(),
            out@.len() == i,
            forall|j: int| 0 <= j < i ==> (#[trigger] out@[j] is Some <==> col@[j] is Some),
            forall|j: int|
                0 <= j < i ==> (col@[j] matches Some(s) ==> (#[trigger] out@[j] matches Some(t)
                    && t@ == text_codec_of(*c, s@))),
    {
        match &col[i] {
            Some(v) => {
                let t = apply_text_codec(c, v.as_str());
                out.push(Some(t));
            },
            None => {
                out.push(None);
            },
        }
    }
    proof {
        assert(out.deep_view() =~= text_text_model(*c, col.deep_view()));
    }
    out
}

/// Applies a bytes-to-text codec to each present row; missing rows stay
/// missing and the codec is not invoked for them.
pub fn map_bytes_text_column(c: &BytesTextCodec, col: &Vec<Option<Vec<u8>>>) -> (out: Vec<
    Option<String>,
>)
    ensures
        out@.len() == col@.len(),
        out.deep_view() == bytes_text_model(*c, col.deep_view()),
{
    let n = col.len();
    let mut out: Vec<Option<String>> = Vec::new();
    for i in 0..n
        invariant
            n == col@.len(),
            out@.len() == i,
            forall|j: int| 0 <= j < i ==> (#[trigger] out@[j] is Some <==> col@[j] is Some),
            forall|j: int|
                0 <= j < i ==> (col@[j] matches Some(s) ==> (#[trigger] out@[j] matches Some(t)
                    && t@ == bytes_text_codec_of(*c, s@))),
    {
        match &col[i] {
            Some(v) => {
                let t = match c {
                    BytesTextCodec::Blake3 => blake3_bytes_hex(v.as_slice()),
                    BytesTextCodec::Md5 => md5_bytes_hex(v.as_slice()),
                };
                out.push(Some(t));
            },
            None => {
                out.push(None);
            },
        }
    }
    proof {
        assert forall|k: int| 0 <= k < col@.len() implies out.deep_view()[k] == bytes_text_model(
            *c,
            col.deep_view(),
        )[k] by {
            match col@[k] {
                Some(s) => {
                    assert(s.deep_view() =~= s@);
                },
                None => {},
            }
        }
        assert(out.deep_view() =~= bytes_text_model(*c, col.deep_view()));
    }
    out
}

/// Applies a text-to-u32 codec to each present row; missing rows stay
/// missing and the codec is not invoked for them.
pub fn map_text_u32_column(c: &TextU32Codec, col: &Vec<Option<String>>) -> (out: Vec<Option<u32>>)
    ensures
        out@.len() == col@.len(),
        out@ == text_u32_model(*c, col.deep_view()),
{
    let n = col.len();
    let mut out: Vec<Option<u32>> = Vec::new();
    for i in 0..n
        invariant
            n == col@.len(),
            out@.len() == i,
            forall|j: int| 0 <= j < i ==> out@[j] == text_u32_model(*c, col.deep_view())[j],
    {
        match &col[i] {
            Some(v) => {
                let t = match c {
                    TextU32Codec::Murmur32 { seed } => murmur3_x86_32(v.as_str(), *seed),
                    TextU32Codec::Xxhash32 { seed } => xxh32_call(v.as_str(), *seed),
                };
                out.push(Some(t));
            },
            None => {
                out.push(None);
            },
        }
    }
    proof {
        assert(out@ =~= text_u32_model(*c, col.deep_view()));
    }
    out
}

/// Applies a text-to-u64 codec to each present row; missing rows stay
/// missing and the codec is not invoked for them.
pub fn map_text_u64_column(c: &TextU64Codec, col: &Vec<Option<String>>) -> (out: Vec<Option<u64>>)
    ensures
        out@.len() == col@.len(),
        out@ == text_u64_model(*c, col.deep_view()),
{
    let n = col.len();
    let mut out: Vec<Option<u64>> = Vec::new();
    for i in 0..n
        invariant
            n == col@.len(),
            out@.len() == i,
            forall|j: int| 0 <= j < i ==> out@[j] == text_u64_model(*c, col.deep_view())[j],
    {
        match &col[i] {
            Some(v) => {
                let t = match c {
                    TextU64Codec::Wyhash => wyhash_str_call(v.as_str(), 0),
                    TextU64Codec::Xxhash64 { seed } => xxh64_call(v.as_str(), *seed),
                    TextU64Codec::Xxh3_64 { seed } => xxh3_64_call(v.as_str(), *seed),
                };
                out.push(Some(t));
            },
            None => {
                out.push(None);
            },
        }
    }
    proof {
        assert(out@ =~= text_u64_model(*c, col.deep_view()));
    }
    out
}

/// Applies a text-to-bytes codec to each present row; missing rows stay
/// missing and the codec is not invoked for them.
pub fn map_text_bytes_column(c: &TextBytesCodec, col: &Vec<Option<String>>) -> (out: Vec<
    Option<Vec<u8>>,
>)
    ensures
        out@.len() == col@.len(),
        out.deep_view() == text_bytes_model(*c, col.deep_view()),
{
    let n = col.len();
    let mut out: Vec<Option<Vec<u8>>> = Vec::new();
    for i in 0..n
        invariant
            n == col@.len(),
            out@.len() == i,
            forall|j: int| 0 <= j < i ==> (#[trigger] out@[j] is Some <==> col@[j] is Some),
            forall|j: int|
                0 <= j < i ==> (col@[j] matches Some(s) ==> (#[trigger] out@[j] matches Some(t)
                    && t@ == text_bytes_codec_of(*c, s@))),
    {
        match &col[i] {
            Some(v) => {
                let t = match c {
                    TextBytesCodec::Murmur128 { seed } => murmur3_x64_128(v.as_str(), *seed),
                    TextBytesCodec::Xxh3_128 { seed } => xxh3_128_call(v.as_str(), *seed),
                };
                out.push(Some(t));
            },
            None => {
                out.push(None);
            },
        }
    }
    proof {
        assert forall|k: int| 0 <= k < col@.len() implies out.deep_view()[k] == text_bytes_model(
            *c,
            col.deep_view(),
        )[k] by {
            match out@[k] {
                Some(t) => {
                    assert(t.deep_view() =~= t@);
                },
                None => {},
            }
        }
        assert(out.deep_view() =~= text_bytes_model(*c, col.deep_view()));
    }
    out
}

/// Applies seed-0 wyhash to each present row of a byte column; missing rows
/// stay missing and the codec is not invoked for them.
pub fn map_bytes_wyhash_column(col: &Vec<Option<Vec<u8>>>) -> (out: Vec<Option<u64>>)
    ensures
        out@.len() == col@.len(),
        out@ == bytes_wyhash_model(col.deep_view()),
{
    let n = col.len();
    let mut out: Vec<Option<u64>> = Vec::new();
    for i in 0..n
        invariant
            n == col@.len(),
            out@.len() == i,
            forall|j: int| 0 <= j < i ==> (#[trigger] out@[j] is Some <==> col@[j] is Some),
            forall|j: int|
                0 <= j < i ==> (col@[j] matches Some(s) ==> #[trigger] out@[j] == Some(
                    wyhash_of(s@, 0u64),
                )),
    {
        match &col[i] {
            Some(v) => {
                let t = wyhash_bytes_call(v.as_slice(), 0);
                out.push(Some(t));
            },
            None => {
                out.push(None);
            },
        }
    }
    proof {
        assert forall|k: int| 0 <= k < col@.len() implies out@[k] == bytes_wyhash_model(
            col.deep_view(),
        )[k] by {
            match col@[k] {
                Some(s) => {
                    assert(s.deep_view() =~= s@);
                },
                None => {},
            }
        }
        assert(out@ =~= bytes_wyhash_model(col.deep_view()));
    }
    out
}

/// Full contract of a text-to-text operation: on a text column it returns a
/// text column holding the codec of every present row; on any other column
/// kind it is rejected.
pub open spec fn text_op_spec(c: TextCodec, input: Series, r: Result<Series, EngineError>) -> bool {
    match input {
        Series::Utf8(col) => r matches Ok(Series::Utf8(out)) && out.deep_view() == text_text_model(
            c,
            col.deep_view(),
        ),
        _ => r matches Err(e) && e@ == ErrSpec::InvalidOp("expected a string column"@),
    }
}

/// Full contract of a text-to-u32 operation, as `text_op_spec`.
pub open spec fn text_u32_op_spec(
    c: TextU32Codec,
    input: Series,
    r: Result<Series, EngineError>,
) -> bool {
    match input {
        Series::Utf8(col) => r matches Ok(Series::UInt32(out)) && out@ == text_u32_model(
            c,
            col.deep_view(),
        ),
        _ => r matches Err(e) && e@ == ErrSpec::InvalidOp("expected a string column"@),
    }
}

/// Full contract of a text-to-u64 operation, as `text_op_spec`.
pub open spec fn text_u64_op_spec(
    c: TextU64Codec,
    input: Series,
    r: Result<Series, EngineError>,
) -> bool {
    match input {
        Series::Utf8(col) => r matches Ok(Series::UInt64(out)) && out@ == text_u64_model(
            c,
            col.deep_view(),
        ),
        _ => r matches Err(e) && e@ == ErrSpec::InvalidOp("expected a string column"@),
    }
}

/// Full contract of a text-to-bytes operation, as `text_op_spec`.
pub open spec fn text_bytes_op_spec(
    c: TextBytesCodec,
    input: Series,
    r: Result<Series, EngineError>,
) -> bool {
    match input {
        Series::Utf8(col) => r matches Ok(Series::Binary(out)) && out.deep_view()
            == text_bytes_model(c, col.deep_view()),
        _ => r matches Err(e) && e@ == ErrSpec::InvalidOp("expected a string column"@),
    }
}

/// Runs a text-to-text codec over a column: one output row per input row,
/// missing rows propagated.
pub fn text_operation(c: &TextCodec, input: &Series) -> (r: Result<Series, EngineError>)
    ensures
        text_op_spec(*c, *input, r),
        r matches Ok(out) ==> out.spec_len() == input.spec_len(),
{
    match input {
        Series::Utf8(col) => Ok(Series::Utf8(map_text_column(c, col))),
        _ => Err(EngineError::InvalidOperation("expected a string column".to_owned())),
    }
}

/// Runs a text-to-u32 codec over a column: one output row per input row,
/// missing rows propagated.
pub fn text_u32_operation(c: &TextU32Codec, input: &Series) -> (r: Result<Series, EngineError>)
    ensures
        text_u32_op_spec(*c, *input, r),
        r matches Ok(out) ==> out.spec_len() == input.spec_len(),
{
    match input {
        Series::Utf8(col) => Ok(Series::UInt32(map_text_u32_column(c, col))),
        _ => Err(EngineError::InvalidOperation("expected a string column".to_owned())),
    }
}

/// Runs a text-to-u64 codec over a column: one output row per input row,
/// missing rows propagated.
pub fn text_u64_operation(c: &TextU64Codec, input: &Series) -> (r: Result<Series, EngineError>)
    ensures
        text_u64_op_spec(*c, *input, r),
        r matches Ok(out) ==> out.spec_len() == input.spec_len(),
{
    match input {
        Series::Utf8(col) => Ok(Series::UInt64(map_text_u64_column(c, col))),
        _ => Err(EngineError::InvalidOperation("expected a string column".to_owned())),
    }
}

/// Runs a text-to-bytes codec over a column: one output row per input row,
/// missing rows propagated.
pub fn text_bytes_operation(c: &TextBytesCodec, input: &Series) -> (r: Result<Series, EngineError>)
    ensures
        text_bytes_op_spec(*c, *input, r),
        r matches Ok(out) ==> out.spec_len() == input.spec_len(),
{
    match input {
        Series::Utf8(col) => Ok(Series::Binary(map_text_bytes_column(c, col))),
        _ => Err(EngineError::InvalidOperation("expected a string column".to_owned())),
    }
}

/// Null propagation under the Propagate policy: a missing input row yields a
/// missing output row, for every row-wise codec family.
pub proof fn lemma_null_propagation(
    c1: TextCodec,
    c2: BytesTextCodec,
    c3: TextU32Codec,
    c4: TextU64Codec,
    c5: TextBytesCodec,
    text_col: Seq<Option<Seq<char>>>,
    byte_col: Seq<Option<Seq<u8>>>,
    i: int,
)
    requires
        0 <= i < text_col.len(),
        0 <= i < byte_col.len(),
        text_col[i] is None,
        byte_col[i] is None,
    ensures
        c1.policy() is Propagate && text_text_model(c1, text_col)[i] is None,
        c2.policy() is Propagate && bytes_text_model(c2, byte_col)[i] is None,
        c3.policy() is Propagate && text_u32_model(c3, text_col)[i] is None,
        c4.policy() is Propagate && text_u64_model(c4, text_col)[i] is None,
        c5.policy() is Propagate && text_bytes_model(c5, text_col)[i] is None,
        bytes_wyhash_model(byte_col)[i] is None,
{
}

/// Length preservation: every row-wise codec family returns exactly one
/// output row per input row.
pub proof fn lemma_length_preservation(
    c1: TextCodec,
    c2: BytesTextCodec,
    c3: TextU32Codec,
    c4: TextU64Codec,
    c5: TextBytesCodec,
    text_col: Seq<Option<Seq<char>>>,
    byte_col: Seq<Option<Seq<u8>>>,
)
    ensures
        text_text_model(c1, text_col).len() == text_col.len(),
        bytes_text_model(c2, byte_col).len() == byte_col.len(),
        text_u32_model(c3, text_col).len() == text_col.len(),
        text_u64_model(c4, text_col).len() == text_col.len(),
        text_bytes_model(c5, text_col).len() == text_col.len(),
        bytes_wyhash_model(byte_col).len() == byte_col.len(),
{
}

} // verus!
