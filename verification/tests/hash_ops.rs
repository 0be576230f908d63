use polars_hash::{EngineError, Series};

fn text_col(vals: &[Option<&str>]) -> Series {
    Series::Utf8(vals.iter().map(|o| o.map(|s| s.to_string())).collect())
}

fn bytes_col(vals: &[Option<&[u8]>]) -> Series {
    Series::Binary(vals.iter().map(|o| o.map(|b| b.to_vec())).collect())
}

fn utf8_out(r: Result<Series, EngineError>) -> Vec<Option<String>> {
    match r.unwrap() {
        Series::Utf8(v) => v,
        _ => panic!("expected a text column"),
    }
}

fn u32_out(r: Result<Series, EngineError>) -> Vec<Option<u32>> {
    match r.unwrap() {
        Series::UInt32(v) => v,
        _ => panic!("expected a 32-bit column"),
    }
}

fn u64_out(r: Result<Series, EngineError>) -> Vec<Option<u64>> {
    match r.unwrap() {
        Series::UInt64(v) => v,
        _ => panic!("expected a 64-bit column"),
    }
}

fn bin_out(r: Result<Series, EngineError>) -> Vec<Option<Vec<u8>>> {
    match r.unwrap() {
        Series::Binary(v) => v,
        _ => panic!("expected a byte column"),
    }
}

#[test]
fn sha1_known_digest() {
    let out = utf8_out(polars_hash::expressions::sha1(&text_col(&[Some("abc")])));
    assert_eq!(out[0].as_deref(), Some("a9993e364706816aba3e25717850c26c9cd0d89d"));
}

#[test]
fn sha2_256_empty_string_digest() {
    let out = utf8_out(polars_hash::expressions::sha2_256(&text_col(&[Some("")])));
    assert_eq!(
        out[0].as_deref(),
        Some("e3b0c44298fc1c149afbf4c8996fb92427ae41e4649b934ca495991b7852b855")
    );
}

#[test]
fn sha2_known_digests() {
    let col = text_col(&[Some("abc")]);
    assert_eq!(
        utf8_out(polars_hash::expressions::sha2_256(&col))[0].as_deref(),
        Some("ba7816bf8f01cfea414140de5dae2223b00361a396177a9cb410ff61f20015ad")
    );
    assert_eq!(
        utf8_out(polars_hash::expressions::sha2_224(&col))[0].as_deref(),
        Some("23097d223405d8228642a477bda255b32aadbce4bda0b3f7e36c9da7")
    );
    assert_eq!(
        utf8_out(polars_hash::expressions::sha2_384(&col))[0].as_deref(),
        Some("cb00753f45a35e8bb5a03d699ac65007272c32ab0eded1631a8b605a43ff5bed8086072ba1e7cc2358baeca134c825a7")
    );
    assert_eq!(
        utf8_out(polars_hash::expressions::sha2_512(&col))[0].as_deref(),
        Some("ddaf35a193617abacc417349ae20413112e6fa4e89a97ea20a9eeee64b55d39a2192992a274fc1a836ba3c23a3feebbd454d4423643ce80e2a9ac94fa54ca49f")
    );
}

#[test]
fn sha3_known_digests() {
    let col = text_col(&[Some("abc")]);
    assert_eq!(
        utf8_out(polars_hash::expressions::sha3_256(&col))[0].as_deref(),
        Some("3a985da74fe225b2045c172d6bd390bd855f086e3e9d525b46bfe24511431532")
    );
    assert_eq!(
        utf8_out(polars_hash::expressions::sha3_224(&col))[0].as_deref(),
        Some("e642824c3f8cf24ad09234ee7d3c766fc9a3a5168d0c94ad73b46fdf")
    );
    assert_eq!(
        utf8_out(polars_hash::expressions::sha3_384(&col))[0].as_deref(),
        Some("ec01498288516fc926459f58e2c6ad8df9b473cb0fc08c2596da7cf0e49be4b298d88cea927ac7f539f1edf228376d25")
    );
    assert_eq!(
        utf8_out(polars_hash::expressions::sha3_512(&col))[0].as_deref(),
        Some("b751850b1a57168a5693cd924b6b096e08f621827444f70d884f5d0240d2712e10e116e9192af3c91a7ec57647e3934057340b4cf408d5a56592f8274eec53f0")
    );
}

#[test]
fn sha3_empty_string_digest() {
    let out = utf8_out(polars_hash::expressions::sha3_256(&text_col(&[Some("")])));
    assert_eq!(
        out[0].as_deref(),
        Some("a7ffc6f8bf1ed76651c14756a061d662f580ff4de43b49fa82d80a4b80f8434a")
    );
}

#[test]
fn shake128_known_prefix() {
    let out = utf8_out(polars_hash::expressions::sha3_shake128(&text_col(&[Some("abc")]), 10));
    assert_eq!(out[0].as_deref(), Some("5881092dd818bf5cf8a3"));
}

#[test]
fn shake128_zero_length_appends_nothing() {
    let out = utf8_out(polars_hash::expressions::sha3_shake128(&text_col(&[Some("abc")]), 0));
    assert_eq!(out[0].as_deref(), Some(""));
}

#[test]
fn sha256_crate_empty_string_digest() {
    let out = utf8_out(polars_hash::expressions::sha256(&text_col(&[Some("")])));
    assert_eq!(
        out[0].as_deref(),
        Some("e3b0c44298fc1c149afbf4c8996fb92427ae41e4649b934ca495991b7852b855")
    );
}

#[test]
fn md5_known_digests() {
    let out = utf8_out(polars_hash::expressions::md5(&text_col(&[Some(""), Some("abc")])));
    assert_eq!(out[0].as_deref(), Some("d41d8cd98f00b204e9800998ecf8427e"));
    assert_eq!(out[1].as_deref(), Some("900150983cd24fb0d6963f7d28e17f72"));
}

#[test]
fn md5_bytes_matches_text() {
    let t = utf8_out(polars_hash::expressions::md5(&text_col(&[Some("abc")])));
    let b = utf8_out(polars_hash::expressions::md5(&bytes_col(&[Some(b"abc")])));
    assert_eq!(t, b);
}

#[test]
fn blake3_empty_string_digest() {
    let out = utf8_out(polars_hash::expressions::blake3(&text_col(&[Some("")])));
    assert_eq!(
        out[0].as_deref(),
        Some("af1349b9f5f9a1a6a0404dea36dcc9499bcb25c9adc112b7cc9a93cae41f3262")
    );
}

#[test]
fn blake3_matches_direct_call() {
    let out = utf8_out(polars_hash::expressions::blake3(&text_col(&[Some("abc")])));
    let expected = format!("{}", blake3::hash(b"abc"));
    assert_eq!(out[0].as_deref(), Some(expected.as_str()));
}

#[test]
fn wyhash_text_and_bytes_agree() {
    let t = u64_out(polars_hash::expressions::wyhash(&text_col(&[Some("abc")])));
    let b = u64_out(polars_hash::expressions::wyhash(&bytes_col(&[Some(b"abc")])));
    assert_eq!(t[0], Some(wyhash::wyhash(b"abc", 0)));
    assert_eq!(t, b);
}

#[test]
fn murmur32_known_value() {
    let out = u32_out(polars_hash::expressions::murmur32(&text_col(&[Some("hello")]), 1));
    assert_eq!(out[0], Some(0xbb4abcad));
}

#[test]
fn murmur128_little_endian_layout() {
    let out = bin_out(polars_hash::expressions::murmur128(&text_col(&[Some("hello")]), 1));
    let mut expected = Vec::new();
    expected.extend_from_slice(&0xa78ddff5adae8d10u64.to_le_bytes());
    expected.extend_from_slice(&0x128900ef20900135u64.to_le_bytes());
    assert_eq!(out[0].as_deref(), Some(expected.as_slice()));
}

#[test]
fn xxhash32_known_value() {
    let out = u32_out(polars_hash::expressions::xxhash32(&text_col(&[Some("")]), 0));
    assert_eq!(out[0], Some(0x02cc5d05));
}

#[test]
fn xxhash64_known_value() {
    let out = u64_out(polars_hash::expressions::xxhash64(&text_col(&[Some("")]), 0));
    assert_eq!(out[0], Some(0xef46db3751d8e999));
}

#[test]
fn xxh3_64_matches_direct_call() {
    let out = u64_out(polars_hash::expressions::xxh3_64(&text_col(&[Some("abc")]), 7));
    assert_eq!(out[0], Some(xxhash_rust::xxh3::xxh3_64_with_seed(b"abc", 7)));
}

#[test]
fn xxh3_128_matches_direct_call() {
    let out = bin_out(polars_hash::expressions::xxh3_128(&text_col(&[Some("abc")]), 7));
    let expected = xxhash_rust::xxh3::xxh3_128_with_seed(b"abc", 7).to_le_bytes().to_vec();
    assert_eq!(out[0].as_deref(), Some(expected.as_slice()));
}

#[test]
fn uuid5_known_identifiers() {
    let out = utf8_out(polars_hash::expressions::uuid5_dns(&text_col(&[Some("example.com")])));
    assert_eq!(out[0].as_deref(), Some("cfbff0d1-9375-5685-968c-48ce8b15ae17"));
    let out = utf8_out(polars_hash::expressions::uuid5_url(&text_col(&[Some("example.com")])));
    assert_eq!(out[0].as_deref(), Some("a5cf6e8e-4cfa-5f31-a804-6de6d1245e26"));
    let out = utf8_out(polars_hash::expressions::uuid5_oid(&text_col(&[Some("abc")])));
    assert_eq!(out[0].as_deref(), Some("7697a46f-b283-5da3-8e7c-62c11c03dd9e"));
    let out = utf8_out(polars_hash::expressions::uuid5_x500(&text_col(&[Some("abc")])));
    assert_eq!(out[0].as_deref(), Some("53e882a6-63b1-578b-8bf1-8f0878cfa6b7"));
}

#[test]
fn null_rows_propagate_without_hashing() {
    let col = text_col(&[Some("a"), None, Some("b")]);
    let out = utf8_out(polars_hash::expressions::sha2_256(&col));
    assert_eq!(out.len(), 3);
    assert!(out[0].is_some());
    assert!(out[1].is_none());
    assert!(out[2].is_some());
    let out = u32_out(polars_hash::expressions::murmur32(&col, 42));
    assert_eq!(out, vec![out[0], None, out[2]]);
    assert!(out[0].is_some());
}

#[test]
fn output_length_equals_input_length() {
    let empty = text_col(&[]);
    assert_eq!(utf8_out(polars_hash::expressions::sha1(&empty)).len(), 0);
    let three = text_col(&[None, None, None]);
    assert_eq!(utf8_out(polars_hash::expressions::blake3(&three)).len(), 3);
    assert_eq!(u64_out(polars_hash::expressions::xxhash64(&three, 1)).len(), 3);
}

#[test]
fn wrong_column_kind_is_rejected() {
    let ints = Series::Int64(vec![Some(1)]);
    match polars_hash::expressions::wyhash(&ints) {
        Err(EngineError::InvalidOperation(m)) => {
            assert_eq!(m, "wyhash only works on strings or binary data")
        },
        other => panic!("unexpected result: {:?}", other),
    }
    match polars_hash::expressions::blake3(&ints) {
        Err(EngineError::InvalidOperation(m)) => {
            assert_eq!(m, "blake3 only works on strings or binary data")
        },
        other => panic!("unexpected result: {:?}", other),
    }
    match polars_hash::expressions::md5(&ints) {
        Err(EngineError::InvalidOperation(m)) => {
            assert_eq!(m, "md5 only works on strings or binary data")
        },
        other => panic!("unexpected result: {:?}", other),
    }
    match polars_hash::expressions::sha1(&ints) {
        Err(EngineError::InvalidOperation(m)) => assert_eq!(m, "expected a string column"),
        other => panic!("unexpected result: {:?}", other),
    }
}

#[test]
fn digest_helpers_append_to_the_buffer() {
    let mut out = String::from("prefix:");
    polars_hash::sha_hashers::sha1_hash("abc", &mut out);
    assert_eq!(out, "prefix:a9993e364706816aba3e25717850c26c9cd0d89d");
    let mut out = String::new();
    polars_hash::sha_hashers::sha3_shake128_hash("abc", &mut out, 10);
    assert_eq!(out, "5881092dd818bf5cf8a3");
    let mut out = String::new();
    polars_hash::uuid_hashers::uuid5_dns_hash("example.com", &mut out);
    assert_eq!(out, "cfbff0d1-9375-5685-968c-48ce8b15ae17");
}

#[test]
fn slot_helpers_keep_missing_slots() {
    assert_eq!(polars_hash::murmurhash_hashers::murmurhash3_32(None, 9), None);
    assert_eq!(
        polars_hash::murmurhash_hashers::murmurhash3_32(Some("hello"), 1),
        Some(0xbb4abcad)
    );
    assert_eq!(polars_hash::xxhash_hashers::xxhash_64(None, 3), None);
    assert_eq!(polars_hash::expressions::wyhash_hash_str(None), None);
    assert_eq!(
        polars_hash::expressions::wyhash_hash_str(Some("abc")),
        Some(wyhash::wyhash(b"abc", 0))
    );
    assert_eq!(
        polars_hash::expressions::wyhash_hash_bytes(Some(b"abc")),
        polars_hash::expressions::wyhash_hash_str(Some("abc"))
    );
    assert_eq!(polars_hash::expressions::blake3_hash_bytes(Some(b"")).as_deref(),
        Some("af1349b9f5f9a1a6a0404dea36dcc9499bcb25c9adc112b7cc9a93cae41f3262"));
    assert_eq!(polars_hash::expressions::blake3_hash_bytes(None), None);
    assert_eq!(polars_hash::expressions::md5_hash_bytes(Some(b"")).as_deref(),
        Some("d41d8cd98f00b204e9800998ecf8427e"));
    assert_eq!(polars_hash::expressions::md5_hash_bytes(None), None);
}
