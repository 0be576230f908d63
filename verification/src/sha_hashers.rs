use vstd::prelude::*;
use vstd::string::{StringExecFns, StringSliceAdditionalSpecFns};
use sha2::Digest;
use sha3::digest::{ExtendableOutput, Update, XofReader};
use std::fmt::Write;

verus! {

/// Lowercase hex SHA-1 digest of a byte sequence.
pub uninterp spec fn sha1_hex_of(bytes: Seq<u8>) -> Seq<char>;

/// Lowercase hex SHA-256 digest of a byte sequence.
pub uninterp spec fn sha2_256_hex_of(bytes: Seq<u8>) -> Seq<char>;

/// Lowercase hex SHA-512 digest of a byte sequence.
pub uninterp spec fn sha2_512_hex_of(bytes: Seq<u8>) -> Seq<char>;

/// Lowercase hex SHA-384 digest of a byte sequence.
pub uninterp spec fn sha2_384_hex_of(bytes: Seq<u8>) -> Seq<char>;

/// Lowercase hex SHA-224 digest of a byte sequence.
pub uninterp spec fn sha2_224_hex_of(bytes: Seq<u8>) -> Seq<char>;

/// Lowercase hex SHA3-256 digest of a byte sequence.
pub uninterp spec fn sha3_256_hex_of(bytes: Seq<u8>) -> Seq<char>;

/// Lowercase hex SHA3-512 digest of a byte sequence.
pub uninterp spec fn sha3_512_hex_of(bytes: Seq<u8>) -> Seq<char>;

/// Lowercase hex SHA3-384 digest of a byte sequence.
pub uninterp spec fn sha3_384_hex_of(bytes: Seq<u8>) -> Seq<char>;

/// Lowercase hex SHA3-224 digest of a byte sequence.
pub uninterp spec fn sha3_224_hex_of(bytes: Seq<u8>) -> Seq<char>;

/// First `n` bytes of the SHAKE128 extendable output over a byte sequence.
pub uninterp spec fn shake128_of(bytes: Seq<u8>, n: usize) -> Seq<u8>;

/// The lowercase hex digit character of a value below sixteen.
pub open spec fn hex_digit(d: int) -> char {
    if d == 0 {
        '0'
    } else if d == 1 {
        '1'
    } else if d == 2 {
        '2'
    } else if d == 3 {
        '3'
    } else if d == 4 {
        '4'
    } else if d == 5 {
        '5'
    } else if d == 6 {
        '6'
    } else if d == 7 {
        '7'
    } else if d == 8 {
        '8'
    } else if d == 9 {
        '9'
    } else if d == 10 {
        'a'
    } else if d == 11 {
        'b'
    } else if d == 12 {
        'c'
    } else if d == 13 {
        'd'
    } else if d == 14 {
        'e'
    } else {
        'f'
    }
}

/// Lowercase hex rendering of a byte sequence, two digits per byte, high
/// nibble first.
pub open spec fn hex_of(bytes: Seq<u8>) -> Seq<char>
    decreases bytes.len(),
{
    if bytes.len() == 0 {
        Seq::empty()
    } else {
        hex_of(bytes.drop_last()) + seq![
            hex_digit(bytes.last() as int / 16),
            hex_digit(bytes.last() as int % 16),
        ]
    }
}

/// Relies on sha1::Sha1::digest and `{:x}` on its output: the lowercase hex
/// SHA-1 digest of the value's UTF-8 bytes.
#[verifier::external_body]
fn sha1_hex(value: &str) -> (r: String)
    ensures
        r@ == sha1_hex_of(value.spec_bytes()),
        r@.len() == 40,
{
    let hash = sha1::Sha1::digest(value);
    format!("{:x}", hash)
}

/// Appends the lowercase hex SHA-1 digest of the value's UTF-8 bytes to
/// `output`.
pub fn sha1_hash(value: &str, output: &mut String)
    ensures
        final(output)@ == old(output)@ + sha1_hex_of(value.spec_bytes()),
        final(output)@.len() == old(output)@.len() + 40,
{
    let hexed = sha1_hex(value);
    output.append(hexed.as_str());
}

/// Relies on sha2::Sha256::digest and `{:x}` on its output: appends the
/// lowercase hex SHA-256 digest of the value's UTF-8 bytes to `output`.
#[verifier::external_body]
pub fn sha2_256_hash(value: &str, output: &mut String)
    ensures
        final(output)@ == old(output)@ + sha2_256_hex_of(value.spec_bytes()),
        final(output)@.len() == old(output)@.len() + 64,
{
    let hash = sha2::Sha256::digest(value);
    write!(output, "{:x}", hash).unwrap()
}

/// Relies on sha2::Sha512::digest and `{:x}` on its output: appends the
/// lowercase hex SHA-512 digest of the value's UTF-8 bytes to `output`.
#[verifier::external_body]
pub fn sha2_512_hash(value: &str, output: &mut String)
    ensures
        final(output)@ == old(output)@ + sha2_512_hex_of(value.spec_bytes()),
        final(output)@.len() == old(output)@.len() + 128,
{
    let hash = sha2::Sha512::digest(value);
    write!(output, "{:x}", hash).unwrap()
}

/// Relies on sha2::Sha384::digest and `{:x}` on its output: appends the
/// lowercase hex SHA-384 digest of the value's UTF-8 bytes to `output`.
#[verifier::external_body]
pub fn sha2_384_hash(value: &str, output: &mut String)
    ensures
        final(output)@ == old(output)@ + sha2_384_hex_of(value.spec_bytes()),
        final(output)@.len() == old(output)@.len() + 96,
{
    let hash = sha2::Sha384::digest(value);
    write!(output, "{:x}", hash).unwrap()
}

/// Relies on sha2::Sha224::digest and `{:x}` on its output: appends the
/// lowercase hex SHA-224 digest of the value's UTF-8 bytes to `output`.
#[verifier::external_body]
pub fn sha2_224_hash(value: &str, output: &mut String)
    ensures
        final(output)@ == old(output)@ + sha2_224_hex_of(value.spec_bytes()),
        final(output)@.len() == old(output)@.len() + 56,
{
    let hash = sha2::Sha224::digest(value);
    write!(output, "{:x}", hash).unwrap()
}

/// Relies on sha3::Sha3_256::digest and `{:x}` on its output: appends the
/// lowercase hex SHA3-256 digest of the value's UTF-8 bytes to `output`.
#[verifier::external_body]
pub fn sha3_256_hash(value: &str, output: &mut String)
    ensures
        final(output)@ == old(output)@ + sha3_256_hex_of(value.spec_bytes()),
        final(output)@.len() == old(output)@.len() + 64,
{
    let hash = sha3::Sha3_256::digest(value);
    write!(output, "{:x}", hash).unwrap()
}

/// Relies on sha3::Sha3_512::digest and `{:x}` on its output: appends the
/// lowercase hex SHA3-512 digest of the value's UTF-8 bytes to `output`.
#[verifier::external_body]
pub fn sha3_512_hash(value: &str, output: &mut String)
    ensures
        final(output)@ == old(output)@ + sha3_512_hex_of(value.spec_bytes()),
        final(output)@.len() == old(output)@.len() + 128,
{
    let hash = sha3::Sha3_512::digest(value);
    write!(output, "{:x}", hash).unwrap()
}

/// Relies on sha3::Sha3_384::digest and `{:x}` on its output: appends the
/// lowercase hex SHA3-384 digest of the value's UTF-8 bytes to `output`.
#[verifier::external_body]
pub fn sha3_384_hash(value: &str, output: &mut String)
    ensures
        final(output)@ == old(output)@ + sha3_384_hex_of(value.spec_bytes()),
        final(output)@.len() == old(output)@.len() + 96,
{
    let hash = sha3::Sha3_384::digest(value);
    write!(output, "{:x}", hash).unwrap()
}

/// Relies on sha3::Sha3_224::digest and `{:x}` on its output: appends the
/// lowercase hex SHA3-224 digest of the value's UTF-8 bytes to `output`.
#[verifier::external_body]
pub fn sha3_224_hash(value: &str, output: &mut String)
    ensures
        final(output)@ == old(output)@ + sha3_224_hex_of(value.spec_bytes()),
        final(output)@.len() == old(output)@.len() + 56,
{
    let hash = sha3::Sha3_224::digest(value);
    write!(output, "{:x}", hash).unwrap()
}

/// Relies on sha3::Shake128 (ExtendableOutput): reading `length` bytes of
/// its output over the value's UTF-8 bytes fills the result exactly.
#[verifier::external_body]
fn shake128(value: &str, length: usize) -> (r: Vec<u8>)
    ensures
        r@ == shake128_of(value.spec_bytes(), length),
        r@.len() == length,
{
    let mut hasher = sha3::Shake128::default();
    hasher.update(value.as_bytes());
    let mut reader = hasher.finalize_xof();
    let mut result = vec![0u8; length];
    reader.read(&mut result);
    result
}

fn hex_digit_str(d: u8) -> (r: &'static str)
    requires
        d < 16,
    ensures
        r@ == seq![hex_digit(d as int)],
{
    proof {
        reveal_strlit("0");
        reveal_strlit("1");
        reveal_strlit("2");
        reveal_strlit("3");
        reveal_strlit("4");
        reveal_strlit("5");
        reveal_strlit("6");
        reveal_strlit("7");
        reveal_strlit("8");
        reveal_strlit("9");
        reveal_strlit("a");
        reveal_strlit("b");
        reveal_strlit("c");
        reveal_strlit("d");
        reveal_strlit("e");
        reveal_strlit("f");
    }
    match d {
        0 => "0",
        1 => "1",
        2 => "2",
        3 => "3",
        4 => "4",
        5 => "5",
        6 => "6",
        7 => "7",
        8 => "8",
        9 => "9",
        10 => "a",
        11 => "b",
        12 => "c",
        13 => "d",
        14 => "e",
        _ => "f",
    }
}

/// Renders bytes as lowercase hex, two digits per byte, high nibble first.
fn hex_encode(bytes: &Vec<u8>) -> (r: String)
    ensures
        r@ == hex_of(bytes@),
        r@.len() == 2 * bytes@.len(),
{
    let n = bytes.len();
    let mut out = String::new();
    for i in 0..n
        invariant
            n == bytes@.len(),
            out@ == hex_of(bytes@.take(i as int)),
            out@.len() == 2 * i,
    {
        let b = bytes[i];
        out.append(hex_digit_str(b / 16));
        out.append(hex_digit_str(b % 16));
        proof {
            assert(bytes@.take(i + 1).drop_last() =~= bytes@.take(i as int));
            assert(out@ =~= hex_of(bytes@.take(i + 1)));
        }
    }
    proof {
        assert(bytes@.take(n as int) =~= bytes@);
    }
    out
}

/// Appends the lowercase hex rendering of the first `length` bytes of the
/// SHAKE128 extendable output of the value's UTF-8 bytes to `output`.
pub fn sha3_shake128_hash(value: &str, output: &mut String, length: usize)
    ensures
        final(output)@ == old(output)@ + hex_of(shake128_of(value.spec_bytes(), length)),
        final(output)@.len() == old(output)@.len() + 2 * length,
{
    let raw = shake128(value, length);
    let hexed = hex_encode(&raw);
    output.append(hexed.as_str());
}

} // verus!
