use vstd::arithmetic::power2::{lemma2_to64, lemma_pow2_strictly_increases, pow2};
use vstd::prelude::*;
use crate::error::{EngineError, ErrSpec, Operand};
use crate::series::Series;

verus! {

/// How often a positive value below 2^23 must be doubled to reach
/// [2^23, 2^24).
pub open spec fn norm_shift(f: int) -> int
    decreases 0x0100_0000 - f,
{
    if f >= 0x80_0000 || f < 1 {
        0
    } else {
        1 + norm_shift(f * 2)
    }
}

/// A positive value below 2^24, doubled until it reaches [2^23, 2^24).
pub open spec fn normalize(f: int) -> int
    decreases 0x0100_0000 - f,
{
    if f >= 0x80_0000 || f < 1 {
        f
    } else {
        normalize(f * 2)
    }
}

/// The 64-bit IEEE 754 bit pattern that widens the 32-bit bit pattern `b`:
/// the sign is kept, a normal exponent is re-biased from 127 to 1023, the
/// fraction gains 29 low zero bits, infinities and NaN payloads keep the
/// maximal exponent, and a subnormal is normalized (every 32-bit subnormal
/// is a normal 64-bit value).
pub open spec fn spec_widen_f32_bits(b: u32) -> int {
    let sign: int = if b >= 0x8000_0000 {
        0x8000_0000_0000_0000
    } else {
        0
    };
    let exp: int = ((b as int) / 0x80_0000) % 0x100;
    let frac: int = (b as int) % 0x80_0000;
    if exp == 0xff {
        sign + 0x7ff0_0000_0000_0000 + frac * 0x2000_0000
    } else if exp == 0 && frac == 0 {
        sign
    } else if exp == 0 {
        sign + (897 - norm_shift(frac)) * 0x10_0000_0000_0000 + (normalize(frac) - 0x80_0000)
            * 0x2000_0000
    } else {
        sign + (exp + 896) * 0x10_0000_0000_0000 + frac * 0x2000_0000
    }
}

/// Widens one 32-bit float bit pattern to the 64-bit pattern of the same
/// value.
pub fn widen_f32_bits(b: u32) -> (r: u64)
    ensures
        r == spec_widen_f32_bits(b),
{
    let sign: u64 = if b >= 0x8000_0000 {
        0x8000_0000_0000_0000
    } else {
        0
    };
    let exp: u32 = (b / 0x80_0000) % 0x100;
    let frac: u64 = (b % 0x80_0000) as u64;
    if exp == 0xff {
        sign + 0x7ff0_0000_0000_0000 + frac * 0x2000_0000
    } else if exp == 0 && frac == 0 {
        sign
    } else if exp == 0 {
        let mut f: u64 = frac;
        let mut k: u64 = 0;
        proof {
            lemma2_to64();
        }
        while f < 0x80_0000
            invariant
                1 <= f < 0x0100_0000,
                k <= 23,
                f >= pow2(k as nat),
                norm_shift(frac as int) == k + norm_shift(f as int),
                normalize(frac as int) == normalize(f as int),
            decreases 0x0100_0000 - f,
        {
            proof {
                lemma2_to64();
                if k >= 23 {
                    if k > 23 {
                        lemma_pow2_strictly_increases(23, k as nat);
                    }
                    assert(f >= 0x80_0000);
                }
                assert(pow2((k + 1) as nat) == 2 * pow2(k as nat));
            }
            f = f * 2;
            k = k + 1;
        }
        sign + (897 - k) * 0x10_0000_0000_0000 + (f - 0x80_0000) * 0x2000_0000
    } else {
        sign + ((exp as u64) + 896) * 0x10_0000_0000_0000 + frac * 0x2000_0000
    }
}

/// Row-wise widening of a column of 32-bit float bit patterns; missingness
/// is kept.
pub open spec fn widen_f32_col(col: Seq<Option<u32>>) -> Seq<Option<u64>> {
    col.map_values(
        |v: Option<u32>|
            match v {
                Some(b) => Some(spec_widen_f32_bits(b) as u64),
                None => None,
            },
    )
}

/// Row-wise widening of a column of signed integers; missingness is kept.
pub open spec fn widen_int_col<T>(col: Seq<Option<T>>, to_wide: spec_fn(T) -> i64) -> Seq<
    Option<i64>,
> {
    col.map_values(
        |v: Option<T>|
            match v {
                Some(x) => Some(to_wide(x)),
                None => None,
            },
    )
}

/// The rejection message of a float coercion, naming the coerced field.
pub open spec fn float_coercion_error(which: Operand) -> Seq<char> {
    match which {
        Operand::Latitude => "Latitude input needs to be float"@,
        Operand::Longitude => "Longitude input needs to be float"@,
        Operand::Precision => "Precision input needs to be float"@,
    }
}

/// The result of coercion to 64-bit float: a 64-bit float column passes
/// through unchanged, a 32-bit float column is widened row by row, anything
/// else is rejected. Row count, row order and missingness never change.
pub open spec fn coerce_float64_model(input: Series, which: Operand) -> Result<
    Seq<Option<u64>>,
    ErrSpec,
> {
    match input {
        Series::Float64(col) => Ok(col@),
        Series::Float32(col) => Ok(widen_f32_col(col@)),
        _ => Err(ErrSpec::InvalidOp(float_coercion_error(which))),
    }
}

/// The result of coercion to 64-bit integer: a 64-bit column passes
/// through unchanged, an 8/16/32-bit signed column is widened row by row,
/// anything else is rejected. Row count, row order and missingness never
/// change.
pub open spec fn coerce_int64_model(input: Series) -> Result<Seq<Option<i64>>, ErrSpec> {
    match input {
        Series::Int64(col) => Ok(col@),
        Series::Int32(col) => Ok(widen_int_col(col@, |x: i32| x as i64)),
        Series::Int16(col) => Ok(widen_int_col(col@, |x: i16| x as i64)),
        Series::Int8(col) => Ok(widen_int_col(col@, |x: i8| x as i64)),
        _ => Err(ErrSpec::InvalidOp("Length input needs to be integer"@)),
    }
}

fn copy_u64_col(col: &Vec<Option<u64>>) -> (out: Vec<Option<u64>>)
    ensures
        out@ == col@,
{
    let n = col.len();
    let mut out: Vec<Option<u64>> = Vec::new();
    for i in 0..n
        invariant
            n == col@.len(),
            out@.len() == i,
            forall|j: int| 0 <= j < i ==> out@[j] == col@[j],
    {
        out.push(col[i]);
    }
    proof {
        assert(out@ =~= col@);
    }
    out
}

fn copy_i64_col(col: &Vec<Option<i64>>) -> (out: Vec<Option<i64>>)
    ensures
        out@ == col@,
{
    let n = col.len();
    let mut out: Vec<Option<i64>> = Vec::new();
    for i in 0..n
        invariant
            n == col@.len(),
            out@.len() == i,
            forall|j: int| 0 <= j < i ==> out@[j] == col@[j],
    {
        out.push(col[i]);
    }
    proof {
        assert(out@ =~= col@);
    }
    out
}

fn widen_f32_column(col: &Vec<Option<u32>>) -> (out: Vec<Option<u64>>)
    ensures
        out@ == widen_f32_col(col@),
{
    let n = col.len();
    let mut out: Vec<Option<u64>> = Vec::new();
    for i in 0..n
        invariant
            n == col@.len(),
            out@.len() == i,
            forall|j: int| 0 <= j < i ==> out@[j] == widen_f32_col(col@)[j],
    {
        match col[i] {
            Some(b) => out.push(Some(widen_f32_bits(b))),
            None => out.push(None),
        }
    }
    proof {
        assert(out@ =~= widen_f32_col(col@));
    }
    out
}

fn widen_i32_column(col: &Vec<Option<i32>>) -> (out: Vec<Option<i64>>)
    ensures
        out@ == widen_int_col(col@, |x: i32| x as i64),
{
    let n = col.len();
    let mut out: Vec<Option<i64>> = Vec::new();
    for i in 0..n
        invariant
            n == col@.len(),
            out@.len() == i,
            forall|j: int| 0 <= j < i ==> out@[j] == widen_int_col(col@, |x: i32| x as i64)[j],
    {
        match col[i] {
            Some(x) => out.push(Some(x as i64)),
            None => out.push(None),
        }
    }
    proof {
        assert(out@ =~= widen_int_col(col@, |x: i32| x as i64));
    }
    out
}

fn widen_i16_column(col: &Vec<Option<i16>>) -> (out: Vec<Option<i64>>)
    ensures
        out@ == widen_int_col(col@, |x: i16| x as i64),
{
    let n = col.len();
    let mut out: Vec<Option<i64>> = Vec::new();
    for i in 0..n
        invariant
            n == col@.len(),
            out@.len() == i,
            forall|j: int| 0 <= j < i ==> out@[j] == widen_int_col(col@, |x: i16| x as i64)[j],
    {
        match col[i] {
            Some(x) => out.push(Some(x as i64)),
            None => out.push(None),
        }
    }
    proof {
        assert(out@ =~= widen_int_col(col@, |x: i16| x as i64));
    }
    out
}

fn widen_i8_column(col: &Vec<Option<i8>>) -> (out: Vec<Option<i64>>)
    ensures
        out@ == widen_int_col(col@, |x: i8| x as i64),
{
    let n = col.len();
    let mut out: Vec<Option<i64>> = Vec::new();
    for i in 0..n
        invariant
            n == col@.len(),
            out@.len() == i,
            forall|j: int| 0 <= j < i ==> out@[j] == widen_int_col(col@, |x: i8| x as i64)[j],
    {
        match col[i] {
            Some(x) => out.push(Some(x as i64)),
            None => out.push(None),
        }
    }
    proof {
        assert(out@ =~= widen_int_col(col@, |x: i8| x as i64));
    }
    out
}

/// Coerces a column to 64-bit float bit patterns, as `coerce_float64_model`
/// says; `which` names the coerced field in the rejection message.
pub fn coerce_float64(input: &Series, which: Operand) -> (r: Result<Vec<Option<u64>>, EngineError>)
    ensures
        r is Ok <==> coerce_float64_model(*input, which) is Ok,
        r matches Ok(out) ==> out@ == coerce_float64_model(*input, which)->Ok_0,
        r matches Err(e) ==> e@ == coerce_float64_model(*input, which)->Err_0,
{
    match input {
        Series::Float64(col) => Ok(copy_u64_col(col)),
        Series::Float32(col) => Ok(widen_f32_column(col)),
        _ => {
            let msg = match which {
                Operand::Latitude => "Latitude input needs to be float",
                Operand::Longitude => "Longitude input needs to be float",
                Operand::Precision => "Precision input needs to be float",
            };
            Err(EngineError::InvalidOperation(msg.to_owned()))
        },
    }
}

/// Coerces a column to 64-bit signed integers, as `coerce_int64_model` says.
pub fn coerce_int64(input: &Series) -> (r: Result<Vec<Option<i64>>, EngineError>)
    ensures
        r is Ok <==> coerce_int64_model(*input) is Ok,
        r matches Ok(out) ==> out@ == coerce_int64_model(*input)->Ok_0,
        r matches Err(e) ==> e@ == coerce_int64_model(*input)->Err_0,
{
    match input {
        Series::Int64(col) => Ok(copy_i64_col(col)),
        Series::Int32(col) => Ok(widen_i32_column(col)),
        Series::Int16(col) => Ok(widen_i16_column(col)),
        Series::Int8(col) => Ok(widen_i8_column(col)),
        _ => Err(EngineError::InvalidOperation("Length input needs to be integer".to_owned())),
    }
}

/// Coercion idempotence: coercing a 64-bit float column to 64-bit float is a
/// no-op, so coercing a 32-bit float column and then coercing the result
/// again yields exactly the direct widening.
pub proof fn lemma_coercion_idempotence(
    col32: Vec<Option<u32>>,
    d: Vec<Option<u64>>,
    which1: Operand,
    which2: Operand,
)
    requires
        coerce_float64_model(Series::Float32(col32), which1) == Ok::<_, ErrSpec>(d@),
    ensures
        coerce_float64_model(Series::Float64(d), which2) == Ok::<_, ErrSpec>(d@),
        coerce_float64_model(Series::Float64(d), which2) == coerce_float64_model(
            Series::Float32(col32),
            which1,
        ),
{
}

} // verus!
