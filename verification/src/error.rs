use vstd::prelude::*;

verus! {

/// The operand of a row-wise geometry operation that an error message points
/// at: the latitude or longitude coordinate, or the precision / resolution
/// parameter.
#[derive(Clone, Copy, Debug, PartialEq, Eq, Structural)]
pub enum Operand {
    Latitude,
    Longitude,
    Precision,
}

/// An error aborting a whole column evaluation.
///
/// - `InvalidOperation`: the inputs have the wrong kind or shape (wrong
///   coercion target, missing composite field, mismatched column lengths,
///   unsupported configuration value).
/// - `ComputeError`: a scalar codec call failed; the payload carries the
///   codec's own message.
/// - `MissingOperand`: an operation that may not see missing operands found
///   one; `row` is the first offending row.
#[derive(Clone, Debug, PartialEq, Eq)]
pub enum EngineError {
    InvalidOperation(String),
    ComputeError(String),
    MissingOperand { row: usize, operand: Operand },
}

/// Spec-level shadow of `EngineError`, with messages as character sequences.
pub enum ErrSpec {
    InvalidOp(Seq<char>),
    Compute(Seq<char>),
    Missing { row: int, operand: Operand },
}

impl View for EngineError {
    type V = ErrSpec;

    open spec fn view(&self) -> ErrSpec {
        match self {
            EngineError::InvalidOperation(m) => ErrSpec::InvalidOp(m@),
            EngineError::ComputeError(m) => ErrSpec::Compute(m@),
            EngineError::MissingOperand { row, operand } => ErrSpec::Missing {
                row: *row as int,
                operand: *operand,
            },
        }
    }
}

/// The decimal digit character of a value below ten.
pub open spec fn digit_char(d: int) -> char {
    if d == 0 {
        '0'
    } else if d == 1 {
        '1'
    } else if d == 2 {
        '2'
    } else if d == 3 {
        '3'
    } else if d == 4 {
        '4'
    } else if d == 5 {
        '5'
    } else if d == 6 {
        '6'
    } else if d == 7 {
        '7'
    } else if d == 8 {
        '8'
    } else {
        '9'
    }
}

/// The decimal digits of a non-negative value, most significant first.
pub open spec fn dec_text(n: int) -> Seq<char>
    decreases n,
{
    if n < 10 {
        seq![digit_char(n)]
    } else {
        dec_text(n / 10) + seq![digit_char(n % 10)]
    }
}

/// The decimal rendering of a value, with a leading minus when negative.
pub open spec fn int_text(n: int) -> Seq<char> {
    if n < 0 {
        seq!['-'] + dec_text(-n)
    } else {
        dec_text(n)
    }
}

fn digit_str(d: u64) -> (r: &'static str)
    requires
        d < 10,
    ensures
        r@ == seq![digit_char(d as int)],
{
    proof {
        reveal_strlit("0");
        reveal_strlit("1");
        reveal_strlit("2");
        reveal_strlit("3");
        reveal_strlit("4");
        reveal_strlit("5");
        reveal_strlit("6");
        reveal_strlit("7");
        reveal_strlit("8");
        reveal_strlit("9");
    }
    match d {
        0 => "0",
        1 => "1",
        2 => "2",
        3 => "3",
        4 => "4",
        5 => "5",
        6 => "6",
        7 => "7",
        8 => "8",
        _ => "9",
    }
}

fn push_decimal(m: u64, out: &mut String)
    ensures
        final(out)@ == old(out)@ + dec_text(m as int),
    decreases m,
{
    if m >= 10 {
        push_decimal(m / 10, out);
    }
    let s = digit_str(m % 10);
    out.append(s);
    proof {
        if m >= 10 {
            assert(old(out)@ + dec_text((m / 10) as int) + seq![digit_char((m % 10) as int)]
                =~= old(out)@ + dec_text(m as int));
        }
    }
}

/// Appends the decimal rendering of a signed value to `output`, as the
/// value's display would.
pub fn append_int(n: i64, output: &mut String)
    ensures
        final(output)@ == old(output)@ + int_text(n as int),
{
    proof {
        reveal_strlit("-");
    }
    if n < 0 {
        output.append("-");
        let m: u64 = ((-(n + 1)) as u64) + 1;
        push_decimal(m, output);
        proof {
            assert(old(output)@ + seq!['-'] + dec_text(m as int) =~= old(output)@ + int_text(
                n as int,
            ));
        }
    } else {
        push_decimal(n as u64, output);
    }
}

} // verus!
