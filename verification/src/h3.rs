use vstd::prelude::*;
use crate::error::{append_int, int_text, EngineError, ErrSpec, Operand};
use crate::geometry::{encode_row, GeoCodec};

verus! {

/// What H3 encoding returns for a coordinate: the cell index of the point
/// (latitude, longitude), both given as 64-bit IEEE 754 bit patterns, at a
/// resolution in 1..=15, rendered as its hexadecimal text — or the error
/// message, exactly on non-finite coordinates.
pub uninterp spec fn h3_of(lat: u64, lon: u64, resolution: u8) -> Result<Seq<char>, Seq<char>>;

/// Relies on h3o::LatLng::new, LatLng::to_cell and the display of
/// h3o::CellIndex; the coordinates cross as IEEE 754 bit patterns, read
/// from their bytes.
#[verifier::external_body]
pub(crate) fn h3_cell_call(lat_bits: u64, lon_bits: u64, resolution: u8) -> (r: Result<
    String,
    String,
>)
    requires
        1 <= resolution <= 15,
    ensures
        r is Ok <==> h3_of(lat_bits, lon_bits, resolution) is Ok,
        r matches Ok(s) ==> s@ == h3_of(lat_bits, lon_bits, resolution)->Ok_0,
        r matches Err(e) ==> e@ == h3_of(lat_bits, lon_bits, resolution)->Err_0,
{
    let ll = h3o::LatLng::new(
        bytemuck::pod_read_unaligned(bytemuck::bytes_of(&lat_bits)),
        bytemuck::pod_read_unaligned(bytemuck::bytes_of(&lon_bits)),
    );
    match ll {
        Ok(l) => match h3o::Resolution::try_from(resolution) {
            Ok(res) => Ok(l.to_cell(res).to_string()),
            Err(e) => Err(e.to_string()),
        },
        Err(e) => Err(e.to_string()),
    }
}

/// The rejection message of an unsupported resolution value.
pub open spec fn resolution_error_text(n: int) -> Seq<char> {
    "expected resolution between 1 and 15, got "@ + int_text(n)
}

/// Validates a resolution parameter: exactly the values 1..=15 are
/// supported; the rejection names the offending value.
pub fn get_resolution(resolution: i64) -> (r: Result<u8, EngineError>)
    ensures
        r is Ok <==> 1 <= resolution <= 15,
        r matches Ok(v) ==> v == resolution,
        r matches Err(e) ==> e@ == ErrSpec::InvalidOp(resolution_error_text(resolution as int)),
{
    if 1 <= resolution && resolution <= 15 {
        Ok(resolution as u8)
    } else {
        let mut msg: String = "expected resolution between 1 and 15, got ".to_owned();
        append_int(resolution, &mut msg);
        Err(EngineError::InvalidOperation(msg))
    }
}

/// Encodes one row of coordinate operands to an H3 cell index. A missing
/// operand is an error naming the row and the operand; an unsupported
/// resolution is rejected; a present row whose encoding fails is a compute
/// error.
pub fn h3_encoder(lat: Option<u64>, long: Option<u64>, len: Option<i64>, row: usize) -> (r: Result<
    Option<String>,
    EngineError,
>)
    ensures
        r is Ok <==> encode_row(GeoCodec::H3, lat, long, len, row as int) is Ok,
        r matches Ok(v) ==> v matches Some(s) && s@ == encode_row(
            GeoCodec::H3,
            lat,
            long,
            len,
            row as int,
        )->Ok_0,
        r matches Err(e) ==> e@ == encode_row(GeoCodec::H3, lat, long, len, row as int)->Err_0,
{
    match (lat, long) {
        (Some(a), Some(o)) => match len {
            Some(l) => match get_resolution(l) {
                Ok(res) => match h3_cell_call(a, o, res) {
                    Ok(s) => Ok(Some(s)),
                    Err(m) => Err(EngineError::ComputeError(m)),
                },
                Err(e) => Err(e),
            },
            None => Err(EngineError::MissingOperand { row, operand: Operand::Precision }),
        },
        (None, _) => Err(EngineError::MissingOperand { row, operand: Operand::Latitude }),
        (_, None) => Err(EngineError::MissingOperand { row, operand: Operand::Longitude }),
    }
}

} // verus!
