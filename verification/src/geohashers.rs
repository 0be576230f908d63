use vstd::prelude::*;
use crate::error::{EngineError, ErrSpec};
use crate::geometry::{decode_col_model, encode_row, GeoCodec};
use crate::series::{Field, Series};

verus! {

/// What geohash encoding returns for a coordinate: the cell code of the
/// point (latitude, longitude), both given as 64-bit IEEE 754 bit patterns,
/// at the requested code length — or the encoder's error message, exactly on
/// out-of-range coordinates and on lengths outside 1..=12.
pub uninterp spec fn geohash_of(lat: u64, lon: u64, len: usize) -> Result<Seq<char>, Seq<char>>;

/// What geohash decoding returns for a cell code: the (longitude, latitude)
/// centre of the cell, as 64-bit IEEE 754 bit patterns — or the decoder's
/// error message on a malformed code.
pub uninterp spec fn geohash_decode_of(code: Seq<char>) -> Result<(u64, u64), Seq<char>>;

/// What the geohash neighbour lookup returns for a cell code: the eight
/// neighbouring codes in the order n, ne, e, se, s, sw, w, nw — or an error
/// message on a malformed code.
pub uninterp spec fn geohash_neighbors_of(code: Seq<char>) -> Result<Seq<Seq<char>>, Seq<char>>;

/// Relies on geohash::encode over `Coord { x: longitude, y: latitude }`; the
/// coordinates cross as IEEE 754 bit patterns, read from their bytes. A
/// successful code holds exactly `len` characters.
#[verifier::external_body]
pub(crate) fn geohash_encode_call(lat_bits: u64, lon_bits: u64, len: usize) -> (r: Result<
    String,
    String,
>)
    ensures
        r is Ok <==> geohash_of(lat_bits, lon_bits, len) is Ok,
        r matches Ok(s) ==> s@ == geohash_of(lat_bits, lon_bits, len)->Ok_0 && s@.len() == len,
        r matches Err(e) ==> e@ == geohash_of(lat_bits, lon_bits, len)->Err_0,
{
    let c: geohash::Coord = geohash::Coord {
        x: bytemuck::pod_read_unaligned(bytemuck::bytes_of(&lon_bits)),
        y: bytemuck::pod_read_unaligned(bytemuck::bytes_of(&lat_bits)),
    };
    match geohash::encode(c, len) {
        Ok(s) => Ok(s),
        Err(e) => Err(e.to_string()),
    }
}

/// Relies on geohash::decode over a non-empty code; the centre coordinates
/// come back as IEEE 754 bit patterns, read from their bytes, x (longitude)
/// first.
#[verifier::external_body]
pub(crate) fn geohash_decode_call(code: &str) -> (r: Result<(u64, u64), String>)
    requires
        code@.len() >= 1,
    ensures
        r is Ok <==> geohash_decode_of(code@) is Ok,
        r matches Ok(p) ==> p == geohash_decode_of(code@)->Ok_0,
        r matches Err(e) ==> e@ == geohash_decode_of(code@)->Err_0,
{
    match geohash::decode(code) {
        Ok((c, _, _)) => {
            let x: u64 = bytemuck::pod_read_unaligned(bytemuck::bytes_of(&c.x));
            let y: u64 = bytemuck::pod_read_unaligned(bytemuck::bytes_of(&c.y));
            Ok((x, y))
        },
        Err(e) => Err(e.to_string()),
    }
}

/// Relies on geohash::neighbors over a non-empty code; the eight codes come
/// back in the order n, ne, e, se, s, sw, w, nw.
#[verifier::external_body]
pub(crate) fn geohash_neighbors_call(code: &str) -> (r: Result<Vec<String>, String>)
    requires
        code@.len() >= 1,
    ensures
        r is Ok <==> geohash_neighbors_of(code@) is Ok,
        r matches Ok(v) ==> v.deep_view() == geohash_neighbors_of(code@)->Ok_0 && v@.len() == 8,
        r matches Err(e) ==> e@ == geohash_neighbors_of(code@)->Err_0,
{
    match geohash::neighbors(code) {
        Ok(nb) => Ok(vec![nb.n, nb.ne, nb.e, nb.se, nb.s, nb.sw, nb.w, nb.nw]),
        Err(e) => Err(e.to_string()),
    }
}

/// Encodes one row of coordinate operands to a geohash cell code. A missing
/// operand is an error naming the row and the operand; a present row whose
/// encoding fails is a compute error.
pub fn geohash_encoder(
    lat: Option<u64>,
    long: Option<u64>,
    len: Option<i64>,
    row: usize,
) -> (r: Result<Option<String>, EngineError>)
    ensures
        r is Ok <==> encode_row(GeoCodec::Geohash, lat, long, len, row as int) is Ok,
        r matches Ok(v) ==> v matches Some(s) && s@ == encode_row(
            GeoCodec::Geohash,
            lat,
            long,
            len,
            row as int,
        )->Ok_0,
        r matches Err(e) ==> e@ == encode_row(GeoCodec::Geohash, lat, long, len, row as int)->Err_0,
{
    match (lat, long) {
        (Some(a), Some(o)) => match len {
            Some(l) => {
                #[verifier::truncate]
                let l_len: usize = l as usize;
                match geohash_encode_call(a, o, l_len) {
                    Ok(s) => Ok(Some(s)),
                    Err(m) => Err(EngineError::ComputeError(m)),
                }
            },
            None => Err(
                EngineError::MissingOperand { row, operand: crate::error::Operand::Precision },
            ),
        },
        (None, _) => Err(
            EngineError::MissingOperand { row, operand: crate::error::Operand::Latitude },
        ),
        (_, None) => Err(
            EngineError::MissingOperand { row, operand: crate::error::Operand::Longitude },
        ),
    }
}

/// Decodes a column of geohash cell codes into the named sub-columns
/// `longitude` and `latitude` (in that order) of a composite column. A
/// missing row decodes to a missing row in both sub-columns; a malformed
/// code aborts the whole call with the first failing row's message.
pub fn geohash_decoder(ca: &Vec<Option<String>>) -> (r: Result<Series, EngineError>)
    ensures
        r is Ok <==> decode_col_model(ca.deep_view()) is Ok,
        r matches Ok(out) ==> out matches Series::Struct(fields) && fields@.len() == 2
            && fields@[0].name@ == "longitude"@ && fields@[1].name@ == "latitude"@ && (
        fields@[0].data matches Series::Float64(lons) && lons@ == decode_col_model(
            ca.deep_view(),
        )->Ok_0.0) && (fields@[1].data matches Series::Float64(lats) && lats@ == decode_col_model(
            ca.deep_view(),
        )->Ok_0.1),
        r matches Ok(out) ==> out.well_formed() && out.spec_len() == ca@.len(),
        r matches Err(e) ==> e@ == decode_col_model(ca.deep_view())->Err_0,
{
    let n = ca.len();
    let mut lons: Vec<Option<u64>> = Vec::new();
    let mut lats: Vec<Option<u64>> = Vec::new();
    for i in 0..n
        invariant
            n == ca@.len(),
            lons@.len() == i,
            lats@.len() == i,
            forall|j: int| 0 <= j < i ==> crate::geometry::decode_row_ok(ca.deep_view()[j]),
            forall|j: int|
                0 <= j < i ==> #[trigger] lons@[j] == crate::geometry::decode_row_vals(
                    ca.deep_view()[j],
                ).0,
            forall|j: int|
                0 <= j < i ==> #[trigger] lats@[j] == crate::geometry::decode_row_vals(
                    ca.deep_view()[j],
                ).1,
    {
        match &ca[i] {
            Some(code) => {
                if code.as_str().is_empty() {
                    proof {
                        crate::geometry::lemma_decode_first_bad(ca.deep_view(), i as int);
                    }
                    return Err(
                        EngineError::ComputeError("cannot decode an empty geohash".to_owned()),
                    );
                }
                match geohash_decode_call(code.as_str()) {
                    Ok(p) => {
                        lons.push(Some(p.0));
                        lats.push(Some(p.1));
                    },
                    Err(m) => {
                        proof {
                            crate::geometry::lemma_decode_first_bad(ca.deep_view(), i as int);
                        }
                        return Err(EngineError::ComputeError(m));
                    },
                }
            },
            None => {
                lons.push(None);
                lats.push(None);
            },
        }
    }
    proof {
        crate::geometry::lemma_decode_all_ok(ca.deep_view());
        assert(lons@ =~= decode_col_model(ca.deep_view())->Ok_0.0);
        assert(lats@ =~= decode_col_model(ca.deep_view())->Ok_0.1);
    }
    let mut fields: Vec<Field> = Vec::new();
    fields.push(Field { name: "longitude".to_owned(), data: Series::Float64(lons) });
    fields.push(Field { name: "latitude".to_owned(), data: Series::Float64(lats) });
    Ok(Series::Struct(fields))
}

/// Looks up the eight neighbouring cell codes of each present row of a
/// column of geohash cell codes, as a composite column with the sub-columns
/// n, ne, e, se, s, sw, w, nw, in that order. A missing row yields a missing
/// row in every sub-column; a malformed code aborts the whole call with the
/// first failing row's message.
pub fn geohash_neighbors(ca: &Vec<Option<String>>) -> (r: Result<Series, EngineError>)
    ensures
        r is Ok <==> crate::geometry::neighbors_col_model(ca.deep_view()) is Ok,
        r matches Ok(out) ==> out matches Series::Struct(fields) && fields@.len() == 8 && (forall|
            k: int,
        |
            0 <= k < 8 ==> ((#[trigger] fields@[k].name)@ == crate::geometry::neighbor_names()[k]
                && (fields@[k].data matches Series::Utf8(col) && col.deep_view()
                == crate::geometry::neighbors_col_model(ca.deep_view())->Ok_0[k]))),
        r matches Ok(out) ==> out.well_formed() && out.spec_len() == ca@.len(),
        r matches Err(e) ==> e@ == crate::geometry::neighbors_col_model(ca.deep_view())->Err_0,
{
    let n = ca.len();
    let mut n_ca: Vec<Option<String>> = Vec::new();
    let mut ne_ca: Vec<Option<String>> = Vec::new();
    let mut e_ca: Vec<Option<String>> = Vec::new();
    let mut se_ca: Vec<Option<String>> = Vec::new();
    let mut s_ca: Vec<Option<String>> = Vec::new();
    let mut sw_ca: Vec<Option<String>> = Vec::new();
    let mut w_ca: Vec<Option<String>> = Vec::new();
    let mut nw_ca: Vec<Option<String>> = Vec::new();
    for i in 0..n
        invariant
            n == ca@.len(),
            n_ca@.len() == i,
            ne_ca@.len() == i,
            e_ca@.len() == i,
            se_ca@.len() == i,
            s_ca@.len() == i,
            sw_ca@.len() == i,
            w_ca@.len() == i,
            nw_ca@.len() == i,
            forall|j: int| 0 <= j < i ==> crate::geometry::neighbors_row_ok(ca.deep_view()[j]),
            forall|j: int|
                0 <= j < i ==> (#[trigger] ca@[j] matches Some(code)
                    ==> geohash_neighbors_of(code@)->Ok_0.len() == 8),
            forall|j: int|
                0 <= j < i ==> (#[trigger] ca@[j] is None ==> n_ca@[j] is None && ne_ca@[j] is None
                    && e_ca@[j] is None && se_ca@[j] is None && s_ca@[j] is None
                    && sw_ca@[j] is None && w_ca@[j] is None && nw_ca@[j] is None),
            forall|j: int|
                0 <= j < i ==> (ca@[j] matches Some(code) ==> (#[trigger] n_ca@[j] matches Some(t)
                    && t@ == geohash_neighbors_of(code@)->Ok_0[0])),
            forall|j: int|
                0 <= j < i ==> (ca@[j] matches Some(code) ==> (#[trigger] ne_ca@[j] matches Some(t)
                    && t@ == geohash_neighbors_of(code@)->Ok_0[1])),
            forall|j: int|
                0 <= j < i ==> (ca@[j] matches Some(code) ==> (#[trigger] e_ca@[j] matches Some(t)
                    && t@ == geohash_neighbors_of(code@)->Ok_0[2])),
            forall|j: int|
                0 <= j < i ==> (ca@[j] matches Some(code) ==> (#[trigger] se_ca@[j] matches Some(t)
                    && t@ == geohash_neighbors_of(code@)->Ok_0[3])),
            forall|j: int|
                0 <= j < i ==> (ca@[j] matches Some(code) ==> (#[trigger] s_ca@[j] matches Some(t)
                    && t@ == geohash_neighbors_of(code@)->Ok_0[4])),
            forall|j: int|
                0 <= j < i ==> (ca@[j] matches Some(code) ==> (#[trigger] sw_ca@[j] matches Some(t)
                    && t@ == geohash_neighbors_of(code@)->Ok_0[5])),
            forall|j: int|
                0 <= j < i ==> (ca@[j] matches Some(code) ==> (#[trigger] w_ca@[j] matches Some(t)
                    && t@ == geohash_neighbors_of(code@)->Ok_0[6])),
            forall|j: int|
                0 <= j < i ==> (ca@[j] matches Some(code) ==> (#[trigger] nw_ca@[j] matches Some(t)
                    && t@ == geohash_neighbors_of(code@)->Ok_0[7])),
    {
        match &ca[i] {
            Some(code) => {
                if code.as_str().is_empty() {
                    proof {
                        crate::geometry::lemma_neighbors_first_bad(ca.deep_view(), i as int);
                    }
                    return Err(
                        EngineError::ComputeError(
                            "cannot find neighbors of an empty geohash".to_owned(),
                        ),
                    );
                }
                match geohash_neighbors_call(code.as_str()) {
                Ok(mut nb) => {
                    let ghost nb0 = nb@;
                    proof {
                        assert forall|k: int| 0 <= k < 8 implies geohash_neighbors_of(
                            code@,
                        )->Ok_0[k] == nb0[k]@ by {
                            assert(nb.deep_view()[k] == nb0[k].deep_view());
                        }
                    }
                    // popped in reverse of the order n, ne, e, se, s, sw, w, nw
                    let v_nw = nb.pop().unwrap();
                    let v_w = nb.pop().unwrap();
                    let v_sw = nb.pop().unwrap();
                    let v_s = nb.pop().unwrap();
                    let v_se = nb.pop().unwrap();
                    let v_e = nb.pop().unwrap();
                    let v_ne = nb.pop().unwrap();
                    let v_n = nb.pop().unwrap();
                    n_ca.push(Some(v_n));
                    ne_ca.push(Some(v_ne));
                    e_ca.push(Some(v_e));
                    se_ca.push(Some(v_se));
                    s_ca.push(Some(v_s));
                    sw_ca.push(Some(v_sw));
                    w_ca.push(Some(v_w));
                    nw_ca.push(Some(v_nw));
                },
                Err(m) => {
                    proof {
                        crate::geometry::lemma_neighbors_first_bad(ca.deep_view(), i as int);
                    }
                    return Err(EngineError::ComputeError(m));
                },
                }
            },
            None => {
                n_ca.push(None);
                ne_ca.push(None);
                e_ca.push(None);
                se_ca.push(None);
                s_ca.push(None);
                sw_ca.push(None);
                w_ca.push(None);
                nw_ca.push(None);
            },
        }
    }
    proof {
        crate::geometry::lemma_neighbors_all_ok(ca.deep_view());
        let m = crate::geometry::neighbors_col_model(ca.deep_view())->Ok_0;
        assert(n_ca.deep_view() =~= m[0]);
        assert(ne_ca.deep_view() =~= m[1]);
        assert(e_ca.deep_view() =~= m[2]);
        assert(se_ca.deep_view() =~= m[3]);
        assert(s_ca.deep_view() =~= m[4]);
        assert(sw_ca.deep_view() =~= m[5]);
        assert(w_ca.deep_view() =~= m[6]);
        assert(nw_ca.deep_view() =~= m[7]);
    }
    let mut fields: Vec<Field> = Vec::new();
    fields.push(Field { name: "n".to_owned(), data: Series::Utf8(n_ca) });
    fields.push(Field { name: "ne".to_owned(), data: Series::Utf8(ne_ca) });
    fields.push(Field { name: "e".to_owned(), data: Series::Utf8(e_ca) });
    fields.push(Field { name: "se".to_owned(), data: Series::Utf8(se_ca) });
    fields.push(Field { name: "s".to_owned(), data: Series::Utf8(s_ca) });
    fields.push(Field { name: "sw".to_owned(), data: Series::Utf8(sw_ca) });
    fields.push(Field { name: "w".to_owned(), data: Series::Utf8(w_ca) });
    fields.push(Field { name: "nw".to_owned(), data: Series::Utf8(nw_ca) });
    Ok(Series::Struct(fields))
}

} // verus!
