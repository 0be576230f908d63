use vstd::prelude::*;
use crate::error::{EngineError, ErrSpec, Operand};
use crate::geohashers::{geohash_decode_of, geohash_encoder, geohash_neighbors_of, geohash_of};
use crate::h3::{h3_encoder, h3_of};
use crate::series::{Field, Series};
use crate::eval::NullPolicy;

verus! {

/// A fallible coordinate-encoding scalar codec.
#[derive(Clone, Copy)]
pub enum GeoCodec {
    Geohash,
    H3,
}

impl GeoCodec {
    /// Coordinate-encoding operations abort the whole call on a missing
    /// operand instead of propagating it.
    pub open spec fn policy(self) -> NullPolicy {
        NullPolicy::FailOnMissingOperand
    }
}

/// What one row of a coordinate-encoding operation yields: a missing
/// operand is an error naming this row and the first missing operand
/// (latitude before longitude before precision); with all three present the
/// codec is invoked, a geohash length crossing as the code length and an H3
/// precision checked against the supported 1..=15 range first.
pub open spec fn encode_row(
    c: GeoCodec,
    lat: Option<u64>,
    lon: Option<u64>,
    len: Option<i64>,
    row: int,
) -> Result<Seq<char>, ErrSpec> {
    match (lat, lon) {
        (Some(a), Some(o)) => match len {
            Some(l) => match c {
                GeoCodec::Geohash => match geohash_of(a, o, l as usize) {
                    Ok(s) => Ok(s),
                    Err(m) => Err(ErrSpec::Compute(m)),
                },
                GeoCodec::H3 => if 1 <= l <= 15 {
                    match h3_of(a, o, l as u8) {
                        Ok(s) => Ok(s),
                        Err(m) => Err(ErrSpec::Compute(m)),
                    }
                } else {
                    Err(ErrSpec::InvalidOp(crate::h3::resolution_error_text(l as int)))
                },
            },
            None => Err(ErrSpec::Missing { row, operand: Operand::Precision }),
        },
        (None, _) => Err(ErrSpec::Missing { row, operand: Operand::Latitude }),
        (_, None) => Err(ErrSpec::Missing { row, operand: Operand::Longitude }),
    }
}

/// Whether one row of a coordinate-encoding operation succeeds; this does
/// not depend on the row's position.
pub open spec fn encode_row_ok(
    c: GeoCodec,
    lat: Option<u64>,
    lon: Option<u64>,
    len: Option<i64>,
) -> bool {
    encode_row(c, lat, lon, len, 0) is Ok
}

/// Whether a row succeeds is the same at every row position, and so is the
/// code it succeeds with.
pub proof fn lemma_encode_row_any_row(
    c: GeoCodec,
    lat: Option<u64>,
    lon: Option<u64>,
    len: Option<i64>,
    row: int,
)
    ensures
        encode_row(c, lat, lon, len, row) is Ok <==> encode_row_ok(c, lat, lon, len),
        encode_row(c, lat, lon, len, row) is Ok ==> encode_row(c, lat, lon, len, row)->Ok_0
            == encode_row(c, lat, lon, len, 0)->Ok_0,
{
}

/// The least row in [i, n) on which the encoding operation fails, or n if
/// every row succeeds.
pub open spec fn first_bad_encode(
    c: GeoCodec,
    lat: Seq<Option<u64>>,
    lon: Seq<Option<u64>>,
    lens: Seq<Option<i64>>,
    i: int,
) -> int
    decreases lat.len() - i,
{
    if i >= lat.len() {
        i
    } else if !encode_row_ok(c, lat[i], lon[i], lens[i]) {
        i
    } else {
        first_bad_encode(c, lat, lon, lens, i + 1)
    }
}

/// What `first_bad_encode` returns: an index in [i, n], a failing row if
/// below n, with every row before it succeeding.
pub proof fn lemma_first_bad_encode_props(
    c: GeoCodec,
    lat: Seq<Option<u64>>,
    lon: Seq<Option<u64>>,
    lens: Seq<Option<i64>>,
    i: int,
)
    requires
        0 <= i <= lat.len(),
    ensures
        i <= first_bad_encode(c, lat, lon, lens, i) <= lat.len(),
        first_bad_encode(c, lat, lon, lens, i) < lat.len() ==> !encode_row_ok(
            c,
            lat[first_bad_encode(c, lat, lon, lens, i)],
            lon[first_bad_encode(c, lat, lon, lens, i)],
            lens[first_bad_encode(c, lat, lon, lens, i)],
        ),
        forall|j: int|
            i <= j < first_bad_encode(c, lat, lon, lens, i) ==> #[trigger] encode_row_ok(
                c,
                lat[j],
                lon[j],
                lens[j],
            ),
    decreases lat.len() - i,
{
    if i < lat.len() && encode_row_ok(c, lat[i], lon[i], lens[i]) {
        lemma_first_bad_encode_props(c, lat, lon, lens, i + 1);
    }
}

/// What a coordinate-encoding operation yields on three parallel operand
/// columns of one length: the column of cell codes if every row succeeds,
/// else the error of the first failing row and no output at all.
pub open spec fn encode_cols_model(
    c: GeoCodec,
    lat: Seq<Option<u64>>,
    lon: Seq<Option<u64>>,
    lens: Seq<Option<i64>>,
) -> Result<Seq<Option<Seq<char>>>, ErrSpec>
    recommends
        lon.len() == lat.len(),
        lens.len() == lat.len(),
{
    let fb = first_bad_encode(c, lat, lon, lens, 0);
    if fb == lat.len() {
        Ok(Seq::new(lat.len(), |i: int| Some(encode_row(c, lat[i], lon[i], lens[i], i)->Ok_0)))
    } else {
        Err(encode_row(c, lat[fb], lon[fb], lens[fb], fb)->Err_0)
    }
}

/// Whether decoding one slot of cell codes succeeds: a missing slot does,
/// a present one exactly when it is non-empty and the decoder accepts it.
/// The empty code is decided by the engine itself and never handed to the
/// decoder.
pub open spec fn decode_row_ok(v: Option<Seq<char>>) -> bool {
    match v {
        Some(code) => code.len() >= 1 && geohash_decode_of(code) is Ok,
        None => true,
    }
}

/// The error a failing slot of cell codes yields: the engine rejects the
/// empty code itself; any other failing code carries the decoder's message.
pub open spec fn decode_row_err(code: Seq<char>) -> ErrSpec {
    if code.len() == 0 {
        ErrSpec::Compute("cannot decode an empty geohash"@)
    } else {
        ErrSpec::Compute(geohash_decode_of(code)->Err_0)
    }
}

/// The (longitude, latitude) slots that one slot of cell codes decodes to;
/// a missing slot stays missing in both.
pub open spec fn decode_row_vals(v: Option<Seq<char>>) -> (Option<u64>, Option<u64>) {
    match v {
        Some(code) => (
            Some(geohash_decode_of(code)->Ok_0.0),
            Some(geohash_decode_of(code)->Ok_0.1),
        ),
        None => (None, None),
    }
}

/// The least row in [i, n) on which decoding fails, or n if every row
/// decodes.
pub open spec fn first_bad_decode(col: Seq<Option<Seq<char>>>, i: int) -> int
    decreases col.len() - i,
{
    if i >= col.len() {
        i
    } else if !decode_row_ok(col[i]) {
        i
    } else {
        first_bad_decode(col, i + 1)
    }
}

/// What `first_bad_decode` returns: an index in [i, n], a failing row if
/// below n, with every row before it decoding.
pub proof fn lemma_first_bad_decode_props(col: Seq<Option<Seq<char>>>, i: int)
    requires
        0 <= i <= col.len(),
    ensures
        i <= first_bad_decode(col, i) <= col.len(),
        first_bad_decode(col, i) < col.len() ==> !decode_row_ok(col[first_bad_decode(col, i)]),
        forall|j: int| i <= j < first_bad_decode(col, i) ==> #[trigger] decode_row_ok(col[j]),
    decreases col.len() - i,
{
    if i < col.len() && decode_row_ok(col[i]) {
        lemma_first_bad_decode_props(col, i + 1);
    }
}

/// What decoding a column of cell codes yields: the pair of (longitude,
/// latitude) columns if every present row decodes, else the first failing
/// row's message and no output at all.
pub open spec fn decode_col_model(col: Seq<Option<Seq<char>>>) -> Result<
    (Seq<Option<u64>>, Seq<Option<u64>>),
    ErrSpec,
> {
    let fb = first_bad_decode(col, 0);
    if fb == col.len() {
        Ok(
            (
                Seq::new(col.len(), |i: int| decode_row_vals(col[i]).0),
                Seq::new(col.len(), |i: int| decode_row_vals(col[i]).1),
            ),
        )
    } else {
        Err(decode_row_err(col[fb]->0))
    }
}

/// If the rows before `i` decode and row `i` does not, the whole decode call
/// yields row i's error.
pub proof fn lemma_decode_first_bad(col: Seq<Option<Seq<char>>>, i: int)
    requires
        0 <= i < col.len(),
        forall|j: int| 0 <= j < i ==> decode_row_ok(col[j]),
        !decode_row_ok(col[i]),
    ensures
        decode_col_model(col) == Err::<(Seq<Option<u64>>, Seq<Option<u64>>), ErrSpec>(
            decode_row_err(col[i]->0),
        ),
{
    lemma_first_bad_decode_props(col, 0);
    let fb = first_bad_decode(col, 0);
    if fb < i {
        assert(decode_row_ok(col[fb]));
        assert(false);
    }
    if fb > i {
        assert(decode_row_ok(col[i]));
        assert(false);
    }
}

/// If every row decodes, the whole decode call succeeds.
pub proof fn lemma_decode_all_ok(col: Seq<Option<Seq<char>>>)
    requires
        forall|j: int| 0 <= j < col.len() ==> decode_row_ok(col[j]),
    ensures
        decode_col_model(col) is Ok,
{
    lemma_first_bad_decode_props(col, 0);
    let fb = first_bad_decode(col, 0);
    if fb < col.len() {
        assert(decode_row_ok(col[fb]));
        assert(false);
    }
}

/// The names of the eight neighbour sub-columns, in their fixed order.
pub open spec fn neighbor_names() -> Seq<Seq<char>> {
    seq!["n"@, "ne"@, "e"@, "se"@, "s"@, "sw"@, "w"@, "nw"@]
}

/// Whether the neighbour lookup succeeds on one slot of cell codes: a
/// missing slot does, a present one exactly when it is non-empty and the
/// lookup accepts it. The empty code is decided by the engine itself and
/// never handed to the lookup.
pub open spec fn neighbors_row_ok(v: Option<Seq<char>>) -> bool {
    match v {
        Some(code) => code.len() >= 1 && geohash_neighbors_of(code) is Ok,
        None => true,
    }
}

/// The error a failing slot yields in the neighbour operation: the engine
/// rejects the empty code itself; any other failing code carries the
/// lookup's message.
pub open spec fn neighbors_row_err(code: Seq<char>) -> ErrSpec {
    if code.len() == 0 {
        ErrSpec::Compute("cannot find neighbors of an empty geohash"@)
    } else {
        ErrSpec::Compute(geohash_neighbors_of(code)->Err_0)
    }
}

/// The eight neighbour slots of one slot of cell codes; a missing slot
/// stays missing in all eight.
pub open spec fn neighbors_row_vals(v: Option<Seq<char>>) -> Seq<Option<Seq<char>>> {
    match v {
        Some(code) => geohash_neighbors_of(code)->Ok_0.map_values(|s: Seq<char>| Some(s)),
        None => Seq::new(8, |k: int| None),
    }
}

/// The least row in [i, n) on which the neighbour lookup fails, or n if
/// every row succeeds.
pub open spec fn first_bad_neighbors(col: Seq<Option<Seq<char>>>, i: int) -> int
    decreases col.len() - i,
{
    if i >= col.len() {
        i
    } else if !neighbors_row_ok(col[i]) {
        i
    } else {
        first_bad_neighbors(col, i + 1)
    }
}

/// What `first_bad_neighbors` returns: an index in [i, n], a failing row if
/// below n, with every row before it succeeding.
pub proof fn lemma_first_bad_neighbors_props(col: Seq<Option<Seq<char>>>, i: int)
    requires
        0 <= i <= col.len(),
    ensures
        i <= first_bad_neighbors(col, i) <= col.len(),
        first_bad_neighbors(col, i) < col.len() ==> !neighbors_row_ok(
            col[first_bad_neighbors(col, i)],
        ),
        forall|j: int| i <= j < first_bad_neighbors(col, i) ==> #[trigger] neighbors_row_ok(col[j]),
    decreases col.len() - i,
{
    if i < col.len() && neighbors_row_ok(col[i]) {
        lemma_first_bad_neighbors_props(col, i + 1);
    }
}

/// What the neighbour operation yields on a column of cell codes: eight
/// parallel columns, one per direction in the order of `neighbor_names`, if
/// every present row succeeds, else the first failing row's message.
pub open spec fn neighbors_col_model(col: Seq<Option<Seq<char>>>) -> Result<
    Seq<Seq<Option<Seq<char>>>>,
    ErrSpec,
> {
    let fb = first_bad_neighbors(col, 0);
    if fb == col.len() {
        Ok(Seq::new(8, |k: int| Seq::new(col.len(), |i: int| neighbors_row_vals(col[i])[k])))
    } else {
        Err(neighbors_row_err(col[fb]->0))
    }
}

/// If the rows before `i` succeed and row `i` does not, the whole neighbour
/// call yields row i's error.
pub proof fn lemma_neighbors_first_bad(col: Seq<Option<Seq<char>>>, i: int)
    requires
        0 <= i < col.len(),
        forall|j: int| 0 <= j < i ==> neighbors_row_ok(col[j]),
        !neighbors_row_ok(col[i]),
    ensures
        neighbors_col_model(col) == Err::<Seq<Seq<Option<Seq<char>>>>, ErrSpec>(
            neighbors_row_err(col[i]->0),
        ),
{
    lemma_first_bad_neighbors_props(col, 0);
    let fb = first_bad_neighbors(col, 0);
    if fb < i {
        assert(neighbors_row_ok(col[fb]));
        assert(false);
    }
    if fb > i {
        assert(neighbors_row_ok(col[i]));
        assert(false);
    }
}

/// If every row succeeds, the whole neighbour call succeeds.
pub proof fn lemma_neighbors_all_ok(col: Seq<Option<Seq<char>>>)
    requires
        forall|j: int| 0 <= j < col.len() ==> neighbors_row_ok(col[j]),
    ensures
        neighbors_col_model(col) is Ok,
{
    lemma_first_bad_neighbors_props(col, 0);
    let fb = first_bad_neighbors(col, 0);
    if fb < col.len() {
        assert(neighbors_row_ok(col[fb]));
        assert(false);
    }
}

/// The first field of the given name, front to back.
pub open spec fn find_field(fields: Seq<Field>, name: Seq<char>) -> Option<Series>
    decreases fields.len(),
{
    if fields.len() == 0 {
        None
    } else if fields[0].name@ == name {
        Some(fields[0].data)
    } else {
        find_field(fields.drop_first(), name)
    }
}

/// Looks up a sub-column of a composite column by exact name.
pub fn field_by_name<'a>(fields: &'a Vec<Field>, name: &String) -> (r: Option<&'a Series>)
    ensures
        r is Some <==> find_field(fields@, name@) is Some,
        r matches Some(s) ==> *s == find_field(fields@, name@)->0,
{
    let n = fields.len();
    proof {
        assert(fields@.skip(0) =~= fields@);
    }
    for i in 0..n
        invariant
            n == fields@.len(),
            find_field(fields@, name@) == find_field(fields@.skip(i as int), name@),
    {
        proof {
            assert(fields@.skip(i as int).drop_first() =~= fields@.skip(i + 1));
        }
        if fields[i].name == *name {
            return Some(&fields[i].data);
        }
    }
    None
}

/// Evaluates a coordinate-encoding codec over three equal-length operand
/// columns, row by row, under the FailOnMissingOperand policy.
pub fn encode_columns(
    c: &GeoCodec,
    lat: &Vec<Option<u64>>,
    lon: &Vec<Option<u64>>,
    lens: &Vec<Option<i64>>,
) -> (r: Result<Vec<Option<String>>, EngineError>)
    requires
        lon@.len() == lat@.len(),
        lens@.len() == lat@.len(),
    ensures
        r is Ok <==> encode_cols_model(*c, lat@, lon@, lens@) is Ok,
        r matches Ok(out) ==> out.deep_view() == encode_cols_model(*c, lat@, lon@, lens@)->Ok_0,
        r matches Err(e) ==> e@ == encode_cols_model(*c, lat@, lon@, lens@)->Err_0,
{
    let n = lat.len();
    let mut out: Vec<Option<String>> = Vec::new();
    for i in 0..n
        invariant
            n == lat@.len(),
            lon@.len() == n,
            lens@.len() == n,
            out@.len() == i,
            forall|j: int| 0 <= j < i ==> #[trigger] encode_row_ok(*c, lat@[j], lon@[j], lens@[j]),
            forall|j: int|
                0 <= j < i ==> (#[trigger] out@[j] matches Some(t) && t@ == encode_row(
                    *c,
                    lat@[j],
                    lon@[j],
                    lens@[j],
                    j,
                )->Ok_0),
    {
        let row = match c {
            GeoCodec::Geohash => geohash_encoder(lat[i], lon[i], lens[i], i),
            GeoCodec::H3 => h3_encoder(lat[i], lon[i], lens[i], i),
        };
        match row {
            Ok(v) => {
                proof {
                    lemma_encode_row_any_row(*c, lat@[i as int], lon@[i as int], lens@[i as int], i as int);
                }
                out.push(v);
            },
            Err(e) => {
                proof {
                    lemma_encode_row_any_row(*c, lat@[i as int], lon@[i as int], lens@[i as int], i as int);
                    lemma_first_bad_encode_props(*c, lat@, lon@, lens@, 0);
                    let fb = first_bad_encode(*c, lat@, lon@, lens@, 0);
                    if fb < i as int {
                        assert(encode_row_ok(*c, lat@[fb], lon@[fb], lens@[fb]));
                        assert(false);
                    }
                    if fb > i as int {
                        assert(encode_row_ok(*c, lat@[i as int], lon@[i as int], lens@[i as int]));
                        assert(false);
                    }
                }
                return Err(e);
            },
        }
    }
    proof {
        lemma_first_bad_encode_props(*c, lat@, lon@, lens@, 0);
        let fb = first_bad_encode(*c, lat@, lon@, lens@, 0);
        if fb < n as int {
            assert(encode_row_ok(*c, lat@[fb], lon@[fb], lens@[fb]));
            assert(false);
        }
        assert(out.deep_view() =~= encode_cols_model(*c, lat@, lon@, lens@)->Ok_0);
    }
    Ok(out)
}

/// Evaluates a coordinate-encoding codec with a broadcast scalar precision:
/// the scalar is read once and every row uses it; the result is exactly
/// that of the row-by-row evaluation with the scalar replicated.
pub fn encode_columns_broadcast(
    c: &GeoCodec,
    lat: &Vec<Option<u64>>,
    lon: &Vec<Option<u64>>,
    l: i64,
) -> (r: Result<Vec<Option<String>>, EngineError>)
    requires
        lon@.len() == lat@.len(),
    ensures
        ({
            let lens = Seq::new(lat@.len(), |i: int| Some(l));
            &&& (r is Ok <==> encode_cols_model(*c, lat@, lon@, lens) is Ok)
            &&& (r matches Ok(out) ==> out.deep_view() == encode_cols_model(
                *c,
                lat@,
                lon@,
                lens,
            )->Ok_0)
            &&& (r matches Err(e) ==> e@ == encode_cols_model(*c, lat@, lon@, lens)->Err_0)
        }),
{
    let ghost lens = Seq::new(lat@.len(), |i: int| Some(l));
    let n = lat.len();
    let mut out: Vec<Option<String>> = Vec::new();
    for i in 0..n
        invariant
            n == lat@.len(),
            lon@.len() == n,
            lens == Seq::new(lat@.len(), |i: int| Some(l)),
            out@.len() == i,
            forall|j: int| 0 <= j < i ==> #[trigger] encode_row_ok(*c, lat@[j], lon@[j], lens[j]),
            forall|j: int|
                0 <= j < i ==> (#[trigger] out@[j] matches Some(t) && t@ == encode_row(
                    *c,
                    lat@[j],
                    lon@[j],
                    lens[j],
                    j,
                )->Ok_0),
    {
        let row = match c {
            GeoCodec::Geohash => geohash_encoder(lat[i], lon[i], Some(l), i),
            GeoCodec::H3 => h3_encoder(lat[i], lon[i], Some(l), i),
        };
        match row {
            Ok(v) => {
                proof {
                    lemma_encode_row_any_row(*c, lat@[i as int], lon@[i as int], lens[i as int], i as int);
                }
                out.push(v);
            },
            Err(e) => {
                proof {
                    lemma_encode_row_any_row(*c, lat@[i as int], lon@[i as int], lens[i as int], i as int);
                    lemma_first_bad_encode_props(*c, lat@, lon@, lens, 0);
                    let fb = first_bad_encode(*c, lat@, lon@, lens, 0);
                    if fb < i as int {
                        assert(encode_row_ok(*c, lat@[fb], lon@[fb], lens[fb]));
                        assert(false);
                    }
                    if fb > i as int {
                        assert(encode_row_ok(*c, lat@[i as int], lon@[i as int], lens[i as int]));
                        assert(false);
                    }
                }
                return Err(e);
            },
        }
    }
    proof {
        lemma_first_bad_encode_props(*c, lat@, lon@, lens, 0);
        let fb = first_bad_encode(*c, lat@, lon@, lens, 0);
        if fb < n as int {
            assert(encode_row_ok(*c, lat@[fb], lon@[fb], lens[fb]));
            assert(false);
        }
        assert(out.deep_view() =~= encode_cols_model(*c, lat@, lon@, lens)->Ok_0);
    }
    Ok(out)
}

/// Null propagation for the composite-output operations: when a decode or
/// neighbour call succeeds, a missing input row is missing in every output
/// sub-column.
pub proof fn lemma_null_propagation_composite(col: Seq<Option<Seq<char>>>, i: int)
    requires
        0 <= i < col.len(),
        col[i] is None,
    ensures
        decode_col_model(col) matches Ok(pair) ==> pair.0[i] is None && pair.1[i] is None,
        neighbors_col_model(col) matches Ok(cols) ==> forall|k: int|
            0 <= k < 8 ==> #[trigger] cols[k][i] is None,
{
}

/// In a well-formed composite, a field found by name is a plain column of
/// the composite's row count.
pub proof fn lemma_find_field_len(fields: Seq<Field>, name: Seq<char>, len: nat)
    requires
        forall|i: int|
            0 <= i < fields.len() ==> !(#[trigger] fields[i].data is Struct)
                && fields[i].data.spec_plain_len() == len,
    ensures
        find_field(fields, name) matches Some(s) ==> !(s is Struct) && s.spec_plain_len() == len,
    decreases fields.len(),
{
    if fields.len() > 0 && fields[0].name@ != name {
        assert(forall|i: int|
            0 <= i < fields.drop_first().len() ==> #[trigger] fields.drop_first()[i]
                == fields[i + 1]);
        lemma_find_field_len(fields.drop_first(), name, len);
    }
}

/// How a whole-call result corresponds to the model of a coordinate
/// encoding: success exactly together, the output a text column holding the
/// model's rows, the error the model's error.
pub open spec fn encode_result_matches(
    r: Result<Series, EngineError>,
    m: Result<Seq<Option<Seq<char>>>, ErrSpec>,
) -> bool {
    &&& (r is Ok <==> m is Ok)
    &&& (r matches Ok(s) ==> s matches Series::Utf8(out) && out.deep_view() == m->Ok_0)
    &&& (r matches Err(e) ==> e@ == m->Err_0)
}

/// Full contract of a coordinate-encoding operation on a composite geometry
/// column and a precision column. In order: the first input must be a
/// composite; the precision column is coerced to 64-bit integers; the
/// `latitude` and `longitude` sub-columns are looked up by name, either
/// absent being a hard error; each is coerced to 64-bit float; a length-1
/// precision column broadcasts its value (a missing broadcast value aborts
/// at once), any other length must equal the row count; the rows are then
/// encoded under the FailOnMissingOperand policy.
pub open spec fn encode_op_spec(
    c: GeoCodec,
    geo: Series,
    len: Series,
    r: Result<Series, EngineError>,
) -> bool {
    if !(geo is Struct) {
        r matches Err(e) && e@ == ErrSpec::InvalidOp("expected a struct column"@)
    } else {
        let fields = geo->Struct_0;
        match crate::coerce::coerce_int64_model(len) {
            Err(e) => r matches Err(er) && er@ == e,
            Ok(lenvals) => match find_field(fields@, "latitude"@) {
                None => r matches Err(er) && er@ == ErrSpec::InvalidOp(
                    "field latitude not found"@,
                ),
                Some(lat_s) => match find_field(fields@, "longitude"@) {
                    None => r matches Err(er) && er@ == ErrSpec::InvalidOp(
                        "field longitude not found"@,
                    ),
                    Some(lon_s) => match crate::coerce::coerce_float64_model(
                        lat_s,
                        Operand::Latitude,
                    ) {
                        Err(e) => r matches Err(er) && er@ == e,
                        Ok(latv) => match crate::coerce::coerce_float64_model(
                            lon_s,
                            Operand::Longitude,
                        ) {
                            Err(e) => r matches Err(er) && er@ == e,
                            Ok(lonv) => if lenvals.len() == 1 {
                                match lenvals[0] {
                                    None => r matches Err(er) && er@ == ErrSpec::Missing {
                                        row: 0,
                                        operand: Operand::Precision,
                                    },
                                    Some(l) => encode_result_matches(
                                        r,
                                        encode_cols_model(
                                            c,
                                            latv,
                                            lonv,
                                            Seq::new(latv.len(), |i: int| Some(l)),
                                        ),
                                    ),
                                }
                            } else if lenvals.len() != latv.len() {
                                r matches Err(er) && er@ == ErrSpec::InvalidOp(
                                    "column lengths do not match"@,
                                )
                            } else {
                                encode_result_matches(r, encode_cols_model(c, latv, lonv, lenvals))
                            },
                        },
                    },
                },
            },
        }
    }
}

/// Runs a coordinate-encoding codec over a composite geometry column and a
/// precision column, as `encode_op_spec` says; the output has one row per
/// input row.
pub fn encode_operation(c: &GeoCodec, geo: &Series, len: &Series) -> (r: Result<
    Series,
    EngineError,
>)
    requires
        geo.well_formed(),
    ensures
        encode_op_spec(*c, *geo, *len, r),
        r matches Ok(out) ==> out.spec_len() == geo.spec_len(),
{
    let fields = match geo {
        Series::Struct(f) => f,
        _ => {
            return Err(EngineError::InvalidOperation("expected a struct column".to_owned()));
        },
    };
    let lenvals = match crate::coerce::coerce_int64(len) {
        Ok(v) => v,
        Err(e) => {
            return Err(e);
        },
    };
    proof {
        lemma_find_field_len(fields@, "latitude"@, geo.spec_len());
        lemma_find_field_len(fields@, "longitude"@, geo.spec_len());
    }
    let lat_name: String = "latitude".to_owned();
    let lon_name: String = "longitude".to_owned();
    let lat_s = match field_by_name(fields, &lat_name) {
        Some(s) => s,
        None => {
            return Err(EngineError::InvalidOperation("field latitude not found".to_owned()));
        },
    };
    let lon_s = match field_by_name(fields, &lon_name) {
        Some(s) => s,
        None => {
            return Err(EngineError::InvalidOperation("field longitude not found".to_owned()));
        },
    };
    let latv = match crate::coerce::coerce_float64(lat_s, Operand::Latitude) {
        Ok(v) => v,
        Err(e) => {
            return Err(e);
        },
    };
    let lonv = match crate::coerce::coerce_float64(lon_s, Operand::Longitude) {
        Ok(v) => v,
        Err(e) => {
            return Err(e);
        },
    };
    proof {
        assert(latv@.len() == geo.spec_len());
        assert(lonv@.len() == geo.spec_len());
    }
    if lenvals.len() == 1 {
        match lenvals[0] {
            Some(l) => match encode_columns_broadcast(c, &latv, &lonv, l) {
                Ok(out) => {
                    proof {
                        assert(out.deep_view().len() == out@.len());
                    }
                    Ok(Series::Utf8(out))
                },
                Err(e) => Err(e),
            },
            None => Err(EngineError::MissingOperand { row: 0, operand: Operand::Precision }),
        }
    } else if lenvals.len() != latv.len() {
        Err(EngineError::InvalidOperation("column lengths do not match".to_owned()))
    } else {
        match encode_columns(c, &latv, &lonv, &lenvals) {
            Ok(out) => {
                proof {
                    assert(out.deep_view().len() == out@.len());
                }
                Ok(Series::Utf8(out))
            },
            Err(e) => Err(e),
        }
    }
}

/// Scalar-broadcast equivalence: encoding with a precision column whose
/// every row holds the one value `l` yields exactly the result of encoding
/// with that value replicated for every row, byte for byte, errors
/// included.
pub proof fn lemma_scalar_broadcast_equivalence(
    c: GeoCodec,
    lat: Seq<Option<u64>>,
    lon: Seq<Option<u64>>,
    lens: Seq<Option<i64>>,
    l: i64,
)
    requires
        lens.len() == lat.len(),
        forall|i: int| 0 <= i < lens.len() ==> lens[i] == Some(l),
    ensures
        encode_cols_model(c, lat, lon, lens) == encode_cols_model(
            c,
            lat,
            lon,
            Seq::new(lat.len(), |i: int| Some(l)),
        ),
{
    assert(lens =~= Seq::new(lat.len(), |i: int| Some(l)));
}

/// The row count of a float coercion's output is the coerced column's own.
pub proof fn lemma_coerce_float64_len(input: Series, which: Operand)
    ensures
        crate::coerce::coerce_float64_model(input, which) matches Ok(v) ==> v.len()
            == input.spec_plain_len(),
{
}

/// Scalar-broadcast equivalence at the call surface: a whole encoding call
/// whose precision column is the single value `l` and one whose precision
/// column repeats `l` for every row succeed together, return byte-identical
/// columns, and fail with identical errors.
pub proof fn lemma_scalar_broadcast_operation_equivalence(
    c: GeoCodec,
    geo: Series,
    len1: Series,
    lenn: Series,
    l: i64,
    r1: Result<Series, EngineError>,
    r2: Result<Series, EngineError>,
)
    requires
        geo.well_formed(),
        encode_op_spec(c, geo, len1, r1),
        encode_op_spec(c, geo, lenn, r2),
        crate::coerce::coerce_int64_model(len1) == Ok::<Seq<Option<i64>>, ErrSpec>(
            seq![Some(l)],
        ),
        crate::coerce::coerce_int64_model(lenn) matches Ok(lv) && lv == Seq::new(
            geo.spec_len(),
            |i: int| Some(l),
        ),
    ensures
        r1 is Ok <==> r2 is Ok,
        r1 matches Ok(s1) ==> (r2 matches Ok(s2) && s1 matches Series::Utf8(o1) && (
        s2 matches Series::Utf8(o2) && o1.deep_view() == o2.deep_view())),
        r1 matches Err(e1) ==> (r2 matches Err(e2) && e1@ == e2@),
{
    if geo is Struct {
        let fields = geo->Struct_0;
        let lv = crate::coerce::coerce_int64_model(lenn)->Ok_0;
        match find_field(fields@, "latitude"@) {
            Some(lat_s) => match find_field(fields@, "longitude"@) {
                Some(lon_s) => {
                    lemma_find_field_len(fields@, "latitude"@, geo.spec_len());
                    lemma_find_field_len(fields@, "longitude"@, geo.spec_len());
                    lemma_coerce_float64_len(lat_s, Operand::Latitude);
                    lemma_coerce_float64_len(lon_s, Operand::Longitude);
                    match crate::coerce::coerce_float64_model(lat_s, Operand::Latitude) {
                        Ok(latv) => match crate::coerce::coerce_float64_model(
                            lon_s,
                            Operand::Longitude,
                        ) {
                            Ok(lonv) => {
                                assert(latv.len() == geo.spec_len());
                                assert(lv.len() == geo.spec_len());
                                if lv.len() == 1 {
                                    assert(lv[0] == Some(l));
                                    assert(lv =~= seq![Some(l)]);
                                    assert(Seq::new(latv.len(), |i: int| Some(l)) =~= Seq::new(
                                        geo.spec_len(),
                                        |i: int| Some(l),
                                    ));
                                } else {
                                    lemma_scalar_broadcast_equivalence(c, latv, lonv, lv, l);
                                }
                            },
                            Err(_) => {},
                        },
                        Err(_) => {},
                    }
                },
                None => {},
            },
            None => {},
        }
    }
}

/// Fail-fast: under the FailOnMissingOperand policy, one missing latitude,
/// longitude or precision anywhere makes the whole call fail and produce no
/// output, however many other rows are fully valid.
pub proof fn lemma_fail_fast(
    c: GeoCodec,
    lat: Seq<Option<u64>>,
    lon: Seq<Option<u64>>,
    lens: Seq<Option<i64>>,
    i: int,
)
    requires
        lon.len() == lat.len(),
        lens.len() == lat.len(),
        0 <= i < lat.len(),
        lat[i] is None || lon[i] is None || lens[i] is None,
    ensures
        c.policy() is FailOnMissingOperand,
        encode_cols_model(c, lat, lon, lens) is Err,
{
    lemma_first_bad_encode_props(c, lat, lon, lens, 0);
    let fb = first_bad_encode(c, lat, lon, lens, 0);
    assert(!encode_row_ok(c, lat[i], lon[i], lens[i]));
    if fb == lat.len() {
        assert(encode_row_ok(c, lat[i], lon[i], lens[i]));
        assert(false);
    }
}

} // verus!
