use polars_hash::error::Operand;
use polars_hash::series::{DataType, SchemaField};
use polars_hash::{EngineError, Field, Series};

fn f64_col(vals: &[Option<f64>]) -> Series {
    Series::Float64(vals.iter().map(|o| o.map(|x| x.to_bits())).collect())
}

fn f32_col(vals: &[Option<f32>]) -> Series {
    Series::Float32(vals.iter().map(|o| o.map(|x| x.to_bits())).collect())
}

fn geo_col(lat: &[Option<f64>], lon: &[Option<f64>]) -> Series {
    Series::Struct(vec![
        Field { name: "latitude".to_string(), data: f64_col(lat) },
        Field { name: "longitude".to_string(), data: f64_col(lon) },
    ])
}

fn i64_col(vals: &[Option<i64>]) -> Series {
    Series::Int64(vals.to_vec())
}

fn utf8_out(r: Result<Series, EngineError>) -> Vec<Option<String>> {
    match r.unwrap() {
        Series::Utf8(v) => v,
        _ => panic!("expected a text column"),
    }
}

fn struct_out(r: Result<Series, EngineError>) -> Vec<Field> {
    match r.unwrap() {
        Series::Struct(fields) => fields,
        _ => panic!("expected a composite column"),
    }
}

fn f64_vals(s: &Series) -> Vec<Option<f64>> {
    match s {
        Series::Float64(v) => v.iter().map(|o| o.map(f64::from_bits)).collect(),
        _ => panic!("expected a 64-bit float column"),
    }
}

#[test]
fn encode_known_cell_codes() {
    let geo = geo_col(&[Some(35.3003)], &[Some(-120.6623)]);
    let out = utf8_out(polars_hash::expressions::ghash_encode(&geo, &i64_col(&[Some(5)])));
    assert_eq!(out[0].as_deref(), Some("9q60y"));
    let out = utf8_out(polars_hash::expressions::ghash_encode(&geo, &i64_col(&[Some(10)])));
    assert_eq!(out[0].as_deref(), Some("9q60y60rhs"));
}

#[test]
fn round_trip_stays_within_the_precision_error() {
    let geo = geo_col(&[Some(57.64911)], &[Some(10.40744)]);
    let encoded = utf8_out(polars_hash::expressions::ghash_encode(&geo, &i64_col(&[Some(11)])));
    assert_eq!(encoded[0].as_deref(), Some("u4pruydqqvj"));
    let back = Series::Utf8(encoded);
    let fields = struct_out(polars_hash::expressions::ghash_decode(&back));
    assert_eq!(fields[0].name, "longitude");
    assert_eq!(fields[1].name, "latitude");
    let lon = f64_vals(&fields[0].data)[0].unwrap();
    let lat = f64_vals(&fields[1].data)[0].unwrap();
    assert!((lon - 10.40744).abs() < 1e-4);
    assert!((lat - 57.64911).abs() < 1e-4);
}

#[test]
fn decode_composite_field_order_and_values() {
    let fields = struct_out(polars_hash::expressions::ghash_decode(&Series::Utf8(vec![Some(
        "u4pruydqqvj".to_string(),
    )])));
    assert_eq!(fields.len(), 2);
    assert_eq!(fields[0].name, "longitude");
    assert_eq!(fields[1].name, "latitude");
    let lon = f64_vals(&fields[0].data)[0].unwrap();
    let lat = f64_vals(&fields[1].data)[0].unwrap();
    assert!((lon - 10.407439693808556).abs() < 1e-9);
    assert!((lat - 57.649110630154610).abs() < 1e-9);
}

#[test]
fn scalar_broadcast_matches_full_length_column() {
    let geo = geo_col(&[Some(35.3003), Some(57.64911)], &[Some(-120.6623), Some(10.40744)]);
    let broadcast = utf8_out(polars_hash::expressions::ghash_encode(&geo, &i64_col(&[Some(5)])));
    let full = utf8_out(polars_hash::expressions::ghash_encode(
        &geo,
        &i64_col(&[Some(5), Some(5)]),
    ));
    assert_eq!(broadcast, full);
    assert_eq!(broadcast.len(), 2);
}

#[test]
fn missing_latitude_fails_the_whole_call() {
    let geo = geo_col(
        &[Some(35.3003), None, Some(57.64911)],
        &[Some(-120.6623), Some(10.0), Some(10.40744)],
    );
    match polars_hash::expressions::ghash_encode(&geo, &i64_col(&[Some(5), Some(5), Some(5)])) {
        Err(EngineError::MissingOperand { row, operand }) => {
            assert_eq!(row, 1);
            assert_eq!(operand, Operand::Latitude);
        },
        other => panic!("unexpected result: {:?}", other),
    }
}

#[test]
fn missing_longitude_and_precision_fail_too() {
    let geo = geo_col(&[Some(1.0), Some(2.0)], &[Some(3.0), None]);
    match polars_hash::expressions::ghash_encode(&geo, &i64_col(&[Some(5), Some(5)])) {
        Err(EngineError::MissingOperand { row, operand }) => {
            assert_eq!(row, 1);
            assert_eq!(operand, Operand::Longitude);
        },
        other => panic!("unexpected result: {:?}", other),
    }
    let geo = geo_col(&[Some(1.0), Some(2.0)], &[Some(3.0), Some(4.0)]);
    match polars_hash::expressions::ghash_encode(&geo, &i64_col(&[Some(5), None])) {
        Err(EngineError::MissingOperand { row, operand }) => {
            assert_eq!(row, 1);
            assert_eq!(operand, Operand::Precision);
        },
        other => panic!("unexpected result: {:?}", other),
    }
}

#[test]
fn missing_broadcast_length_aborts_at_once() {
    let geo = geo_col(&[Some(1.0), None], &[Some(3.0), Some(4.0)]);
    match polars_hash::expressions::ghash_encode(&geo, &i64_col(&[None])) {
        Err(EngineError::MissingOperand { row, operand }) => {
            assert_eq!(row, 0);
            assert_eq!(operand, Operand::Precision);
        },
        other => panic!("unexpected result: {:?}", other),
    }
}

#[test]
fn mismatched_column_lengths_are_rejected() {
    let geo = geo_col(&[Some(1.0), Some(2.0), Some(3.0)], &[Some(1.0), Some(2.0), Some(3.0)]);
    let lens = i64_col(&[Some(5), Some(5), Some(5), Some(5), Some(5)]);
    match polars_hash::expressions::ghash_encode(&geo, &lens) {
        Err(EngineError::InvalidOperation(m)) => assert_eq!(m, "column lengths do not match"),
        other => panic!("unexpected result: {:?}", other),
    }
}

#[test]
fn narrow_integer_precision_is_widened() {
    let geo = geo_col(&[Some(35.3003)], &[Some(-120.6623)]);
    let lens = Series::Int8(vec![Some(5)]);
    let out = utf8_out(polars_hash::expressions::ghash_encode(&geo, &lens));
    assert_eq!(out[0].as_deref(), Some("9q60y"));
}

#[test]
fn coercion_rejections_name_the_field() {
    let geo = geo_col(&[Some(1.0)], &[Some(2.0)]);
    match polars_hash::expressions::ghash_encode(&geo, &Series::Utf8(vec![Some("5".to_string())]))
    {
        Err(EngineError::InvalidOperation(m)) => {
            assert_eq!(m, "Length input needs to be integer")
        },
        other => panic!("unexpected result: {:?}", other),
    }
    let geo = Series::Struct(vec![
        Field { name: "latitude".to_string(), data: Series::Int64(vec![Some(1)]) },
        Field { name: "longitude".to_string(), data: f64_col(&[Some(2.0)]) },
    ]);
    match polars_hash::expressions::ghash_encode(&geo, &i64_col(&[Some(5)])) {
        Err(EngineError::InvalidOperation(m)) => {
            assert_eq!(m, "Latitude input needs to be float")
        },
        other => panic!("unexpected result: {:?}", other),
    }
    let geo = Series::Struct(vec![
        Field { name: "latitude".to_string(), data: f64_col(&[Some(1.0)]) },
        Field { name: "longitude".to_string(), data: Series::Utf8(vec![Some("x".to_string())]) },
    ]);
    match polars_hash::expressions::ghash_encode(&geo, &i64_col(&[Some(5)])) {
        Err(EngineError::InvalidOperation(m)) => {
            assert_eq!(m, "Longitude input needs to be float")
        },
        other => panic!("unexpected result: {:?}", other),
    }
}

#[test]
fn missing_composite_fields_are_hard_errors() {
    let geo = Series::Struct(vec![Field {
        name: "latitude".to_string(),
        data: f64_col(&[Some(1.0)]),
    }]);
    match polars_hash::expressions::ghash_encode(&geo, &i64_col(&[Some(5)])) {
        Err(EngineError::InvalidOperation(m)) => assert_eq!(m, "field longitude not found"),
        other => panic!("unexpected result: {:?}", other),
    }
    match polars_hash::expressions::ghash_encode(&f64_col(&[Some(1.0)]), &i64_col(&[Some(5)])) {
        Err(EngineError::InvalidOperation(m)) => assert_eq!(m, "expected a struct column"),
        other => panic!("unexpected result: {:?}", other),
    }
}

#[test]
fn float32_coordinates_widen_to_the_same_codes() {
    let lat32 = 57.64911f32;
    let lon32 = 10.40744f32;
    let geo32 = Series::Struct(vec![
        Field { name: "latitude".to_string(), data: f32_col(&[Some(lat32)]) },
        Field { name: "longitude".to_string(), data: f32_col(&[Some(lon32)]) },
    ]);
    let geo64 = geo_col(&[Some(lat32 as f64)], &[Some(lon32 as f64)]);
    let a = utf8_out(polars_hash::expressions::ghash_encode(&geo32, &i64_col(&[Some(9)])));
    let b = utf8_out(polars_hash::expressions::ghash_encode(&geo64, &i64_col(&[Some(9)])));
    assert_eq!(a, b);
}

#[test]
fn bit_level_widening_matches_the_float_cast() {
    let samples: Vec<f32> = vec![
        0.0,
        -0.0,
        1.0,
        1.5,
        -57.64911,
        35.3003,
        f32::MAX,
        f32::MIN,
        f32::MIN_POSITIVE,
        f32::from_bits(1),
        f32::from_bits(0x0000_1234),
        f32::from_bits(0x007f_ffff),
        1e-40,
        f32::INFINITY,
        f32::NEG_INFINITY,
        f32::NAN,
    ];
    for x in samples {
        assert_eq!(
            polars_hash::coerce::widen_f32_bits(x.to_bits()),
            (x as f64).to_bits(),
            "widening 0x{:08x}",
            x.to_bits()
        );
    }
}

#[test]
fn coercing_float64_twice_changes_nothing() {
    let col32 = f32_col(&[Some(1.5), None, Some(-2.25)]);
    let once = polars_hash::coerce::coerce_float64(&col32, Operand::Latitude).unwrap();
    let again =
        polars_hash::coerce::coerce_float64(&Series::Float64(once.clone()), Operand::Latitude)
            .unwrap();
    assert_eq!(once, again);
    assert_eq!(once[0], Some(1.5f64.to_bits()));
    assert_eq!(once[1], None);
    assert_eq!(once[2], Some((-2.25f64).to_bits()));
}

#[test]
fn out_of_range_geohash_length_is_a_compute_error() {
    let geo = geo_col(&[Some(1.0)], &[Some(2.0)]);
    match polars_hash::expressions::ghash_encode(&geo, &i64_col(&[Some(13)])) {
        Err(EngineError::ComputeError(_)) => {},
        other => panic!("unexpected result: {:?}", other),
    }
    match polars_hash::expressions::ghash_encode(&geo, &i64_col(&[Some(0)])) {
        Err(EngineError::ComputeError(_)) => {},
        other => panic!("unexpected result: {:?}", other),
    }
}

#[test]
fn out_of_range_coordinates_are_a_compute_error() {
    let geo = geo_col(&[Some(91.0)], &[Some(0.0)]);
    match polars_hash::expressions::ghash_encode(&geo, &i64_col(&[Some(5)])) {
        Err(EngineError::ComputeError(_)) => {},
        other => panic!("unexpected result: {:?}", other),
    }
}

#[test]
fn h3_encode_matches_direct_call() {
    let geo = geo_col(&[Some(37.7749)], &[Some(-122.4194)]);
    let out = utf8_out(polars_hash::expressions::h3_encode(&geo, &i64_col(&[Some(9)])));
    let expected = h3o::LatLng::new(37.7749, -122.4194)
        .unwrap()
        .to_cell(h3o::Resolution::Nine)
        .to_string();
    assert_eq!(out[0].as_deref(), Some(expected.as_str()));
}

#[test]
fn h3_resolution_is_validated() {
    let geo = geo_col(&[Some(37.7749)], &[Some(-122.4194)]);
    match polars_hash::expressions::h3_encode(&geo, &i64_col(&[Some(16)])) {
        Err(EngineError::InvalidOperation(m)) => {
            assert_eq!(m, "expected resolution between 1 and 15, got 16")
        },
        other => panic!("unexpected result: {:?}", other),
    }
    assert_eq!(polars_hash::h3::get_resolution(9).unwrap(), 9);
    match polars_hash::h3::get_resolution(-310) {
        Err(EngineError::InvalidOperation(m)) => {
            assert_eq!(m, "expected resolution between 1 and 15, got -310")
        },
        other => panic!("unexpected result: {:?}", other),
    }
    match polars_hash::h3::get_resolution(0) {
        Err(EngineError::InvalidOperation(m)) => {
            assert_eq!(m, "expected resolution between 1 and 15, got 0")
        },
        other => panic!("unexpected result: {:?}", other),
    }
}

#[test]
fn neighbors_fixed_order_and_values() {
    let fields = struct_out(polars_hash::expressions::ghash_neighbors(&Series::Utf8(vec![
        Some("u4pruyd".to_string()),
        None,
    ])));
    let names: Vec<&str> = fields.iter().map(|f| f.name.as_str()).collect();
    assert_eq!(names, vec!["n", "ne", "e", "se", "s", "sw", "w", "nw"]);
    let expected = vec![
        "u4pruyf", "u4pruyg", "u4pruye", "u4pruy7", "u4pruy6", "u4pruy3", "u4pruy9", "u4pruyc",
    ];
    for (f, want) in fields.iter().zip(expected) {
        match &f.data {
            Series::Utf8(col) => {
                assert_eq!(col[0].as_deref(), Some(want));
                assert_eq!(col[1], None);
            },
            _ => panic!("expected a text column"),
        }
    }
}

#[test]
fn empty_codes_are_rejected_before_the_decoder() {
    let col = Series::Utf8(vec![Some("u4pruyd".to_string()), Some(String::new())]);
    match polars_hash::expressions::ghash_decode(&col) {
        Err(EngineError::ComputeError(m)) => assert_eq!(m, "cannot decode an empty geohash"),
        other => panic!("unexpected result: {:?}", other),
    }
    match polars_hash::expressions::ghash_neighbors(&col) {
        Err(EngineError::ComputeError(m)) => {
            assert_eq!(m, "cannot find neighbors of an empty geohash")
        },
        other => panic!("unexpected result: {:?}", other),
    }
}

#[test]
fn malformed_codes_abort_decoding() {
    let col = Series::Utf8(vec![Some("u4pruyd".to_string()), Some("a!".to_string())]);
    match polars_hash::expressions::ghash_decode(&col) {
        Err(EngineError::ComputeError(_)) => {},
        other => panic!("unexpected result: {:?}", other),
    }
    match polars_hash::expressions::ghash_neighbors(&col) {
        Err(EngineError::ComputeError(_)) => {},
        other => panic!("unexpected result: {:?}", other),
    }
}

#[test]
fn decode_keeps_missing_rows_missing() {
    let col = Series::Utf8(vec![Some("u4pruydqqvj".to_string()), None]);
    let fields = struct_out(polars_hash::expressions::ghash_decode(&col));
    assert_eq!(f64_vals(&fields[0].data)[1], None);
    assert_eq!(f64_vals(&fields[1].data)[1], None);
    assert!(f64_vals(&fields[0].data)[0].is_some());
}

#[test]
fn empty_columns_evaluate_to_empty_columns() {
    let geo = geo_col(&[], &[]);
    let out = utf8_out(polars_hash::expressions::ghash_encode(&geo, &i64_col(&[])));
    assert_eq!(out.len(), 0);
    let fields = struct_out(polars_hash::expressions::ghash_decode(&Series::Utf8(vec![])));
    assert_eq!(f64_vals(&fields[0].data).len(), 0);
}

#[test]
fn per_row_encoders_report_the_missing_operand() {
    let lat = 57.64911f64.to_bits();
    let lon = 10.40744f64.to_bits();
    let ok = polars_hash::geohashers::geohash_encoder(Some(lat), Some(lon), Some(11), 0).unwrap();
    assert_eq!(ok.as_deref(), Some("u4pruydqqvj"));
    match polars_hash::geohashers::geohash_encoder(None, Some(lon), Some(11), 4) {
        Err(EngineError::MissingOperand { row: 4, operand: Operand::Latitude }) => {},
        other => panic!("unexpected result: {:?}", other),
    }
    match polars_hash::h3::h3_encoder(Some(lat), Some(lon), None, 2) {
        Err(EngineError::MissingOperand { row: 2, operand: Operand::Precision }) => {},
        other => panic!("unexpected result: {:?}", other),
    }
}

#[test]
fn output_schemas_declare_the_fixed_field_order() {
    let input = vec![SchemaField { name: "points".to_string(), kind: DataType::Utf8 }];
    let out = polars_hash::expressions::geohash_decode_output(&input).unwrap();
    assert_eq!(out.name, "points");
    match out.kind {
        DataType::Struct(v) => {
            assert_eq!(v.len(), 2);
            assert_eq!(v[0].name, "longitude");
            assert!(matches!(v[0].kind, DataType::Float64));
            assert_eq!(v[1].name, "latitude");
            assert!(matches!(v[1].kind, DataType::Float64));
        },
        _ => panic!("expected a composite schema"),
    }
    let out = polars_hash::expressions::geohash_neighbors_output(&input).unwrap();
    assert_eq!(out.name, "points");
    match out.kind {
        DataType::Struct(v) => {
            let names: Vec<&str> = v.iter().map(|f| f.name.as_str()).collect();
            assert_eq!(names, vec!["n", "ne", "e", "se", "s", "sw", "w", "nw"]);
            assert!(v.iter().all(|f| matches!(f.kind, DataType::Utf8)));
        },
        _ => panic!("expected a composite schema"),
    }
}
