use ipc_mmap::{
    drop_nans, is_nan, is_nan_f32_bits, is_nan_f64_bits, is_not_nan, rolling_skew_plan,
    rolling_window_bounds, ColumnData, DataType, Error, Field, NanFunction, RollingPlan, Series,
};

fn f64_series(name: &str, values: &[f64]) -> Series {
    Series::new(name.to_string(), ColumnData::Float64Bits(values.iter().map(|v| v.to_bits()).collect()))
}

fn f32_series(name: &str, values: &[f32]) -> Series {
    Series::new(name.to_string(), ColumnData::Float32Bits(values.iter().map(|v| v.to_bits()).collect()))
}

fn bools_of(s: &Series) -> Vec<bool> {
    match &s.data {
        ColumnData::Boolean(v) => v.clone(),
        other => panic!("expected a boolean column, got {:?}", other),
    }
}

#[test]
fn nan_bit_patterns() {
    assert!(is_nan_f64_bits(f64::NAN.to_bits()));
    assert!(is_nan_f64_bits((-f64::NAN).to_bits()));
    assert!(!is_nan_f64_bits(f64::INFINITY.to_bits()));
    assert!(!is_nan_f64_bits(f64::NEG_INFINITY.to_bits()));
    assert!(!is_nan_f64_bits(0f64.to_bits()));
    assert!(!is_nan_f64_bits((-1.5f64).to_bits()));

    assert!(is_nan_f32_bits(f32::NAN.to_bits()));
    assert!(!is_nan_f32_bits(f32::INFINITY.to_bits()));
    assert!(!is_nan_f32_bits(0f32.to_bits()));
    assert!(!is_nan_f32_bits(7.25f32.to_bits()));
}

#[test]
fn is_nan_marks_exactly_the_nans() {
    let s = f64_series("x", &[1.0, f64::NAN, 3.5]);
    let out = is_nan(&s).unwrap();
    assert_eq!(out.name, "x");
    assert_eq!(bools_of(&out), vec![false, true, false]);

    let s32 = f32_series("y", &[f32::NAN, 2.0]);
    let out = is_nan(&s32).unwrap();
    assert_eq!(bools_of(&out), vec![true, false]);
}

#[test]
fn is_not_nan_is_the_negation() {
    let s = f64_series("x", &[1.0, f64::NAN, 3.5]);
    let out = is_not_nan(&s).unwrap();
    assert_eq!(out.name, "x");
    assert_eq!(bools_of(&out), vec![true, false, true]);
}

#[test]
fn nan_tests_reject_non_float_columns() {
    let s = Series::new("n".to_string(), ColumnData::Int64(vec![1, 2]));
    assert!(matches!(is_nan(&s), Err(Error::ComputeError)));
    let s = Series::new("n".to_string(), ColumnData::Int64(vec![1, 2]));
    assert!(matches!(is_not_nan(&s), Err(Error::ComputeError)));
}

#[test]
fn drop_nans_filters_float_columns() {
    let s = f64_series("x", &[1.0, f64::NAN, 3.5, f64::NAN]);
    let out = drop_nans(s).unwrap();
    assert_eq!(out.name, "x");
    assert_eq!(out.data, ColumnData::Float64Bits(vec![1.0f64.to_bits(), 3.5f64.to_bits()]));

    let s32 = f32_series("y", &[f32::NAN, 2.0]);
    let out = drop_nans(s32).unwrap();
    assert_eq!(out.data, ColumnData::Float32Bits(vec![2.0f32.to_bits()]));
}

#[test]
fn drop_nans_keeps_other_columns_unchanged() {
    let s = Series::new("n".to_string(), ColumnData::Int64(vec![4, 5, 6]));
    let out = drop_nans(s).unwrap();
    assert_eq!(out.name, "n");
    assert_eq!(out.data, ColumnData::Int64(vec![4, 5, 6]));
}

#[test]
fn get_field_types_the_output() {
    let fields = vec![Field::new("v".to_string(), DataType::Float64)];
    let f = NanFunction::IsNan.get_field(&fields).unwrap();
    assert_eq!(f.name, "v");
    assert_eq!(f.dtype, DataType::Boolean);

    let f = NanFunction::IsNotNan.get_field(&fields).unwrap();
    assert_eq!(f.name, "v");
    assert_eq!(f.dtype, DataType::Boolean);

    let f = NanFunction::DropNans.get_field(&fields).unwrap();
    assert_eq!(f.name, "v");
    assert_eq!(f.dtype, DataType::Float64);
}

#[test]
fn apply_dispatches_by_variant() {
    let out = NanFunction::IsNan.apply(f64_series("x", &[f64::NAN, 1.0])).unwrap();
    assert_eq!(bools_of(&out), vec![true, false]);

    let out = NanFunction::IsNotNan.apply(f64_series("x", &[f64::NAN, 1.0])).unwrap();
    assert_eq!(bools_of(&out), vec![false, true]);

    let out = NanFunction::DropNans.apply(f64_series("x", &[f64::NAN, 1.0])).unwrap();
    assert_eq!(out.data, ColumnData::Float64Bits(vec![1.0f64.to_bits()]));
}

#[test]
fn rolling_skew_dispatch() {
    assert_eq!(rolling_skew_plan(DataType::Float64), RollingPlan::UseFloat64);
    assert_eq!(rolling_skew_plan(DataType::Float32), RollingPlan::UseFloat32);
    assert_eq!(rolling_skew_plan(DataType::Int64), RollingPlan::CastToFloat64);
    assert_eq!(rolling_skew_plan(DataType::Boolean), RollingPlan::Unsupported);
    assert_eq!(rolling_skew_plan(DataType::Dictionary(3)), RollingPlan::Unsupported);
}

#[test]
fn rolling_windows_cover_trailing_ranges() {
    let bounds = rolling_window_bounds(5, 3);
    assert_eq!(bounds, vec![None, None, Some((0, 3)), Some((1, 4)), Some((2, 5))]);

    let one = rolling_window_bounds(3, 1);
    assert_eq!(one, vec![Some((0, 1)), Some((1, 2)), Some((2, 3))]);

    assert_eq!(rolling_window_bounds(0, 2), vec![]);
}
