use solar_telemetry::errors::FieldFault;
use solar_telemetry::json::Json;
use solar_telemetry::normalize::{parse_i64, parse_size};
use solar_telemetry::telemetry::UtcInstant;

#[test]
fn size_megabytes() {
    assert_eq!(parse_size("12 MB"), Ok(12 * 1024 * 1024));
}

#[test]
fn size_kilobytes_lower_case() {
    assert_eq!(parse_size("1 kb"), Ok(1024));
}

#[test]
fn size_gigabytes() {
    assert_eq!(parse_size("3 GB"), Ok(3 * 1024 * 1024 * 1024));
}

#[test]
fn size_plain_bytes() {
    assert_eq!(parse_size("7 B"), Ok(7));
}

#[test]
fn size_mixed_case_unit() {
    assert_eq!(parse_size("5 Mb"), Ok(5 * 1024 * 1024));
}

#[test]
fn size_unknown_unit_is_unscaled() {
    assert_eq!(parse_size("5 XB"), Ok(5));
}

#[test]
fn size_missing_unit_is_unscaled() {
    assert_eq!(parse_size("41"), Ok(41));
}

#[test]
fn size_extra_whitespace_tolerated() {
    assert_eq!(parse_size("  12   MB  "), Ok(12 * 1024 * 1024));
}

#[test]
fn size_zero() {
    assert_eq!(parse_size("0 GB"), Ok(0));
}

#[test]
fn size_malformed_number() {
    assert_eq!(parse_size("abc MB"), Err(FieldFault::InvalidSizeFormat));
}

#[test]
fn size_negative_number_rejected() {
    assert_eq!(parse_size("-2 MB"), Err(FieldFault::InvalidSizeFormat));
}

#[test]
fn size_empty_rejected() {
    assert_eq!(parse_size(""), Err(FieldFault::InvalidSizeFormat));
}

#[test]
fn size_blank_rejected() {
    assert_eq!(parse_size("   "), Err(FieldFault::InvalidSizeFormat));
}

#[test]
fn size_glued_unit_rejected() {
    assert_eq!(parse_size("12MB"), Err(FieldFault::InvalidSizeFormat));
}

#[test]
fn size_overflow_rejected() {
    assert_eq!(
        parse_size("99999999999999999999 GB"),
        Err(FieldFault::InvalidSizeFormat)
    );
}

#[test]
fn int_round_trip_positive() {
    assert_eq!(parse_i64("42"), Ok(42));
}

#[test]
fn int_round_trip_negative() {
    assert_eq!(parse_i64("-7"), Ok(-7));
}

#[test]
fn int_explicit_plus() {
    assert_eq!(parse_i64("+13"), Ok(13));
}

#[test]
fn int_leading_zeros() {
    assert_eq!(parse_i64("000042"), Ok(42));
}

#[test]
fn int_extremes() {
    assert_eq!(parse_i64("9223372036854775807"), Ok(i64::MAX));
    assert_eq!(parse_i64("-9223372036854775808"), Ok(i64::MIN));
}

#[test]
fn int_just_out_of_range() {
    assert_eq!(
        parse_i64("9223372036854775808"),
        Err(FieldFault::InvalidIntegerFormat)
    );
    assert_eq!(
        parse_i64("-9223372036854775809"),
        Err(FieldFault::InvalidIntegerFormat)
    );
}

#[test]
fn int_non_numeric_rejected() {
    assert_eq!(parse_i64("12a"), Err(FieldFault::InvalidIntegerFormat));
    assert_eq!(parse_i64(""), Err(FieldFault::InvalidIntegerFormat));
    assert_eq!(parse_i64("-"), Err(FieldFault::InvalidIntegerFormat));
    assert_eq!(parse_i64("1 2"), Err(FieldFault::InvalidIntegerFormat));
}

#[test]
fn count_empty_array() {
    let j = Json::Arr(vec![]);
    assert_eq!(j.array_count(), Some(0));
}

#[test]
fn count_three_numbers() {
    let j = Json::Arr(vec![Json::Int(1), Json::Int(2), Json::Int(3)]);
    assert_eq!(j.array_count(), Some(3));
}

#[test]
fn count_two_objects() {
    let j = Json::Arr(vec![
        Json::Obj(vec![(String::from("a"), Json::Int(1))]),
        Json::Obj(vec![(String::from("b"), Json::Int(2))]),
    ]);
    assert_eq!(j.array_count(), Some(2));
}

#[test]
fn count_ignores_element_contents() {
    let j = Json::Arr(vec![Json::Null, Json::Bool(true), Json::Str(String::from("x"))]);
    assert_eq!(j.array_count(), Some(3));
}

#[test]
fn count_rejects_non_arrays() {
    assert_eq!(Json::Int(3).array_count(), None);
    assert_eq!(Json::Null.array_count(), None);
}

#[test]
fn epoch_seconds_pass_through() {
    let t = UtcInstant::from_epoch_seconds(1688000000);
    assert_eq!(t.epoch_secs, 1688000000);
    assert_eq!(t.epoch_nanos(), Some(1_688_000_000_000_000_000));
}

#[test]
fn epoch_seconds_negative_pass_through() {
    let t = UtcInstant::from_epoch_seconds(-1);
    assert_eq!(t.epoch_secs, -1);
    assert_eq!(t.epoch_nanos(), Some(-1_000_000_000));
}

#[test]
fn epoch_nanos_overflow_reported() {
    let t = UtcInstant::from_epoch_seconds(i64::MAX);
    assert_eq!(t.epoch_nanos(), None);
}
