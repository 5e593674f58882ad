use pitwall::telemetry_files::distance_window_mask;
use pitwall::float_bits::{f64_bits_is_infinite, f64_bits_is_nan, f64_bits_lt};
use pitwall::monotonicity::{
    compute_lap_sample_counts, validate_lap_distance_monotonicity, LAP_RESET_PREV_MIN_BITS,
    LAP_RESET_THRESHOLD_BITS,
};
use pitwall::range_check::{
    channel_ranges, validate_channel_ranges, ChannelColumn, ChannelData, ChannelValue, RangeViolation,
    F64_10, F64_120, F64_20000, F64_200, F64_250, F64_350, F64_50, F64_6_28, F64_MINUS_10,
    F64_MINUS_6_28, F64_ONE, F64_ZERO,
};

fn bits(values: &[f64]) -> Vec<Option<u64>> {
    values.iter().map(|x| Some(x.to_bits())).collect()
}

fn float_column(name: &str, values: &[f64]) -> ChannelColumn {
    ChannelColumn { name: name.to_string(), data: ChannelData::Float(bits(values)) }
}

/// The columns of a small batch: lap distance, throttle, brake and speed.
fn telemetry_columns(lap_distances: &[f64], throttles: &[f64], brakes: &[f64], speeds: &[f64]) -> Vec<ChannelColumn> {
    vec![
        float_column("lap_distance", lap_distances),
        float_column("throttle", throttles),
        float_column("brake", brakes),
        float_column("speed", speeds),
    ]
}

fn find<'a>(violations: &'a [RangeViolation], name: &str) -> Option<&'a RangeViolation> {
    violations.iter().find(|v| v.channel_name == name)
}

#[test]
fn test_monotonicity_clean_data() {
    let violations = validate_lap_distance_monotonicity(&bits(&[0.0, 100.0, 200.0, 300.0, 400.0]));
    assert!(violations.is_empty(), "Monotonically increasing data should have no violations");
}

#[test]
fn test_monotonicity_with_lap_reset() {
    // Distance goes from a high value back to near zero: a new lap.
    let violations =
        validate_lap_distance_monotonicity(&bits(&[0.0, 200.0, 400.0, 600.0, 10.0, 200.0, 400.0]));
    assert!(violations.is_empty(), "Lap resets should not be counted as violations");
}

#[test]
fn test_monotonicity_with_violation() {
    let violations = validate_lap_distance_monotonicity(&bits(&[0.0, 100.0, 200.0, 150.0, 300.0]));
    assert_eq!(violations.len(), 1);
    assert_eq!(violations[0].sample_index, 3);
    assert_eq!(f64::from_bits(violations[0].previous_value), 200.0);
    assert_eq!(f64::from_bits(violations[0].violating_value), 150.0);
}

#[test]
fn test_empty_batch_monotonicity() {
    let violations = validate_lap_distance_monotonicity(&[]);
    assert!(violations.is_empty(), "Empty batch should have no violations");
}

#[test]
fn monotonicity_lap_numbers_follow_resets() {
    // Lap 1 regresses once; after the reset at 10.0, lap 2 regresses once.
    let values = bits(&[0.0, 300.0, 250.0, 400.0, 10.0, 200.0, 150.0]);
    let violations = validate_lap_distance_monotonicity(&values);
    assert_eq!(violations.len(), 2);
    assert_eq!(violations[0].lap_number, 1);
    assert_eq!(violations[0].sample_index, 2);
    assert_eq!(violations[1].lap_number, 2);
    assert_eq!(violations[1].sample_index, 6);
    assert_eq!(f64::from_bits(violations[1].previous_value), 200.0);
}

#[test]
fn monotonicity_skips_absent_samples_and_keeps_indices() {
    let values = vec![Some(100.0f64.to_bits()), None, Some(90.0f64.to_bits())];
    let violations = validate_lap_distance_monotonicity(&values);
    assert_eq!(violations.len(), 1);
    assert_eq!(violations[0].sample_index, 2);
    assert_eq!(f64::from_bits(violations[0].previous_value), 100.0);
}

#[test]
fn monotonicity_drop_from_exactly_100_is_a_violation() {
    // The previous distance must lie above 100 m for a reset.
    let violations = validate_lap_distance_monotonicity(&bits(&[100.0, 10.0]));
    assert_eq!(violations.len(), 1);
    // And the new distance below 50 m.
    let violations = validate_lap_distance_monotonicity(&bits(&[300.0, 50.0]));
    assert_eq!(violations.len(), 1);
    let violations = validate_lap_distance_monotonicity(&bits(&[300.0, 49.9]));
    assert!(violations.is_empty());
}

#[test]
fn monotonicity_nan_is_never_below() {
    // NaN compares false both ways, so it neither regresses nor resets.
    let violations = validate_lap_distance_monotonicity(&bits(&[200.0, f64::NAN, 10.0]));
    assert!(violations.is_empty());
}

#[test]
fn lap_sample_counts_split_at_resets() {
    let counts = compute_lap_sample_counts(&bits(&[0.0, 200.0, 400.0, 600.0, 10.0, 200.0, 400.0]));
    assert_eq!(counts.len(), 2);
    assert_eq!(counts[&1], 4);
    assert_eq!(counts[&2], 3);
    let counts = compute_lap_sample_counts(&[None, Some(5.0f64.to_bits())]);
    assert_eq!(counts.len(), 1);
    assert_eq!(counts[&1], 1);
    assert!(compute_lap_sample_counts(&[]).is_empty());
}

#[test]
fn test_range_check_clean_data() {
    let cols = telemetry_columns(&[0.0, 100.0, 200.0], &[0.5, 0.8, 1.0], &[0.0, 0.3, 0.5], &[50.0, 80.0, 100.0]);
    let violations = validate_channel_ranges(&cols, 3);
    assert!(violations.is_empty(), "In-range data should have no violations");
}

#[test]
fn test_range_check_out_of_range() {
    let cols = telemetry_columns(
        &[0.0, 100.0, 200.0],
        &[0.5, 1.5, 0.8],
        &[0.0, 0.3, 0.5],
        &[50.0, 80.0, 130.0],
    );
    let violations = validate_channel_ranges(&cols, 3);
    assert!(find(&violations, "throttle").is_some(), "Should flag throttle out-of-range");
    assert!(find(&violations, "speed").is_some(), "Should flag speed out-of-range");
    assert_eq!(find(&violations, "throttle").unwrap().out_of_range_count, 1);
    assert_eq!(find(&violations, "speed").unwrap().out_of_range_count, 1);
    let speed = find(&violations, "speed").unwrap();
    assert_eq!(speed.total_samples, 3);
    assert_eq!(speed.min_seen, ChannelValue::Float(50.0f64.to_bits()));
    assert_eq!(speed.max_seen, ChannelValue::Float(130.0f64.to_bits()));
}

#[test]
fn test_range_check_nan_values() {
    let cols = telemetry_columns(&[0.0, f64::NAN, 200.0], &[0.5, 0.8, 1.0], &[0.0, 0.3, 0.5], &[50.0, 80.0, 100.0]);
    let violations = validate_channel_ranges(&cols, 3);
    // lap_distance has no defined range, but NaN is still flagged
    assert!(
        find(&violations, "lap_distance").is_some(),
        "Should flag NaN values even without defined range"
    );
    let lap = find(&violations, "lap_distance").unwrap();
    assert_eq!(lap.out_of_range_count, 1);
    assert_eq!(lap.min_seen, ChannelValue::Float(0.0f64.to_bits()));
    assert_eq!(lap.max_seen, ChannelValue::Float(200.0f64.to_bits()));
}

#[test]
fn test_empty_batch_range_check() {
    let cols = vec![float_column("throttle", &[])];
    let violations = validate_channel_ranges(&cols, 0);
    assert!(violations.is_empty(), "Empty batch should have no violations");
}

#[test]
fn range_check_gear_infinity_and_other_columns() {
    let cols = vec![
        ChannelColumn { name: "gear".to_string(), data: ChannelData::Int(vec![Some(3), Some(9), None, Some(-2)]) },
        float_column("rpm", &[5000.0, f64::INFINITY]),
        float_column("yaw", &[f64::NEG_INFINITY, 1.0e9]),
        ChannelColumn { name: "abs_active".to_string(), data: ChannelData::Other },
        ChannelColumn { name: "lap".to_string(), data: ChannelData::Int(vec![Some(-100)]) },
        float_column("steering", &[-6.28, 6.28, 6.3]),
    ];
    let violations = validate_channel_ranges(&cols, 4);
    assert_eq!(violations.len(), 4);
    assert_eq!(violations[0].channel_name, "gear");
    assert_eq!(violations[0].out_of_range_count, 2);
    assert_eq!(violations[0].min_seen, ChannelValue::Int(-2));
    assert_eq!(violations[0].max_seen, ChannelValue::Int(9));
    assert_eq!(violations[1].channel_name, "rpm");
    assert_eq!(violations[1].out_of_range_count, 1);
    assert_eq!(violations[2].channel_name, "yaw");
    assert_eq!(violations[2].out_of_range_count, 1);
    assert_eq!(violations[3].channel_name, "steering");
    assert_eq!(violations[3].out_of_range_count, 1);
    assert_eq!(violations[3].total_samples, 4);
}

#[test]
fn channel_range_table_values() {
    let ranges = channel_ranges();
    assert_eq!(ranges.len(), 21);
    let r = ranges.get("steering").unwrap();
    assert_eq!((f64::from_bits(r.min), f64::from_bits(r.max)), (-6.28, 6.28));
    let r = ranges.get("tire_pressure_rr").unwrap();
    assert_eq!((f64::from_bits(r.min), f64::from_bits(r.max)), (50.0, 350.0));
    assert!(ranges.get("lap_distance").is_none());
    let pairs = [
        (F64_ZERO, 0.0),
        (F64_ONE, 1.0),
        (F64_120, 120.0),
        (F64_6_28, 6.28),
        (F64_MINUS_6_28, -6.28),
        (F64_20000, 20000.0),
        (F64_10, 10.0),
        (F64_MINUS_10, -10.0),
        (F64_200, 200.0),
        (F64_250, 250.0),
        (F64_50, 50.0),
        (F64_350, 350.0),
        (LAP_RESET_THRESHOLD_BITS, 50.0),
        (LAP_RESET_PREV_MIN_BITS, 100.0),
    ];
    for (b, x) in pairs {
        assert_eq!(f64::from_bits(b), x);
    }
}

#[test]
fn bit_ordering_matches_f64() {
    let samples = [
        0.0, -0.0, 1.0, -1.0, 0.5, -2.5, 1.0e300, -1.0e300, 5.0e-324, -5.0e-324,
        f64::INFINITY, f64::NEG_INFINITY, f64::NAN, -f64::NAN, f64::MAX, f64::MIN,
    ];
    for a in samples {
        assert_eq!(f64_bits_is_nan(a.to_bits()), a.is_nan());
        assert_eq!(f64_bits_is_infinite(a.to_bits()), a.is_infinite());
        for b in samples {
            assert_eq!(f64_bits_lt(a.to_bits(), b.to_bits()), a < b, "{} < {}", a, b);
        }
    }
}

#[test]
fn violation_laps_have_sample_counts() {
    let values = bits(&[0.0, 300.0, 250.0, 400.0, 10.0, 200.0, 150.0, 120.0]);
    let violations = validate_lap_distance_monotonicity(&values);
    let counts = compute_lap_sample_counts(&values);
    assert_eq!(violations.len(), 3);
    for v in &violations {
        assert!(counts.contains_key(&v.lap_number));
    }
    assert_eq!(counts[&1], 4);
    assert_eq!(counts[&2], 4);
}

#[test]
fn distance_window_selects_rows_inclusively() {
    let d = vec![Some(50.0f64.to_bits()), Some(100.0f64.to_bits()), None, Some(200.0f64.to_bits()), Some(f64::NAN.to_bits()), Some(201.0f64.to_bits())];
    let mask = distance_window_mask(&d, 100.0f64.to_bits(), 200.0f64.to_bits());
    assert_eq!(mask, vec![Some(false), Some(true), None, Some(true), Some(false), Some(false)]);
}
