use pitwall::checksum::{compute_checksum, validate_checksum};
use pitwall::types::LapSummary;
use pitwall::monotonicity::{has_excessive_violations, MonotonicityViolation};
use pitwall::range_check::{has_excessive_range_violations, ChannelValue, RangeViolation};
use pitwall::validation::{
    check_gear_range, integrity_status,
    validate_checksum_with_details, validate_lap_times, GearRangeViolation, STATUS_CHECKSUM_FAILED,
    STATUS_DISTANCE_ANOMALY, STATUS_NOT_VALIDATED, STATUS_RANGE_VIOLATION, STATUS_VALID,
};
use std::collections::HashMap;

fn lap(id: &str, lap_number: i32, lap_time_ms: i64) -> LapSummary {
    LapSummary {
        id: id.to_string(),
        session_id: "s1".to_string(),
        lap_number,
        lap_time_ms,
        is_valid: true,
        completion_status: "complete".to_string(),
        created_at: "2025-01-01T00:00:00.000Z".to_string(),
    }
}

#[test]
fn test_validate_lap_times_all_valid() {
    let laps = vec![lap("1", 1, 120000), lap("2", 2, 119500)];

    let violations = validate_lap_times(&laps);
    assert!(violations.is_empty(), "Expected no violations for valid lap times");
}

#[test]
fn test_validate_lap_times_zero_time() {
    let laps = vec![lap("1", 1, 0)];

    let violations = validate_lap_times(&laps);
    assert_eq!(violations.len(), 1);
    assert_eq!(violations[0].lap_number, 1);
    assert!(violations[0].reason.contains("zero or negative"));
}

#[test]
fn test_validate_lap_times_exceeds_max() {
    let laps = vec![lap("1", 1, 700_000)];

    let violations = validate_lap_times(&laps);
    assert_eq!(violations.len(), 1);
    assert!(violations[0].reason.contains("exceeds"));
}

#[test]
fn lap_time_violation_texts_and_boundaries() {
    let laps = vec![
        lap("1", 1, -5),
        lap("2", 2, 1),
        lap("3", 3, 600_000),
        lap("4", 4, 600_001),
    ];
    let violations = validate_lap_times(&laps);
    assert_eq!(violations.len(), 2);
    assert_eq!(violations[0].lap_number, 1);
    assert_eq!(violations[0].lap_time_ms, -5);
    assert_eq!(violations[0].reason, "Lap time is zero or negative");
    assert_eq!(violations[1].lap_number, 4);
    assert_eq!(violations[1].reason, "Lap time exceeds 600000ms (10 minutes)");
}

fn mv(lap_number: u32, sample_index: usize, previous_value: f64, violating_value: f64) -> MonotonicityViolation {
    MonotonicityViolation {
        lap_number,
        sample_index,
        previous_value: previous_value.to_bits(),
        violating_value: violating_value.to_bits(),
    }
}

fn in_laps(laps: &[u32]) -> Vec<MonotonicityViolation> {
    laps.iter().enumerate().map(|(i, &l)| mv(l, i, 100.0, 90.0)).collect()
}

#[test]
fn test_excessive_violations_threshold() {
    // 3 violations in lap 1 (100 samples) = 3% > 2% threshold
    let mut lap_samples = HashMap::new();
    lap_samples.insert(1u32, 100usize);

    assert!(has_excessive_violations(
        &vec![mv(1, 10, 100.0, 90.0), mv(1, 20, 200.0, 190.0), mv(1, 30, 300.0, 290.0)],
        &lap_samples,
        100,
    ));

    // 1 violation in lap 1 (100 samples) = 1% < 2% threshold
    assert!(!has_excessive_violations(&vec![mv(1, 10, 100.0, 90.0)], &lap_samples, 100));
}

#[test]
fn test_excessive_violations_per_lap_check() {
    // Lap 1: 100 samples, 1 violation; lap 2: 100 samples, 2 violations (at threshold)
    let mut lap_samples = HashMap::new();
    lap_samples.insert(1u32, 100usize);
    lap_samples.insert(2u32, 100usize);

    assert!(!has_excessive_violations(
        &vec![mv(1, 10, 100.0, 90.0), mv(2, 110, 200.0, 190.0), mv(2, 120, 300.0, 290.0)],
        &lap_samples,
        200,
    ));

    // Lap 2 has 3 violations in 100 samples = 3% > 2%
    assert!(has_excessive_violations(
        &vec![mv(2, 110, 200.0, 190.0), mv(2, 120, 300.0, 290.0), mv(2, 130, 400.0, 390.0)],
        &lap_samples,
        200,
    ));
}

#[test]
fn excessive_violations_fallback_share_and_empty_cases() {
    let lap_samples: HashMap<u32, usize> = HashMap::new();
    assert!(!has_excessive_violations(&[], &lap_samples, 100));
    assert!(!has_excessive_violations(&in_laps(&[1, 1, 1]), &lap_samples, 0));
    assert!(has_excessive_violations(&in_laps(&[7, 7, 7]), &lap_samples, 100));
    let mut counts = HashMap::new();
    counts.insert(1u32, 500usize);
    counts.insert(2u32, 500usize);
    assert!(!has_excessive_violations(&in_laps(&[9; 10]), &counts, 1000));
    assert!(has_excessive_violations(&in_laps(&[9; 11]), &counts, 1000));
}

fn rv(out_of_range_count: usize, total_samples: usize) -> RangeViolation {
    RangeViolation {
        channel_name: "throttle".to_string(),
        out_of_range_count,
        total_samples,
        min_seen: ChannelValue::Float((-0.1f64).to_bits()),
        max_seen: ChannelValue::Float(1.5f64.to_bits()),
    }
}

#[test]
fn test_excessive_range_violations() {
    // 6% > 5% threshold
    assert!(has_excessive_range_violations(&[rv(6, 100)]));

    // 4% < 5% threshold
    assert!(!has_excessive_range_violations(&[rv(4, 100)]));
}

#[test]
fn range_violations_at_threshold_and_without_samples() {
    assert!(!has_excessive_range_violations(&[rv(5, 100)]));
    assert!(!has_excessive_range_violations(&[rv(3, 0)]));
    assert!(!has_excessive_range_violations(&[]));
    assert!(has_excessive_range_violations(&[rv(0, 10), rv(1, 10)]));
}

#[test]
fn gear_range_check() {
    assert_eq!(check_gear_range(&[Some(1), Some(3), None, Some(-1), Some(8)]), None);
    assert_eq!(
        check_gear_range(&[Some(2), Some(9), None, Some(-3)]),
        Some(GearRangeViolation {
            out_of_range_count: 2,
            min_seen: -3,
            max_seen: 9
        })
    );
    assert_eq!(check_gear_range(&[]), None);
}

#[test]
fn integrity_status_worst_wins() {
    assert_eq!(integrity_status(Some(false), true, true, true), STATUS_CHECKSUM_FAILED);
    assert_eq!(integrity_status(Some(true), true, true, true), STATUS_NOT_VALIDATED);
    assert_eq!(integrity_status(None, false, true, true), STATUS_RANGE_VIOLATION);
    assert_eq!(integrity_status(Some(true), false, false, true), STATUS_DISTANCE_ANOMALY);
    assert_eq!(integrity_status(None, false, false, false), STATUS_VALID);
    assert_eq!(STATUS_VALID, "valid");
}

#[test]
fn checksum_of_known_content() {
    assert_eq!(
        compute_checksum(b"abc"),
        "ba7816bf8f01cfea414140de5dae2223b00361a396177a9cb410ff61f20015ad"
    );
    assert_eq!(
        compute_checksum(b""),
        "e3b0c44298fc1c149afbf4c8996fb92427ae41e4649b934ca495991b7852b855"
    );
    assert!(validate_checksum(
        b"abc",
        "ba7816bf8f01cfea414140de5dae2223b00361a396177a9cb410ff61f20015ad"
    ));
    assert!(!validate_checksum(b"abd", "ba7816bf8f01cfea414140de5dae2223b00361a396177a9cb410ff61f20015ad"));
}

#[test]
fn checksum_with_details_reports_actual() {
    let (ok, actual) = validate_checksum_with_details(b"abc", "deadbeef", "s1");
    assert!(!ok);
    assert_eq!(
        actual,
        "ba7816bf8f01cfea414140de5dae2223b00361a396177a9cb410ff61f20015ad"
    );
    let (ok, _) = validate_checksum_with_details(b"abc", &actual, "s1");
    assert!(ok);
}
