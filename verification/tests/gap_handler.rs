use pitwall::capture_error::{GapMarker, GapReason};
use pitwall::gap_handler::{classify_gap_reason, GapDetectionConfig, GapHandler};

#[test]
fn test_gap_handler_creation() {
    let handler = GapHandler::new();
    assert_eq!(handler.gap_count(), 0);
    assert_eq!(handler.total_gap_duration_ms(), 0);
}

#[test]
fn test_gap_handler_with_custom_config() {
    let config = GapDetectionConfig { threshold_ms: 200 };
    let handler = GapHandler::with_config(config);
    assert_eq!(handler.threshold_ms(), 200);
}

#[test]
fn test_no_gap_on_first_sample() {
    let mut handler = GapHandler::new();
    let gap = handler.check_gap(1000, None);
    assert!(gap.is_none());
    assert_eq!(handler.gap_count(), 0);
}

#[test]
fn test_no_gap_within_threshold() {
    let mut handler = GapHandler::new();
    handler.check_gap(1000, None);
    let gap = handler.check_gap(1050, None);
    assert!(gap.is_none());
    assert_eq!(handler.gap_count(), 0);
}

#[test]
fn test_gap_detected_exceeds_threshold() {
    let mut handler = GapHandler::new();
    handler.check_gap(1000, None);
    let gap = handler.check_gap(1250, Some(1234.5f64.to_bits()));

    assert!(gap.is_some());
    let gap = gap.unwrap();
    assert_eq!(gap.start_time, 1000);
    assert_eq!(gap.end_time, 1250);
    assert_eq!(gap.duration_ms, 250);
    assert_eq!(gap.lap_position.map(f64::from_bits), Some(1234.5));
    assert_eq!(handler.gap_count(), 1);
}

#[test]
fn test_gap_classification_stall() {
    let mut handler = GapHandler::new();
    handler.check_gap(1000, None);
    let gap = handler.check_gap(1250, None);
    assert_eq!(gap.unwrap().reason, GapReason::Stall);
}

#[test]
fn test_gap_classification_disconnect() {
    let mut handler = GapHandler::new();
    handler.check_gap(1000, None);
    let gap = handler.check_gap(2000, None);
    assert_eq!(gap.unwrap().reason, GapReason::Disconnect);
}

#[test]
fn test_gap_classification_unknown() {
    let mut handler = GapHandler::new();
    handler.check_gap(1000, None);
    let gap = handler.check_gap(7000, None);
    assert_eq!(gap.unwrap().reason, GapReason::Unknown);
}

#[test]
fn test_multiple_gaps_tracked() {
    let mut handler = GapHandler::new();
    handler.check_gap(1000, None);
    handler.check_gap(1300, None);
    handler.check_gap(1350, None);
    handler.check_gap(1600, None);

    assert_eq!(handler.gap_count(), 2);
    let gaps = handler.gaps();
    assert_eq!(gaps[0].duration_ms, 300);
    assert_eq!(gaps[1].duration_ms, 250);
}

#[test]
fn test_total_gap_duration() {
    let mut handler = GapHandler::new();
    handler.check_gap(1000, None);
    handler.check_gap(1300, None);
    handler.check_gap(1350, None);
    handler.check_gap(1600, None);

    assert_eq!(handler.total_gap_duration_ms(), 550);
}

#[test]
fn test_significant_gap_count() {
    let mut handler = GapHandler::new();
    handler.check_gap(1000, None);
    handler.check_gap(1400, None);
    handler.check_gap(1450, None);
    handler.check_gap(2100, None);

    assert_eq!(handler.gap_count(), 2);
    assert_eq!(handler.significant_gap_count(), 1);
}

#[test]
fn gap_handler_test_manual_gap_recording() {
    let mut handler = GapHandler::new();
    let manual_gap = GapMarker::new(5000, 8000, GapReason::Disconnect, Some(999.9f64.to_bits()));
    handler.record_gap(manual_gap);

    assert_eq!(handler.gap_count(), 1);
    assert_eq!(handler.gaps()[0].duration_ms, 3000);
    assert_eq!(handler.gaps()[0].reason, GapReason::Disconnect);
}

#[test]
fn gap_handler_test_reset_clears_state() {
    let mut handler = GapHandler::new();
    handler.check_gap(1000, None);
    handler.check_gap(1300, None);
    assert_eq!(handler.gap_count(), 1);

    handler.reset();
    assert_eq!(handler.gap_count(), 0);
    assert_eq!(handler.total_gap_duration_ms(), 0);
    assert!(handler.last_sample_time().is_none());
}

#[test]
fn test_custom_threshold() {
    let config = GapDetectionConfig { threshold_ms: 200 };
    let mut handler = GapHandler::with_config(config);

    handler.check_gap(1000, None);
    let gap1 = handler.check_gap(1150, None);
    assert!(gap1.is_none());

    let gap2 = handler.check_gap(1400, None);
    assert!(gap2.is_some());
}

#[test]
fn default_threshold_is_one_hundred_ms() {
    let handler = GapHandler::new();
    assert_eq!(handler.threshold_ms(), 100);
    assert_eq!(GapDetectionConfig::default().threshold_ms, 100);
}

#[test]
fn gap_exactly_at_threshold_is_not_a_gap() {
    let mut handler = GapHandler::new();
    handler.check_gap(1000, None);
    assert!(handler.check_gap(1100, None).is_none());
    assert!(handler.check_gap(1201, None).is_some());
}

#[test]
fn classification_boundaries() {
    assert_eq!(classify_gap_reason(0), GapReason::Unknown);
    assert_eq!(classify_gap_reason(99), GapReason::Unknown);
    assert_eq!(classify_gap_reason(100), GapReason::Stall);
    assert_eq!(classify_gap_reason(500), GapReason::Stall);
    assert_eq!(classify_gap_reason(501), GapReason::Disconnect);
    assert_eq!(classify_gap_reason(5000), GapReason::Disconnect);
    assert_eq!(classify_gap_reason(5001), GapReason::Unknown);
}

#[test]
fn backwards_time_is_not_a_gap() {
    let mut handler = GapHandler::new();
    handler.check_gap(5000, None);
    assert!(handler.check_gap(1000, None).is_none());
    assert_eq!(handler.last_sample_time(), Some(1000));
}
