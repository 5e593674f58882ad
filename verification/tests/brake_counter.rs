use pitwall::brake_counter::{count_brake_applications, BrakeApplication, TelemetrySample};
use pitwall::derived_types::{classify_degradation_severity, DegradationSeverity};

fn create_sample(distance: f64, brake: f64, timestamp_ms: u64) -> TelemetrySample {
    TelemetrySample { distance: distance.to_bits(), brake: brake.to_bits(), timestamp_ms }
}

fn count(telemetry: &[TelemetrySample], threshold: f64) -> Vec<BrakeApplication> {
    count_brake_applications(telemetry, threshold.to_bits())
}

fn f(bits: u64) -> f64 {
    f64::from_bits(bits)
}

#[test]
fn test_no_brake_applications() {
    let telemetry = vec![
        create_sample(0.0, 0.0, 0),
        create_sample(10.0, 0.0, 100),
        create_sample(20.0, 0.0, 200),
    ];

    let apps = count(&telemetry, 0.05);
    assert_eq!(apps.len(), 0);
}

#[test]
fn test_single_brake_application() {
    let telemetry = vec![
        create_sample(0.0, 0.0, 0),
        create_sample(10.0, 0.1, 100), // brake starts
        create_sample(20.0, 0.8, 200), // peak
        create_sample(30.0, 0.5, 300),
        create_sample(40.0, 0.0, 400), // brake released
        create_sample(50.0, 0.0, 500),
    ];

    let apps = count(&telemetry, 0.05);
    assert_eq!(apps.len(), 1);

    let app = &apps[0];
    assert_eq!(f(app.start_distance), 10.0);
    assert_eq!(f(app.peak_pressure), 0.8);
    assert_eq!(app.duration_ms, 200); // 300ms - 100ms
    assert_eq!(f(app.release_distance), 40.0);
}

#[test]
fn test_debounce_filters_single_spike() {
    let telemetry = vec![
        create_sample(0.0, 0.0, 0),
        create_sample(10.0, 0.1, 100), // single spike
        create_sample(20.0, 0.0, 200),
        create_sample(30.0, 0.0, 300),
    ];

    let apps = count(&telemetry, 0.05);
    assert_eq!(apps.len(), 0, "Single-sample spike should be debounced");
}

#[test]
fn test_debounce_allows_two_consecutive_samples() {
    let telemetry = vec![
        create_sample(0.0, 0.0, 0),
        create_sample(10.0, 0.1, 100), // brake starts
        create_sample(20.0, 0.2, 200), // consecutive - passes debounce
        create_sample(30.0, 0.0, 300), // brake released
    ];

    let apps = count(&telemetry, 0.05);
    assert_eq!(apps.len(), 1, "Two consecutive samples should pass debounce");
}

#[test]
fn test_multiple_brake_applications() {
    let telemetry = vec![
        create_sample(0.0, 0.0, 0),
        create_sample(50.0, 0.7, 100), // brake 1 start
        create_sample(60.0, 0.8, 200),
        create_sample(70.0, 0.0, 300), // brake 1 end
        create_sample(100.0, 0.0, 400),
        create_sample(200.0, 0.6, 500), // brake 2 start
        create_sample(210.0, 0.9, 600),
        create_sample(220.0, 0.0, 700), // brake 2 end
    ];

    let apps = count(&telemetry, 0.05);
    assert_eq!(apps.len(), 2);

    assert_eq!(f(apps[0].start_distance), 50.0);
    assert_eq!(f(apps[0].peak_pressure), 0.8);

    assert_eq!(f(apps[1].start_distance), 200.0);
    assert_eq!(f(apps[1].peak_pressure), 0.9);
}

#[test]
fn test_brake_application_ending_at_lap_end() {
    let telemetry = vec![
        create_sample(0.0, 0.0, 0),
        create_sample(500.0, 0.7, 500), // brake starts
        create_sample(510.0, 0.8, 600), // still braking at end
    ];

    let apps = count(&telemetry, 0.05);
    assert_eq!(apps.len(), 1);

    let app = &apps[0];
    assert_eq!(f(app.start_distance), 500.0);
    assert_eq!(f(app.release_distance), 510.0);
}

#[test]
fn test_brake_application_creation() {
    let brake_app = BrakeApplication {
        start_distance: 100.0f64.to_bits(),
        peak_pressure: 0.85f64.to_bits(),
        duration_ms: 1500,
        release_distance: 120.0f64.to_bits(),
    };

    assert_eq!(f(brake_app.start_distance), 100.0);
    assert_eq!(f(brake_app.peak_pressure), 0.85);
    assert_eq!(brake_app.duration_ms, 1500);
    assert_eq!(f(brake_app.release_distance), 120.0);
}

#[test]
fn peak_covers_the_whole_application_and_clock_going_back_gives_zero() {
    let telemetry = vec![
        create_sample(10.0, 0.9, 500), // starts the application and is its peak
        create_sample(20.0, 0.3, 400),
        create_sample(30.0, 0.4, 300),
    ];
    let apps = count(&telemetry, 0.05);
    assert_eq!(apps.len(), 1);
    assert_eq!(f(apps[0].peak_pressure), 0.9);
    assert_eq!(apps[0].duration_ms, 0);
    assert_eq!(f(apps[0].release_distance), 30.0);
}

#[test]
fn brake_at_threshold_or_nan_is_not_braking() {
    let telemetry = vec![
        create_sample(0.0, 0.05, 0),
        create_sample(1.0, 0.05, 1),
        create_sample(2.0, f64::NAN, 2),
        create_sample(3.0, f64::NAN, 3),
    ];
    assert!(count(&telemetry, 0.05).is_empty());
    assert!(count(&[create_sample(0.0, 1.0, 0)], 0.05).is_empty());
}

#[test]
fn degradation_classes_by_temperature_delta() {
    let class = |d: f64| classify_degradation_severity(d.to_bits());
    assert_eq!(class(1.9), DegradationSeverity::Negligible);
    assert_eq!(class(-20.0), DegradationSeverity::Negligible);
    assert_eq!(class(2.0), DegradationSeverity::Mild);
    assert_eq!(class(4.99), DegradationSeverity::Mild);
    assert_eq!(class(5.0), DegradationSeverity::Moderate);
    assert_eq!(class(9.5), DegradationSeverity::Moderate);
    assert_eq!(class(10.0), DegradationSeverity::Severe);
    assert_eq!(class(f64::NAN), DegradationSeverity::Severe);
}
