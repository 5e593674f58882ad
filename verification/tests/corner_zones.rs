use pitwall::corner_zones::{
    count_brake_apps_in_corner, find_apex_distance, find_braking_zones, find_corner_exit,
    find_turning_zones, TelemetrySample, Zone,
};

fn create_sample(distance: f64, brake: f64, throttle: f64, lat_g: f64, speed: f64, timestamp_ms: u64) -> TelemetrySample {
    TelemetrySample {
        distance: distance.to_bits(),
        brake: brake.to_bits(),
        throttle: throttle.to_bits(),
        lat_g: lat_g.to_bits(),
        speed: speed.to_bits(),
        timestamp_ms,
    }
}

fn zone(start: f64, end: f64) -> Zone {
    Zone { start_distance: start.to_bits(), end_distance: end.to_bits() }
}

fn single_corner_lap() -> Vec<TelemetrySample> {
    vec![
        create_sample(0.0, 0.0, 1.0, 0.0, 150.0, 0),
        create_sample(50.0, 0.0, 1.0, 0.0, 155.0, 500),
        create_sample(80.0, 0.0, 1.0, 0.0, 158.0, 800),
        create_sample(100.0, 0.7, 0.2, 0.1, 140.0, 1000), // brake starts
        create_sample(110.0, 0.8, 0.1, 0.15, 130.0, 1100),
        create_sample(120.0, 0.8, 0.0, 0.2, 120.0, 1200),
        create_sample(130.0, 0.7, 0.0, 0.35, 100.0, 1350),
        create_sample(140.0, 0.6, 0.0, 0.5, 80.0, 1500), // turning + apex
        create_sample(150.0, 0.4, 0.1, 0.45, 85.0, 1650),
        create_sample(160.0, 0.3, 0.2, 0.4, 90.0, 1800),
        create_sample(170.0, 0.1, 0.5, 0.3, 100.0, 1950),
        create_sample(180.0, 0.0, 0.95, 0.2, 110.0, 2100), // full throttle
        create_sample(200.0, 0.0, 1.0, 0.0, 130.0, 2400),
    ]
}

#[test]
fn braking_and_turning_zones_of_a_corner() {
    let lap = single_corner_lap();
    assert_eq!(find_braking_zones(&lap, 0.05f64.to_bits()), vec![zone(100.0, 180.0)]);
    // 0.3 is not above 0.3, so the zone closes at 170 m.
    assert_eq!(find_turning_zones(&lap, 0.3f64.to_bits()), vec![zone(130.0, 170.0)]);
    assert!(find_braking_zones(&[], 0.05f64.to_bits()).is_empty());
}

#[test]
fn zones_open_at_the_end_and_negative_load() {
    let lap = vec![
        create_sample(0.0, 0.0, 1.0, -0.5, 100.0, 0),
        create_sample(10.0, 0.6, 0.0, -0.6, 90.0, 100),
        create_sample(20.0, f64::NAN, 0.0, 0.0, 80.0, 200),
        create_sample(30.0, 0.9, 0.0, 0.0, 70.0, 300),
    ];
    // NaN keeps the braking zone open; it runs to the last sample.
    assert_eq!(find_braking_zones(&lap, 0.05f64.to_bits()), vec![zone(10.0, 30.0)]);
    // The lateral load counts by its absolute value.
    assert_eq!(find_turning_zones(&lap, 0.3f64.to_bits()), vec![zone(0.0, 20.0)]);
}

#[test]
fn corner_exit_and_apex() {
    let lap = single_corner_lap();
    let exit = find_corner_exit(170.0f64.to_bits(), &lap, 0.9f64.to_bits());
    assert_eq!(f64::from_bits(exit), 180.0);
    let exit = find_corner_exit(190.0f64.to_bits(), &lap, 0.9f64.to_bits());
    assert_eq!(f64::from_bits(exit), 200.0);
    let none = find_corner_exit(500.0f64.to_bits(), &lap, 0.9f64.to_bits());
    assert_eq!(f64::from_bits(none), 500.0);
    let apex = find_apex_distance(&zone(130.0, 170.0), &lap);
    assert_eq!(f64::from_bits(apex), 140.0);
    let empty_zone = find_apex_distance(&zone(1000.0, 1100.0), &lap);
    assert_eq!(f64::from_bits(empty_zone), 1000.0);
}

#[test]
fn brake_applications_in_a_corner() {
    let samples = vec![
        create_sample(100.0, 0.7, 0.2, 0.1, 140.0, 1000),
        create_sample(120.0, 0.8, 0.0, 0.2, 120.0, 1200),
        create_sample(140.0, 0.6, 0.0, 0.5, 80.0, 1500),
        create_sample(160.0, 0.3, 0.2, 0.4, 90.0, 1800),
        create_sample(180.0, 0.0, 0.95, 0.2, 110.0, 2100),
    ];
    assert_eq!(count_brake_apps_in_corner(&samples, 0.05f64.to_bits()), 1);
    let pumped = vec![
        create_sample(0.0, 0.5, 0.0, 0.0, 0.0, 0),
        create_sample(1.0, 0.0, 0.0, 0.0, 0.0, 1),
        create_sample(2.0, 0.5, 0.0, 0.0, 0.0, 2),
        create_sample(3.0, f64::NAN, 0.0, 0.0, 0.0, 3),
        create_sample(4.0, 0.5, 0.0, 0.0, 0.0, 4),
    ];
    assert_eq!(count_brake_apps_in_corner(&pumped, 0.05f64.to_bits()), 2);
    assert_eq!(count_brake_apps_in_corner(&[], 0.05f64.to_bits()), 0);
}
