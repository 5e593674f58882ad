//! Trail braking: the part of a brake application after the turn-in, where
//! the lateral load and the steering both exceed their thresholds. This
//! module finds the turn-in and the braking samples after it; their average
//! pressure and the distance covered are left to floating-point arithmetic.
//! Distances, pressures, loads and angles are given by their bits.

use vstd::prelude::*;
use crate::brake_counter::BrakeApplication;
use crate::float_bits::{f64_lt, f64_le, f64_abs, f64_bits_lt, f64_bits_le, f64_bits_abs};

verus! {

/// Bits of 0.05: a trail-braking sample has the brake above this.
pub const TRAIL_BRAKE_BITS: u64 = 0x3fa999999999999a;

/// A telemetry sample with lateral load and steering.
#[derive(Debug, Clone, Copy, PartialEq, Eq, Structural)]
pub struct TelemetrySampleExtended {
    pub distance: u64,
    pub brake: u64,
    pub timestamp_ms: u64,
    pub lat_g: u64,
    pub steering: u64,
}

/// A sample lies between the application's start and release distances.
pub open spec fn in_application(s: TelemetrySampleExtended, app: BrakeApplication) -> bool {
    f64_le(app.start_distance, s.distance) && f64_le(s.distance, app.release_distance)
}

/// A sample is a turn-in: within the application, with both the absolute
/// lateral load and the absolute steering above their thresholds.
pub open spec fn is_turn_in(
    s: TelemetrySampleExtended,
    app: BrakeApplication,
    lat_g_threshold: u64,
    steering_threshold: u64,
) -> bool {
    in_application(s, app) && f64_lt(lat_g_threshold, f64_abs(s.lat_g)) && f64_lt(
        steering_threshold,
        f64_abs(s.steering),
    )
}

/// The first turn-in at or after `from`.
pub open spec fn first_turn_in(
    t: Seq<TelemetrySampleExtended>,
    app: BrakeApplication,
    lat_g_threshold: u64,
    steering_threshold: u64,
    from: int,
) -> Option<int>
    decreases t.len() - from,
{
    if from < 0 || from >= t.len() {
        None
    } else if is_turn_in(t[from], app, lat_g_threshold, steering_threshold) {
        Some(from)
    } else {
        first_turn_in(t, app, lat_g_threshold, steering_threshold, from + 1)
    }
}

/// Scanning `t[lo..hi]`: the indices of the braking samples (up to the
/// release distance, brake above 0.05) and whether a sample past the
/// release distance ended the scan.
pub open spec fn trail_scan(t: Seq<TelemetrySampleExtended>, app: BrakeApplication, lo: int, hi: int) -> (
    Seq<usize>,
    bool,
)
    decreases hi - lo,
{
    if hi <= lo {
        (Seq::empty(), false)
    } else {
        let (included, stopped) = trail_scan(t, app, lo, hi - 1);
        let s = t[hi - 1];
        if stopped {
            (included, true)
        } else if f64_le(s.distance, app.release_distance) && f64_lt(TRAIL_BRAKE_BITS, s.brake) {
            (included.push((hi - 1) as usize), false)
        } else if f64_lt(app.release_distance, s.distance) {
            (included, true)
        } else {
            (included, false)
        }
    }
}

/// The trail-braking part of an application.
#[derive(Debug, Clone)]
pub struct TrailBrakingSpan {
    /// Index of the turn-in sample.
    pub turn_in_idx: usize,
    /// Indices of the braking samples from the turn-in on, in order; the
    /// last one ends the trail.
    pub braking_indices: Vec<usize>,
    /// Time from the turn-in to the last braking sample, zero if the clock went backwards.
    pub trail_duration_ms: u64,
}

/// The content of a trail-braking span.
pub ghost struct TrailBrakingSpanView {
    pub turn_in_idx: usize,
    pub braking_indices: Seq<usize>,
    pub trail_duration_ms: u64,
}

impl View for TrailBrakingSpan {
    type V = TrailBrakingSpanView;

    open spec fn view(&self) -> TrailBrakingSpanView {
        TrailBrakingSpanView {
            turn_in_idx: self.turn_in_idx,
            braking_indices: self.braking_indices@,
            trail_duration_ms: self.trail_duration_ms,
        }
    }
}

/// The trail-braking span of an application: none without a turn-in or
/// without a braking sample from it on.
pub open spec fn trail_braking(
    t: Seq<TelemetrySampleExtended>,
    app: BrakeApplication,
    lat_g_threshold: u64,
    steering_threshold: u64,
) -> Option<TrailBrakingSpanView> {
    match first_turn_in(t, app, lat_g_threshold, steering_threshold, 0) {
        None => None,
        Some(ti) => {
            let included = trail_scan(t, app, ti, t.len() as int).0;
            if included.len() == 0 {
                None
            } else {
                let start = t[ti].timestamp_ms;
                let end = t[included.last() as int].timestamp_ms;
                Some(
                    TrailBrakingSpanView {
                        turn_in_idx: ti as usize,
                        braking_indices: included,
                        trail_duration_ms: if end >= start {
                            (end - start) as u64
                        } else {
                            0
                        },
                    },
                )
            }
        },
    }
}

/// The indices a scan collects lie in the scanned range.
proof fn lemma_trail_scan_bounds(t: Seq<TelemetrySampleExtended>, app: BrakeApplication, lo: int, hi: int)
    requires
        0 <= lo,
        hi <= usize::MAX + 1,
    ensures
        forall|k: int|
            0 <= k < trail_scan(t, app, lo, hi).0.len() ==> lo <= #[trigger] trail_scan(
                t,
                app,
                lo,
                hi,
            ).0[k] < hi,
    decreases hi - lo,
{
    if hi > lo {
        lemma_trail_scan_bounds(t, app, lo, hi - 1);
        let prior = trail_scan(t, app, lo, hi - 1).0;
        let now = trail_scan(t, app, lo, hi).0;
        assert forall|k: int| 0 <= k < now.len() implies lo <= #[trigger] now[k] < hi by {
            if k < prior.len() {
                assert(now[k] == prior[k]);
            } else {
                assert(now[k] == (hi - 1) as usize);
            }
        }
    }
}

/// Finds the trail-braking part of a brake application in a lap's samples.
pub fn analyze_trail_braking(
    brake_application: &BrakeApplication,
    lap_telemetry: &[TelemetrySampleExtended],
    lat_g_threshold: u64,
    steering_threshold: u64,
) -> (r: Option<TrailBrakingSpan>)
    ensures
        match r {
            Some(span) => trail_braking(
                lap_telemetry@,
                *brake_application,
                lat_g_threshold,
                steering_threshold,
            ) == Some(span@),
            None => trail_braking(
                lap_telemetry@,
                *brake_application,
                lat_g_threshold,
                steering_threshold,
            ) is None,
        },
{
    let ghost t = lap_telemetry@;
    let ghost app = *brake_application;
    let mut i: usize = 0;
    let mut turn_in: Option<usize> = None;
    while i < lap_telemetry.len()
        invariant_except_break
            turn_in is None,
        invariant
            0 <= i <= t.len(),
            t == lap_telemetry@,
            app == *brake_application,
            first_turn_in(t, app, lat_g_threshold, steering_threshold, 0) == first_turn_in(
                t,
                app,
                lat_g_threshold,
                steering_threshold,
                i as int,
            ),
        ensures
            match turn_in {
                Some(ti) => ti < t.len() && first_turn_in(
                    t,
                    app,
                    lat_g_threshold,
                    steering_threshold,
                    0,
                ) == Some(ti as int),
                None => first_turn_in(t, app, lat_g_threshold, steering_threshold, 0) is None,
            },
        decreases lap_telemetry.len() - i,
    {
        let s = lap_telemetry[i];
        if f64_bits_le(brake_application.start_distance, s.distance) && f64_bits_le(
            s.distance,
            brake_application.release_distance,
        ) && f64_bits_lt(lat_g_threshold, f64_bits_abs(s.lat_g)) && f64_bits_lt(
            steering_threshold,
            f64_bits_abs(s.steering),
        ) {
            turn_in = Some(i);
            break;
        }
        i = i + 1;
    }
    let ti = match turn_in {
        Some(ti) => ti,
        None => {
            return None;
        },
    };
    let mut included: Vec<usize> = Vec::new();
    let mut stopped = false;
    let mut j: usize = ti;
    while j < lap_telemetry.len()
        invariant
            ti <= j <= t.len(),
            t == lap_telemetry@,
            app == *brake_application,
            (included@, stopped) == trail_scan(t, app, ti as int, j as int),
        decreases lap_telemetry.len() - j,
    {
        if !stopped {
            let s = lap_telemetry[j];
            if f64_bits_le(s.distance, brake_application.release_distance) && f64_bits_lt(
                TRAIL_BRAKE_BITS,
                s.brake,
            ) {
                included.push(j);
            } else if f64_bits_lt(brake_application.release_distance, s.distance) {
                stopped = true;
            }
        }
        j = j + 1;
    }
    if included.len() == 0 {
        return None;
    }
    proof {
        lemma_trail_scan_bounds(t, app, ti as int, t.len() as int);
        assert(included@.last() == included@[included@.len() - 1]);
    }
    let end = included[included.len() - 1];
    let start_ms = lap_telemetry[ti].timestamp_ms;
    let end_ms = lap_telemetry[end].timestamp_ms;
    Some(
        TrailBrakingSpan {
            turn_in_idx: ti,
            braking_indices: included,
            trail_duration_ms: end_ms.saturating_sub(start_ms),
        },
    )
}

} // verus!
