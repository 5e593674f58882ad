//! Brake application counting: a brake application is a stretch of samples
//! with the brake above a threshold on at least two consecutive samples.
//! Distances and pressures are double-precision values given by their bits.

use vstd::prelude::*;
use crate::float_bits::{f64_lt, f64_bits_lt};
use crate::flag_runs::{debounced_runs, long_runs, runs, runs_are_maximal, lemma_runs_maximal};

verus! {

/// A telemetry sample as brake counting reads it.
#[derive(Debug, Clone, Copy, PartialEq, Eq, Structural)]
pub struct TelemetrySample {
    /// Bits of the lap distance (metres).
    pub distance: u64,
    /// Bits of the brake pressure (0 to 1).
    pub brake: u64,
    pub timestamp_ms: u64,
}

/// One brake application.
#[derive(Debug, Clone, Copy, PartialEq, Eq, Structural)]
pub struct BrakeApplication {
    /// Bits of the distance of the first sample above the threshold.
    pub start_distance: u64,
    /// Bits of the largest pressure during the application.
    pub peak_pressure: u64,
    /// Time from the first to the last sample above the threshold, zero if
    /// the clock went backwards.
    pub duration_ms: u64,
    /// Bits of the distance of the first sample after the application, or of
    /// the last sample when the lap ends while braking.
    pub release_distance: u64,
}

/// For each sample, whether its brake pressure lies above the threshold.
pub open spec fn above_threshold(samples: Seq<TelemetrySample>, threshold: u64) -> Seq<bool> {
    Seq::new(samples.len(), |i: int| f64_lt(threshold, samples[i].brake))
}

/// The largest pressure among `samples[lo..hi]`, as `>` finds it scanning
/// forward from `samples[lo]`.
pub open spec fn peak_from(samples: Seq<TelemetrySample>, lo: int, hi: int) -> u64
    decreases hi - lo,
{
    if hi <= lo + 1 {
        samples[lo].brake
    } else {
        let p = peak_from(samples, lo, hi - 1);
        if f64_lt(p, samples[hi - 1].brake) {
            samples[hi - 1].brake
        } else {
            p
        }
    }
}

/// The application that the run of samples `run.0 .. run.1` above the threshold makes.
pub open spec fn application_of(samples: Seq<TelemetrySample>, run: (int, int)) -> BrakeApplication {
    let start = samples[run.0];
    let last = samples[run.1 - 1];
    BrakeApplication {
        start_distance: start.distance,
        peak_pressure: peak_from(samples, run.0, run.1),
        duration_ms: if last.timestamp_ms >= start.timestamp_ms {
            (last.timestamp_ms - start.timestamp_ms) as u64
        } else {
            0
        },
        release_distance: if run.1 < samples.len() {
            samples[run.1].distance
        } else {
            samples.last().distance
        },
    }
}

/// The brake applications of a lap, in order: one per run of at least two
/// consecutive samples above the threshold; none for fewer than two samples.
pub open spec fn brake_applications(samples: Seq<TelemetrySample>, threshold: u64) -> Seq<
    BrakeApplication,
> {
    if samples.len() < 2 {
        Seq::empty()
    } else {
        long_runs(above_threshold(samples, threshold), 2).map_values(
            |run: (int, int)| application_of(samples, run),
        )
    }
}

/// A run kept by the debounce lies within the flags and is at least
/// `min_len` long.
proof fn lemma_long_run_bounds(f: Seq<bool>, min_len: int, k: int)
    requires
        0 <= k < long_runs(f, min_len).len(),
    ensures
        0 <= long_runs(f, min_len)[k].0,
        long_runs(f, min_len)[k].0 + min_len <= long_runs(f, min_len)[k].1,
        long_runs(f, min_len)[k].0 < long_runs(f, min_len)[k].1 <= f.len(),
{
    let pred = |run: (int, int)| run.1 - run.0 >= min_len;
    let rs = runs(f);
    let run = rs.filter(pred)[k];
    rs.lemma_filter_pred(pred, k);
    assert(rs.filter(pred).contains(run));
    rs.lemma_filter_contains_rev(pred, run);
    lemma_runs_maximal(f, f.len());
    assert(runs_are_maximal(f, f.len() as int, rs));
    let j = choose|j: int| 0 <= j < rs.len() && rs[j] == run;
    assert(0 <= rs[j].0 < rs[j].1 <= f.len());
}

/// The largest pressure among `samples[lo..hi]`; see [`peak_from`].
fn peak_pressure(samples: &[TelemetrySample], lo: usize, hi: usize) -> (r: u64)
    requires
        lo < hi <= samples@.len(),
    ensures
        r == peak_from(samples@, lo as int, hi as int),
{
    let mut p = samples[lo].brake;
    let mut i = lo + 1;
    while i < hi
        invariant
            lo < i <= hi <= samples@.len(),
            p == peak_from(samples@, lo as int, i as int),
        decreases hi - i,
    {
        let x = samples[i].brake;
        if f64_bits_lt(p, x) {
            p = x;
        }
        i = i + 1;
    }
    p
}

/// Counts the brake applications in a lap's time-ordered samples: the brake
/// must stay above `threshold` for at least two consecutive samples.
pub fn count_brake_applications(lap_telemetry: &[TelemetrySample], threshold: u64) -> (r: Vec<
    BrakeApplication,
>)
    ensures
        r@ == brake_applications(lap_telemetry@, threshold),
{
    let mut apps: Vec<BrakeApplication> = Vec::new();
    if lap_telemetry.len() < 2 {
        assert(apps@ =~= brake_applications(lap_telemetry@, threshold));
        return apps;
    }
    let ghost samples = lap_telemetry@;
    let mut above: Vec<bool> = Vec::new();
    let mut i: usize = 0;
    while i < lap_telemetry.len()
        invariant
            0 <= i <= lap_telemetry@.len(),
            samples == lap_telemetry@,
            above@.len() == i,
            forall|j: int| 0 <= j < i ==> above@[j] == f64_lt(threshold, samples[j].brake),
        decreases lap_telemetry.len() - i,
    {
        above.push(f64_bits_lt(threshold, lap_telemetry[i].brake));
        i = i + 1;
    }
    assert(above@ =~= above_threshold(samples, threshold));
    let ghost lr = long_runs(above@, 2);
    let runs_found = debounced_runs(above.as_slice(), 2);
    let mut k: usize = 0;
    while k < runs_found.len()
        invariant
            0 <= k <= runs_found@.len(),
            samples == lap_telemetry@,
            samples.len() >= 2,
            above@ == above_threshold(samples, threshold),
            lr == long_runs(above@, 2),
            runs_found@.len() == lr.len(),
            forall|m: int|
                0 <= m < runs_found@.len() ==> (#[trigger] runs_found@[m]).0 as int == lr[m].0
                    && runs_found@[m].1 as int == lr[m].1,
            apps@.len() == k,
            forall|m: int| 0 <= m < k ==> apps@[m] == application_of(samples, #[trigger] lr[m]),
        decreases runs_found.len() - k,
    {
        let (start, end) = runs_found[k];
        proof {
            lemma_long_run_bounds(above@, 2, k as int);
        }
        let first = lap_telemetry[start];
        let last = lap_telemetry[end - 1];
        let peak = peak_pressure(lap_telemetry, start, end);
        let release = if end < lap_telemetry.len() {
            lap_telemetry[end].distance
        } else {
            lap_telemetry[lap_telemetry.len() - 1].distance
        };
        let app = BrakeApplication {
            start_distance: first.distance,
            peak_pressure: peak,
            duration_ms: last.timestamp_ms.saturating_sub(first.timestamp_ms),
            release_distance: release,
        };
        assert(app == application_of(samples, lr[k as int]));
        apps.push(app);
        k = k + 1;
    }
    assert(apps@ =~= brake_applications(lap_telemetry@, threshold));
    apps
}

} // verus!
