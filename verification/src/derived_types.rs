//! Kinds of derived metrics, tire degradation classes, and the grouping of
//! laps into stints.

use vstd::prelude::*;
use crate::float_bits::{f64_lt, f64_bits_lt};

verus! {

/// The kinds of derived metrics that are stored per session.
#[derive(Debug, Clone, Copy, PartialEq, Eq, Structural)]
pub enum MetricType {
    BrakeCount,
    TrailBraking,
    TireDegradation,
    CornerSegmentation,
}

impl MetricType {
    /// The stored name of a metric kind, in snake case.
    pub open spec fn name_spec(&self) -> Seq<char> {
        match self {
            MetricType::BrakeCount => "brake_count"@,
            MetricType::TrailBraking => "trail_braking"@,
            MetricType::TireDegradation => "tire_degradation"@,
            MetricType::CornerSegmentation => "corner_segmentation"@,
        }
    }

    /// The stored name of a metric kind, in snake case.
    pub fn as_str(&self) -> (r: &'static str)
        ensures
            r@ == self.name_spec(),
    {
        match self {
            MetricType::BrakeCount => "brake_count",
            MetricType::TrailBraking => "trail_braking",
            MetricType::TireDegradation => "tire_degradation",
            MetricType::CornerSegmentation => "corner_segmentation",
        }
    }
}

/// Tire degradation severity classes.
#[derive(Debug, Clone, Copy, PartialEq, Eq, Structural)]
pub enum DegradationSeverity {
    /// Temperature delta < 2°C (no degradation).
    Negligible,
    /// Temperature delta 2-5°C.
    Mild,
    /// Temperature delta 5-10°C.
    Moderate,
    /// Temperature delta > 10°C.
    Severe,
}

/// Bits of 2.0 (°C): below this delta there is no degradation.
pub const MILD_DELTA_BITS: u64 = 0x4000000000000000;

/// Bits of 5.0 (°C): below this delta degradation is mild.
pub const MODERATE_DELTA_BITS: u64 = 0x4014000000000000;

/// Bits of 10.0 (°C): below this delta degradation is moderate.
pub const SEVERE_DELTA_BITS: u64 = 0x4024000000000000;

/// The class of a tire temperature delta; a NaN delta is below no bound and
/// so counts as severe.
pub open spec fn severity_of(temp_delta_c: u64) -> DegradationSeverity {
    if f64_lt(temp_delta_c, MILD_DELTA_BITS) {
        DegradationSeverity::Negligible
    } else if f64_lt(temp_delta_c, MODERATE_DELTA_BITS) {
        DegradationSeverity::Mild
    } else if f64_lt(temp_delta_c, SEVERE_DELTA_BITS) {
        DegradationSeverity::Moderate
    } else {
        DegradationSeverity::Severe
    }
}

/// Classifies the degradation of a tire by its temperature delta (°C), given by its bits.
pub fn classify_degradation_severity(temp_delta_c: u64) -> (r: DegradationSeverity)
    ensures
        r == severity_of(temp_delta_c),
{
    if f64_bits_lt(temp_delta_c, MILD_DELTA_BITS) {
        DegradationSeverity::Negligible
    } else if f64_bits_lt(temp_delta_c, MODERATE_DELTA_BITS) {
        DegradationSeverity::Mild
    } else if f64_bits_lt(temp_delta_c, SEVERE_DELTA_BITS) {
        DegradationSeverity::Moderate
    } else {
        DegradationSeverity::Severe
    }
}

/// The stints of the first `n` laps, as ranges of lap positions: a new stint
/// starts where the lap number jumps by more than the threshold.
pub open spec fn stints_of(nums: Seq<i32>, threshold: i32, n: nat) -> Seq<(int, int)>
    decreases n,
{
    if n == 0 {
        Seq::empty()
    } else if n == 1 {
        seq![(0int, 1int)]
    } else {
        let prev = stints_of(nums, threshold, (n - 1) as nat);
        if nums[n - 1] - nums[n - 2] > threshold {
            prev.push(((n - 1) as int, n as int))
        } else {
            prev.update(prev.len() - 1, (prev.last().0, n as int))
        }
    }
}

/// The stints are consecutive ranges covering the first `n` laps: each
/// range is not empty, the first starts at the first lap, each starts where
/// the one before ends, and the last ends after lap `n`.
pub open spec fn stints_cover(s: Seq<(int, int)>, n: int) -> bool {
    &&& s.len() > 0
    &&& s[0].0 == 0
    &&& s.last().1 == n
    &&& forall|k: int| 0 <= k < s.len() ==> #[trigger] s[k].0 < s[k].1
    &&& forall|k: int| 0 <= k < s.len() - 1 ==> #[trigger] s[k].1 == s[k + 1].0
}

/// Within a stint the lap numbers never jump by more than the threshold,
/// and between two stints they do.
pub open spec fn stints_split_at_gaps(s: Seq<(int, int)>, nums: Seq<i32>, threshold: i32) -> bool {
    &&& forall|k: int, j: int|
        0 <= k < s.len() && s[k].0 < j < s[k].1 ==> #[trigger] nums[j] - nums[j - 1] <= threshold
            && #[trigger] s[k].1 > 0
    &&& forall|k: int| 1 <= k < s.len() ==> nums[#[trigger] s[k].0] - nums[s[k].0 - 1] > threshold
}

/// The stints partition the laps in order, split exactly at the gaps.
pub proof fn lemma_stints_partition(nums: Seq<i32>, threshold: i32, n: nat)
    requires
        1 <= n <= nums.len(),
    ensures
        stints_cover(stints_of(nums, threshold, n), n as int),
        stints_split_at_gaps(stints_of(nums, threshold, n), nums, threshold),
    decreases n,
{
    if n > 1 {
        lemma_stints_partition(nums, threshold, (n - 1) as nat);
        let prev = stints_of(nums, threshold, (n - 1) as nat);
        let cur = stints_of(nums, threshold, n);
        if nums[n - 1] - nums[n - 2] > threshold {
            assert(cur == prev.push(((n - 1) as int, n as int)));
            assert forall|k: int, j: int|
                0 <= k < cur.len() && cur[k].0 < j < cur[k].1 implies #[trigger] nums[j] - nums[j
                    - 1] <= threshold && #[trigger] cur[k].1 > 0 by {
                if k < prev.len() {
                    assert(cur[k] == prev[k]);
                }
            }
            assert forall|k: int| 1 <= k < cur.len() implies nums[#[trigger] cur[k].0] - nums[cur[k].0
                - 1] > threshold by {
                if k < prev.len() {
                    assert(cur[k] == prev[k]);
                }
            }
        } else {
            let last = prev.len() - 1;
            assert(cur == prev.update(last, (prev.last().0, n as int)));
            assert forall|k: int, j: int|
                0 <= k < cur.len() && cur[k].0 < j < cur[k].1 implies #[trigger] nums[j] - nums[j
                    - 1] <= threshold && #[trigger] cur[k].1 > 0 by {
                if k < last {
                    assert(cur[k] == prev[k]);
                } else if j < n - 1 {
                    assert(prev[last].0 < j < prev[last].1);
                }
            }
            assert forall|k: int| 1 <= k < cur.len() implies nums[#[trigger] cur[k].0] - nums[cur[k].0
                - 1] > threshold by {
                assert(cur[k].0 == prev[k].0);
            }
            assert forall|k: int| 0 <= k < cur.len() - 1 implies #[trigger] cur[k].1 == cur[k + 1].0 by {
                assert(cur[k] == prev[k]);
                assert(cur[k + 1].0 == prev[k + 1].0);
            }
        }
    }
}

/// Groups consecutive laps into stints by their lap numbers, in order: a
/// stint ends where the next lap number is more than `gap_threshold` above
/// the last (a pit stop). Each stint is a range `start..end` of positions
/// in the given list.
pub fn stint_ranges(lap_numbers: &[i32], gap_threshold: i32) -> (r: Vec<(usize, usize)>)
    ensures
        r@.len() == stints_of(lap_numbers@, gap_threshold, lap_numbers@.len()).len(),
        forall|k: int|
            0 <= k < r@.len() ==> (#[trigger] r@[k]).0 as int == stints_of(
                lap_numbers@,
                gap_threshold,
                lap_numbers@.len(),
            )[k].0 && r@[k].1 as int == stints_of(lap_numbers@, gap_threshold, lap_numbers@.len())[k].1,
        lap_numbers@.len() > 0 ==> stints_cover(
            stints_of(lap_numbers@, gap_threshold, lap_numbers@.len()),
            lap_numbers@.len() as int,
        ) && stints_split_at_gaps(
            stints_of(lap_numbers@, gap_threshold, lap_numbers@.len()),
            lap_numbers@,
            gap_threshold,
        ),
        lap_numbers@.len() == 0 ==> r@.len() == 0,
{
    if lap_numbers.len() > 0 {
        proof {
            lemma_stints_partition(lap_numbers@, gap_threshold, lap_numbers@.len());
        }
    }
    let mut r: Vec<(usize, usize)> = Vec::new();
    if lap_numbers.len() == 0 {
        return r;
    }
    r.push((0, 1));
    let mut i: usize = 1;
    while i < lap_numbers.len()
        invariant
            1 <= i <= lap_numbers@.len(),
            r@.len() == stints_of(lap_numbers@, gap_threshold, i as nat).len(),
            r@.len() >= 1,
            forall|k: int|
                0 <= k < r@.len() ==> (#[trigger] r@[k]).0 as int == stints_of(
                    lap_numbers@,
                    gap_threshold,
                    i as nat,
                )[k].0 && r@[k].1 as int == stints_of(lap_numbers@, gap_threshold, i as nat)[k].1,
        decreases lap_numbers@.len() - i,
    {
        proof {
            lemma_stints_partition(lap_numbers@, gap_threshold, i as nat);
        }
        let gap: i64 = lap_numbers[i] as i64 - lap_numbers[i - 1] as i64;
        if gap > gap_threshold as i64 {
            r.push((i, i + 1));
        } else {
            let last = r.len() - 1;
            let start = r[last].0;
            r.set(last, (start, i + 1));
        }
        i = i + 1;
    }
    r
}

} // verus!
