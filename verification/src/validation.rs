//! Integrity validation of stored sessions: lap times, violation thresholds,
//! the gear channel's range, checksums and the overall status.

use vstd::prelude::*;
use crate::types::LapSummary;
use crate::text::{decimal, u64_to_decimal};
use crate::checksum::{compute_checksum, checksum_of};
use crate::text::str_eq;

verus! {

/// Status: the telemetry file does not match its checksum.
pub const STATUS_CHECKSUM_FAILED: &'static str = "checksum_failed";

/// Status: too many channel values lie outside their valid range.
pub const STATUS_RANGE_VIOLATION: &'static str = "range_violation";

/// Status: lap distance goes backwards too often within a lap.
pub const STATUS_DISTANCE_ANOMALY: &'static str = "distance_anomaly";

/// Status: all checks passed.
pub const STATUS_VALID: &'static str = "valid";

/// Status: the session has not been validated (or could not be).
pub const STATUS_NOT_VALIDATED: &'static str = "not_validated";

/// Maximum valid lap time: ten minutes in milliseconds.
pub const MAX_LAP_TIME_MS: i64 = 600_000;

/// A lap time validation violation.
#[derive(Debug, Clone, PartialEq)]
pub struct LapTimeViolation {
    pub lap_number: i32,
    pub lap_time_ms: i64,
    pub reason: String,
}

/// The content of a lap time violation.
pub struct LapTimeViolationView {
    pub lap_number: i32,
    pub lap_time_ms: i64,
    pub reason: Seq<char>,
}

impl View for LapTimeViolation {
    type V = LapTimeViolationView;

    open spec fn view(&self) -> LapTimeViolationView {
        LapTimeViolationView {
            lap_number: self.lap_number,
            lap_time_ms: self.lap_time_ms,
            reason: self.reason@,
        }
    }
}

/// The violation a lap's time makes, if any: a time of zero or less, or
/// one above ten minutes.
pub open spec fn lap_time_violation(lap: LapSummary) -> Option<LapTimeViolationView> {
    if lap.lap_time_ms <= 0 {
        Some(
            LapTimeViolationView {
                lap_number: lap.lap_number,
                lap_time_ms: lap.lap_time_ms,
                reason: "Lap time is zero or negative"@,
            },
        )
    } else if lap.lap_time_ms > MAX_LAP_TIME_MS {
        Some(
            LapTimeViolationView {
                lap_number: lap.lap_number,
                lap_time_ms: lap.lap_time_ms,
                reason: "Lap time exceeds "@ + decimal(MAX_LAP_TIME_MS as nat) + "ms (10 minutes)"@,
            },
        )
    } else {
        None
    }
}

/// The violations of a sequence of laps, in lap order.
pub open spec fn lap_time_violations(laps: Seq<LapSummary>) -> Seq<LapTimeViolationView>
    decreases laps.len(),
{
    if laps.len() == 0 {
        Seq::empty()
    } else {
        let prev = lap_time_violations(laps.drop_last());
        match lap_time_violation(laps.last()) {
            Some(v) => prev.push(v),
            None => prev,
        }
    }
}

/// Validates lap times: each must be positive and at most ten minutes.
pub fn validate_lap_times(laps: &[LapSummary]) -> (r: Vec<LapTimeViolation>)
    ensures
        r@.map_values(|v: LapTimeViolation| v@) == lap_time_violations(laps@),
{
    let mut violations: Vec<LapTimeViolation> = Vec::new();
    let mut i: usize = 0;
    while i < laps.len()
        invariant
            0 <= i <= laps@.len(),
            violations@.map_values(|v: LapTimeViolation| v@) == lap_time_violations(
                laps@.take(i as int),
            ),
        decreases laps.len() - i,
    {
        let lap = &laps[i];
        proof {
            assert(laps@.take(i + 1).drop_last() =~= laps@.take(i as int));
            assert(laps@.take(i + 1).last() == laps@[i as int]);
        }
        if lap.lap_time_ms <= 0 {
            violations.push(
                LapTimeViolation {
                    lap_number: lap.lap_number,
                    lap_time_ms: lap.lap_time_ms,
                    reason: "Lap time is zero or negative".to_owned(),
                },
            );
        } else if lap.lap_time_ms > MAX_LAP_TIME_MS {
            let mut reason = "Lap time exceeds ".to_owned();
            let n = u64_to_decimal(MAX_LAP_TIME_MS as u64);
            reason.append(n.as_str());
            reason.append("ms (10 minutes)");
            violations.push(
                LapTimeViolation {
                    lap_number: lap.lap_number,
                    lap_time_ms: lap.lap_time_ms,
                    reason,
                },
            );
        }
        proof {
            assert(violations@.map_values(|v: LapTimeViolation| v@) =~= lap_time_violations(
                laps@.take(i + 1),
            ));
        }
        i = i + 1;
    }
    proof {
        assert(laps@.take(laps@.len() as int) =~= laps@);
    }
    violations
}

/// Out-of-range summary of the gear channel.
#[derive(Debug, Clone, Copy, PartialEq, Eq, Structural)]
pub struct GearRangeViolation {
    pub out_of_range_count: usize,
    pub min_seen: i32,
    pub max_seen: i32,
}

/// A gear value is valid from reverse (-1) to eighth gear.
pub open spec fn gear_in_range(v: i32) -> bool {
    -1 <= v <= 8
}

/// Number of present gear values out of range.
pub open spec fn gear_out_of_range(values: Seq<Option<i32>>) -> nat
    decreases values.len(),
{
    if values.len() == 0 {
        0
    } else {
        gear_out_of_range(values.drop_last()) + match values.last() {
            Some(v) => if gear_in_range(v) {
                0nat
            } else {
                1nat
            },
            None => 0nat,
        }
    }
}

/// Smallest present gear value, starting from `i32::MAX`.
pub open spec fn gear_min(values: Seq<Option<i32>>) -> i32
    decreases values.len(),
{
    if values.len() == 0 {
        i32::MAX
    } else {
        let m = gear_min(values.drop_last());
        match values.last() {
            Some(v) => if v < m {
                v
            } else {
                m
            },
            None => m,
        }
    }
}

/// Largest present gear value, starting from `i32::MIN`.
pub open spec fn gear_max(values: Seq<Option<i32>>) -> i32
    decreases values.len(),
{
    if values.len() == 0 {
        i32::MIN
    } else {
        let m = gear_max(values.drop_last());
        match values.last() {
            Some(v) => if v > m {
                v
            } else {
                m
            },
            None => m,
        }
    }
}

/// Checks the gear channel (absent values skipped): reports how many values
/// lie outside reverse to eighth gear, with the smallest and largest values
/// seen, or `None` when all are in range.
pub fn check_gear_range(values: &[Option<i32>]) -> (r: Option<GearRangeViolation>)
    ensures
        gear_out_of_range(values@) == 0 ==> r is None,
        gear_out_of_range(values@) > 0 ==> r == Some(
            GearRangeViolation {
                out_of_range_count: gear_out_of_range(values@) as usize,
                min_seen: gear_min(values@),
                max_seen: gear_max(values@),
            },
        ),
{
    let mut out_of_range: usize = 0;
    let mut min_seen: i32 = i32::MAX;
    let mut max_seen: i32 = i32::MIN;
    let mut i: usize = 0;
    while i < values.len()
        invariant
            0 <= i <= values@.len(),
            out_of_range == gear_out_of_range(values@.take(i as int)),
            out_of_range <= i,
            min_seen == gear_min(values@.take(i as int)),
            max_seen == gear_max(values@.take(i as int)),
        decreases values.len() - i,
    {
        proof {
            assert(values@.take(i + 1).drop_last() =~= values@.take(i as int));
        }
        match values[i] {
            Some(v) => {
                if v < min_seen {
                    min_seen = v;
                }
                if v > max_seen {
                    max_seen = v;
                }
                if v < -1 || v > 8 {
                    out_of_range = out_of_range + 1;
                }
            },
            None => {},
        }
        i = i + 1;
    }
    proof {
        assert(values@.take(values@.len() as int) =~= values@);
    }
    if out_of_range > 0 {
        Some(GearRangeViolation { out_of_range_count: out_of_range, min_seen, max_seen })
    } else {
        None
    }
}

/// The overall integrity status; the worst finding wins: a checksum mismatch,
/// then telemetry that could not be read, then range violations, then lap
/// distance anomalies.
pub open spec fn integrity_status_spec(
    checksum_valid: Option<bool>,
    telemetry_read_failed: bool,
    excessive_range: bool,
    excessive_distance: bool,
) -> Seq<char> {
    if checksum_valid == Some(false) {
        STATUS_CHECKSUM_FAILED@
    } else if telemetry_read_failed {
        STATUS_NOT_VALIDATED@
    } else if excessive_range {
        STATUS_RANGE_VIOLATION@
    } else if excessive_distance {
        STATUS_DISTANCE_ANOMALY@
    } else {
        STATUS_VALID@
    }
}

/// Determines the overall integrity status of a session from its findings.
pub fn integrity_status(
    checksum_valid: Option<bool>,
    telemetry_read_failed: bool,
    excessive_range: bool,
    excessive_distance: bool,
) -> (r: &'static str)
    ensures
        r@ == integrity_status_spec(
            checksum_valid,
            telemetry_read_failed,
            excessive_range,
            excessive_distance,
        ),
{
    if checksum_valid == Some(false) {
        STATUS_CHECKSUM_FAILED
    } else if telemetry_read_failed {
        STATUS_NOT_VALIDATED
    } else if excessive_range {
        STATUS_RANGE_VIOLATION
    } else if excessive_distance {
        STATUS_DISTANCE_ANOMALY
    } else {
        STATUS_VALID
    }
}

/// Validates a telemetry file's contents against its expected checksum and
/// returns whether they match, with the actual checksum.
pub fn validate_checksum_with_details(data: &[u8], expected_checksum: &str, session_id: &str) -> (r: (
    bool,
    String,
))
    ensures
        r.1@ == checksum_of(data@),
        r.0 == (checksum_of(data@) == expected_checksum@),
{
    let actual = compute_checksum(data);
    let is_valid = str_eq(actual.as_str(), expected_checksum);
    (is_valid, actual)
}

/// How far an integrity validation looks at a session's telemetry.
#[derive(Debug, Clone, Copy, PartialEq, Eq, Structural)]
pub enum IntegrityPlan {
    /// No telemetry to check: no path, no checksum, or no file at the path.
    LapsOnly,
    /// Check the file against its checksum; scan it only where it matches.
    ChecksumThenScan,
}

/// The telemetry is checked only when the session records both a path and a
/// checksum and the file exists.
pub open spec fn integrity_plan_spec(has_path: bool, has_checksum: bool, file_exists: bool) -> IntegrityPlan {
    if has_path && has_checksum && file_exists {
        IntegrityPlan::ChecksumThenScan
    } else {
        IntegrityPlan::LapsOnly
    }
}

/// Decides how far an integrity validation looks at a session's telemetry.
pub fn integrity_plan(has_path: bool, has_checksum: bool, file_exists: bool) -> (r: IntegrityPlan)
    ensures
        r == integrity_plan_spec(has_path, has_checksum, file_exists),
{
    if has_path && has_checksum && file_exists {
        IntegrityPlan::ChecksumThenScan
    } else {
        IntegrityPlan::LapsOnly
    }
}

} // verus!
