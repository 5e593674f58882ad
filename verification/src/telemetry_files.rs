//! Names of telemetry files, the columns they hold, and the rows a
//! distance window selects.

use vstd::prelude::*;
use vstd::string::StringSliceAdditionalSpecFns;
use crate::float_bits::{f64_le, f64_bits_le};
use crate::checksum::{compute_checksum, checksum_of};
use std::path::PathBuf;

verus! {

/// The version of the telemetry file layout written by this library.
pub const SCHEMA_VERSION: &'static str = "1";

/// Extension of a finished telemetry file.
pub const PARQUET_SUFFIX: &'static str = ".parquet";

/// Extension of a telemetry file that is still being written.
pub const TEMP_SUFFIX: &'static str = ".parquet.tmp";

/// Names of the telemetry columns, in file order.
pub open spec fn channel_list() -> Seq<&'static str> {
    seq![
        "timestamp_ms",
        "session_time",
        "lap_distance",
        "lap_time",
        "speed",
        "throttle",
        "brake",
        "steering",
        "clutch",
        "gear",
        "rpm",
        "lat_g",
        "long_g",
        "yaw",
        "pitch",
        "roll",
        "velocity_x",
        "velocity_y",
        "velocity_z",
        "tire_temp_lf",
        "tire_temp_rf",
        "tire_temp_lr",
        "tire_temp_rr",
        "tire_pressure_lf",
        "tire_pressure_rf",
        "tire_pressure_lr",
        "tire_pressure_rr",
        "fuel_level",
        "fuel_usage",
        "oil_temp",
        "water_temp",
        "brake_bias",
        "abs_active",
        "tc_active",
        "track_position",
    ]
}

/// Names of the telemetry columns, in file order.
pub fn telemetry_channels() -> (r: Vec<&'static str>)
    ensures
        r@ == channel_list(),
{
    vec![
        "timestamp_ms",
        "session_time",
        "lap_distance",
        "lap_time",
        "speed",
        "throttle",
        "brake",
        "steering",
        "clutch",
        "gear",
        "rpm",
        "lat_g",
        "long_g",
        "yaw",
        "pitch",
        "roll",
        "velocity_x",
        "velocity_y",
        "velocity_z",
        "tire_temp_lf",
        "tire_temp_rf",
        "tire_temp_lr",
        "tire_temp_rr",
        "tire_pressure_lf",
        "tire_pressure_rf",
        "tire_pressure_lr",
        "tire_pressure_rr",
        "fuel_level",
        "fuel_usage",
        "oil_temp",
        "water_temp",
        "brake_bias",
        "abs_active",
        "tc_active",
        "track_position",
    ]
}

/// Name of a session's telemetry file: its id with the Parquet extension.
pub fn telemetry_file_name(session_id: &str) -> (r: String)
    ensures
        r@ == session_id@ + PARQUET_SUFFIX@,
{
    let mut s = session_id.to_owned();
    s.append(PARQUET_SUFFIX);
    s
}

/// Name of the file a session's telemetry is written to before it is moved
/// into place.
pub fn temp_file_name(session_id: &str) -> (r: String)
    ensures
        r@ == session_id@ + TEMP_SUFFIX@,
{
    let mut s = session_id.to_owned();
    s.append(TEMP_SUFFIX);
    s
}

/// The bytes end with the given suffix.
pub open spec fn ends_with_bytes(b: Seq<u8>, suffix: Seq<u8>) -> bool {
    b.len() >= suffix.len() && b.subrange(b.len() - suffix.len(), b.len() as int) == suffix
}

/// Whether the byte text ends with the suffix.
fn bytes_end_with(b: &[u8], suffix: &[u8]) -> (r: bool)
    ensures
        r == ends_with_bytes(b@, suffix@),
{
    if b.len() < suffix.len() {
        return false;
    }
    let start = b.len() - suffix.len();
    let mut i: usize = 0;
    while i < suffix.len()
        invariant
            start + suffix.len() == b.len(),
            0 <= i <= suffix.len(),
            forall|j: int| 0 <= j < i ==> b@[start + j] == suffix@[j],
        decreases suffix.len() - i,
    {
        if b[start + i] != suffix[i] {
            assert(b@.subrange(start as int, b.len() as int)[i as int] != suffix@[i as int]);
            return false;
        }
        i = i + 1;
    }
    assert(b@.subrange(start as int, b.len() as int) =~= suffix@);
    true
}

/// Whether a file in the telemetry directory is a temporary file left by an
/// interrupted write, which the start-up cleanup removes: its name ends with
/// `.parquet.tmp`.
pub fn is_orphaned_temp(file_name: &str) -> (r: bool)
    ensures
        r == ends_with_bytes(file_name.spec_bytes(), TEMP_SUFFIX.spec_bytes()),
{
    bytes_end_with(file_name.as_bytes(), TEMP_SUFFIX.as_bytes())
}

/// Whether a row lies in the window `start..=end` of lap distance; an
/// absent distance gives no answer, and the row is left out.
pub open spec fn in_window(distance: Option<u64>, start: u64, end: u64) -> Option<bool> {
    match distance {
        Some(d) => Some(f64_le(start, d) && f64_le(d, end)),
        None => None,
    }
}

/// The row filter of a distance window over the lap distances (bits) of a
/// file's rows.
pub fn distance_window_mask(lap_distances: &[Option<u64>], start_distance: u64, end_distance: u64) -> (r: Vec<
    Option<bool>,
>)
    ensures
        r@.len() == lap_distances@.len(),
        forall|i: int|
            0 <= i < r@.len() ==> #[trigger] r@[i] == in_window(
                lap_distances@[i],
                start_distance,
                end_distance,
            ),
{
    let mut mask: Vec<Option<bool>> = Vec::new();
    let mut i: usize = 0;
    while i < lap_distances.len()
        invariant
            0 <= i <= lap_distances@.len(),
            mask@.len() == i,
            forall|j: int|
                0 <= j < i ==> #[trigger] mask@[j] == in_window(
                    lap_distances@[j],
                    start_distance,
                    end_distance,
                ),
        decreases lap_distances.len() - i,
    {
        let m = match lap_distances[i] {
            Some(d) => Some(f64_bits_le(start_distance, d) && f64_bits_le(d, end_distance)),
            None => None,
        };
        mask.push(m);
        i = i + 1;
    }
    mask
}

/// `std::path::PathBuf`, carried through as an opaque value.
#[verifier::external_type_specification]
#[verifier::external_body]
pub struct ExPathBuf(PathBuf);

/// `Clone::clone` on `std::path::PathBuf`: a copy of the same path.
pub assume_specification[ <PathBuf as Clone>::clone ](p: &PathBuf) -> (r: PathBuf)
    ensures
        r == *p,
;

/// Result of a successful telemetry write.
#[derive(Debug, Clone)]
pub struct TelemetryWriteResult {
    pub path: PathBuf,
    pub size_bytes: u64,
    pub checksum: String,
    pub row_count: usize,
}

/// Describes a telemetry file that was written: where it is, its size and
/// checksum from its contents, and the number of rows it holds.
pub fn write_result(path: PathBuf, contents: &[u8], row_count: usize) -> (r: TelemetryWriteResult)
    requires
        contents@.len() <= u64::MAX,
    ensures
        r.path == path,
        r.size_bytes == contents@.len(),
        r.checksum@ == checksum_of(contents@),
        r.row_count == row_count,
{
    let checksum = compute_checksum(contents);
    TelemetryWriteResult { path, size_bytes: contents.len() as u64, checksum, row_count }
}

} // verus!
