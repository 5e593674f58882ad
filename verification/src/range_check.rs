//! Range validation of the channels of a stored session. Each ranged
//! channel has a valid interval; every floating-point channel is also checked
//! for NaN and infinities, and the gear channel for reverse to eighth gear.
//! Floating-point values are given by their bits; absent samples are skipped.

use vstd::prelude::*;
use crate::float_bits::{
    f64_lt, f64_is_nan, f64_is_infinite, f64_bits_lt, f64_bits_is_nan, f64_bits_is_infinite,
    F64_INFINITY_BITS, F64_NEG_INFINITY_BITS,
};
use crate::text::str_eq;
use crate::validation::{check_gear_range, gear_out_of_range, gear_min, gear_max};

verus! {

/// Bits of 0.0.
pub const F64_ZERO: u64 = 0x0;

/// Bits of 1.0.
pub const F64_ONE: u64 = 0x3ff0000000000000;

/// Bits of 120.0.
pub const F64_120: u64 = 0x405e000000000000;

/// Bits of 6.28.
pub const F64_6_28: u64 = 0x40191eb851eb851f;

/// Bits of -6.28.
pub const F64_MINUS_6_28: u64 = 0xc0191eb851eb851f;

/// Bits of 20000.0.
pub const F64_20000: u64 = 0x40d3880000000000;

/// Bits of 10.0.
pub const F64_10: u64 = 0x4024000000000000;

/// Bits of -10.0.
pub const F64_MINUS_10: u64 = 0xc024000000000000;

/// Bits of 200.0.
pub const F64_200: u64 = 0x4069000000000000;

/// Bits of 250.0.
pub const F64_250: u64 = 0x406f400000000000;

/// Bits of 50.0.
pub const F64_50: u64 = 0x4049000000000000;

/// Bits of 350.0.
pub const F64_350: u64 = 0x4075e00000000000;

/// The valid interval of a channel, bounds included, as bits of its bounds.
#[derive(Debug, Clone, Copy, PartialEq, Eq, Structural)]
pub struct ChannelRange {
    pub min: u64,
    pub max: u64,
}

/// The ranged channels with their valid intervals.
pub open spec fn range_table() -> Seq<(&'static str, ChannelRange)> {
    seq![
        ("brake", ChannelRange { min: F64_ZERO, max: F64_ONE }),
        ("throttle", ChannelRange { min: F64_ZERO, max: F64_ONE }),
        ("clutch", ChannelRange { min: F64_ZERO, max: F64_ONE }),
        ("speed", ChannelRange { min: F64_ZERO, max: F64_120 }),
        ("steering", ChannelRange { min: F64_MINUS_6_28, max: F64_6_28 }),
        ("rpm", ChannelRange { min: F64_ZERO, max: F64_20000 }),
        ("lat_g", ChannelRange { min: F64_MINUS_10, max: F64_10 }),
        ("long_g", ChannelRange { min: F64_MINUS_10, max: F64_10 }),
        ("brake_bias", ChannelRange { min: F64_ZERO, max: F64_ONE }),
        ("track_position", ChannelRange { min: F64_ZERO, max: F64_ONE }),
        ("fuel_level", ChannelRange { min: F64_ZERO, max: F64_200 }),
        ("oil_temp", ChannelRange { min: F64_ZERO, max: F64_250 }),
        ("water_temp", ChannelRange { min: F64_ZERO, max: F64_250 }),
        ("tire_temp_lf", ChannelRange { min: F64_ZERO, max: F64_200 }),
        ("tire_temp_rf", ChannelRange { min: F64_ZERO, max: F64_200 }),
        ("tire_temp_lr", ChannelRange { min: F64_ZERO, max: F64_200 }),
        ("tire_temp_rr", ChannelRange { min: F64_ZERO, max: F64_200 }),
        ("tire_pressure_lf", ChannelRange { min: F64_50, max: F64_350 }),
        ("tire_pressure_rf", ChannelRange { min: F64_50, max: F64_350 }),
        ("tire_pressure_lr", ChannelRange { min: F64_50, max: F64_350 }),
        ("tire_pressure_rr", ChannelRange { min: F64_50, max: F64_350 })
    ]
}

/// The interval of the first entry with the given channel name.
pub open spec fn range_lookup(pairs: Seq<(&'static str, ChannelRange)>, key: Seq<char>) -> Option<
    ChannelRange,
>
    decreases pairs.len(),
{
    if pairs.len() == 0 {
        None
    } else if pairs[0].0@ == key {
        Some(pairs[0].1)
    } else {
        range_lookup(pairs.skip(1), key)
    }
}

/// The valid intervals of the ranged channels, by channel name.
#[derive(Debug, Clone)]
pub struct ChannelRanges {
    pairs: Vec<(&'static str, ChannelRange)>,
}

impl ChannelRanges {
    /// The entries, in table order.
    pub closed spec fn entries(&self) -> Seq<(&'static str, ChannelRange)> {
        self.pairs@
    }

    /// Returns the valid interval of a channel, if it has one.
    pub fn get(&self, key: &str) -> (r: Option<ChannelRange>)
        ensures
            r == range_lookup(self.entries(), key@),
    {
        let mut i: usize = 0;
        assert(self.pairs@.skip(0) =~= self.pairs@);
        while i < self.pairs.len()
            invariant
                0 <= i <= self.pairs@.len(),
                range_lookup(self.pairs@, key@) == range_lookup(self.pairs@.skip(i as int), key@),
            decreases self.pairs.len() - i,
        {
            if str_eq(self.pairs[i].0, key) {
                return Some(self.pairs[i].1);
            }
            proof {
                assert(self.pairs@.skip(i as int).skip(1) =~= self.pairs@.skip(i + 1));
            }
            i = i + 1;
        }
        None
    }

    /// Returns the number of ranged channels.
    pub fn len(&self) -> (r: usize)
        ensures
            r == self.entries().len(),
    {
        self.pairs.len()
    }
}

/// The valid intervals of the ranged channels.
pub fn channel_ranges() -> (r: ChannelRanges)
    ensures
        r.entries() == range_table(),
{
    let mut pairs: Vec<(&'static str, ChannelRange)> = Vec::new();
    pairs.push(("brake", ChannelRange { min: F64_ZERO, max: F64_ONE }));
    pairs.push(("throttle", ChannelRange { min: F64_ZERO, max: F64_ONE }));
    pairs.push(("clutch", ChannelRange { min: F64_ZERO, max: F64_ONE }));
    pairs.push(("speed", ChannelRange { min: F64_ZERO, max: F64_120 }));
    pairs.push(("steering", ChannelRange { min: F64_MINUS_6_28, max: F64_6_28 }));
    pairs.push(("rpm", ChannelRange { min: F64_ZERO, max: F64_20000 }));
    pairs.push(("lat_g", ChannelRange { min: F64_MINUS_10, max: F64_10 }));
    pairs.push(("long_g", ChannelRange { min: F64_MINUS_10, max: F64_10 }));
    pairs.push(("brake_bias", ChannelRange { min: F64_ZERO, max: F64_ONE }));
    pairs.push(("track_position", ChannelRange { min: F64_ZERO, max: F64_ONE }));
    pairs.push(("fuel_level", ChannelRange { min: F64_ZERO, max: F64_200 }));
    pairs.push(("oil_temp", ChannelRange { min: F64_ZERO, max: F64_250 }));
    pairs.push(("water_temp", ChannelRange { min: F64_ZERO, max: F64_250 }));
    pairs.push(("tire_temp_lf", ChannelRange { min: F64_ZERO, max: F64_200 }));
    pairs.push(("tire_temp_rf", ChannelRange { min: F64_ZERO, max: F64_200 }));
    pairs.push(("tire_temp_lr", ChannelRange { min: F64_ZERO, max: F64_200 }));
    pairs.push(("tire_temp_rr", ChannelRange { min: F64_ZERO, max: F64_200 }));
    pairs.push(("tire_pressure_lf", ChannelRange { min: F64_50, max: F64_350 }));
    pairs.push(("tire_pressure_rf", ChannelRange { min: F64_50, max: F64_350 }));
    pairs.push(("tire_pressure_lr", ChannelRange { min: F64_50, max: F64_350 }));
    pairs.push(("tire_pressure_rr", ChannelRange { min: F64_50, max: F64_350 }));
    assert(pairs@ =~= range_table());
    ChannelRanges { pairs }
}

/// A floating-point value is out of range: NaN, infinite, or outside the
/// channel's interval when it has one.
pub open spec fn float_out_of_range(x: u64, range: Option<ChannelRange>) -> bool {
    f64_is_nan(x) || f64_is_infinite(x) || match range {
        Some(r) => f64_lt(x, r.min) || f64_lt(r.max, x),
        None => false,
    }
}

/// Number of present values out of range.
pub open spec fn float_out_of_range_count(values: Seq<Option<u64>>, range: Option<ChannelRange>) -> nat
    decreases values.len(),
{
    if values.len() == 0 {
        0
    } else {
        float_out_of_range_count(values.drop_last(), range) + match values.last() {
            Some(x) => if float_out_of_range(x, range) {
                1nat
            } else {
                0nat
            },
            None => 0nat,
        }
    }
}

/// The smallest present value as `<` finds it, starting from positive infinity.
pub open spec fn float_min(values: Seq<Option<u64>>) -> u64
    decreases values.len(),
{
    if values.len() == 0 {
        F64_INFINITY_BITS
    } else {
        let m = float_min(values.drop_last());
        match values.last() {
            Some(x) => if f64_lt(x, m) {
                x
            } else {
                m
            },
            None => m,
        }
    }
}

/// The largest present value as `>` finds it, starting from negative infinity.
pub open spec fn float_max(values: Seq<Option<u64>>) -> u64
    decreases values.len(),
{
    if values.len() == 0 {
        F64_NEG_INFINITY_BITS
    } else {
        let m = float_max(values.drop_last());
        match values.last() {
            Some(x) => if f64_lt(m, x) {
                x
            } else {
                m
            },
            None => m,
        }
    }
}

/// Scans a floating-point channel: the number of values out of range, the
/// smallest and the largest value.
fn scan_float_channel(values: &[Option<u64>], range: Option<ChannelRange>) -> (r: (usize, u64, u64))
    ensures
        r.0 == float_out_of_range_count(values@, range),
        r.1 == float_min(values@),
        r.2 == float_max(values@),
{
    let mut out_of_range: usize = 0;
    let mut min_seen: u64 = F64_INFINITY_BITS;
    let mut max_seen: u64 = F64_NEG_INFINITY_BITS;
    let mut i: usize = 0;
    while i < values.len()
        invariant
            0 <= i <= values@.len(),
            out_of_range == float_out_of_range_count(values@.take(i as int), range),
            out_of_range <= i,
            min_seen == float_min(values@.take(i as int)),
            max_seen == float_max(values@.take(i as int)),
        decreases values.len() - i,
    {
        proof {
            assert(values@.take(i + 1).drop_last() =~= values@.take(i as int));
        }
        match values[i] {
            Some(x) => {
                if f64_bits_lt(x, min_seen) {
                    min_seen = x;
                }
                if f64_bits_lt(max_seen, x) {
                    max_seen = x;
                }
                let outside = match range {
                    Some(rg) => f64_bits_lt(x, rg.min) || f64_bits_lt(rg.max, x),
                    None => false,
                };
                if f64_bits_is_nan(x) || f64_bits_is_infinite(x) || outside {
                    out_of_range = out_of_range + 1;
                }
            },
            None => {},
        }
        i = i + 1;
    }
    proof {
        assert(values@.take(values@.len() as int) =~= values@);
    }
    (out_of_range, min_seen, max_seen)
}

/// A value of a channel as the channel stores it.
#[derive(Debug, Clone, Copy, PartialEq, Eq, Structural)]
pub enum ChannelValue {
    Int(i32),
    /// Bits of a double-precision value.
    Float(u64),
}

/// The samples of one column of a session's telemetry.
#[derive(Debug, Clone)]
pub enum ChannelData {
    /// Double-precision samples, by their bits.
    Float(Vec<Option<u64>>),
    /// 32-bit integer samples.
    Int(Vec<Option<i32>>),
    /// A column of another type, which the range check passes over.
    Other,
}

/// The content of a column's samples.
pub ghost enum ChannelDataView {
    Float(Seq<Option<u64>>),
    Int(Seq<Option<i32>>),
    Other,
}

impl View for ChannelData {
    type V = ChannelDataView;

    open spec fn view(&self) -> ChannelDataView {
        match self {
            ChannelData::Float(v) => ChannelDataView::Float(v@),
            ChannelData::Int(v) => ChannelDataView::Int(v@),
            ChannelData::Other => ChannelDataView::Other,
        }
    }
}

/// A named column of a session's telemetry.
#[derive(Debug, Clone)]
pub struct ChannelColumn {
    pub name: String,
    pub data: ChannelData,
}

/// The content of a named column.
pub ghost struct ChannelColumnView {
    pub name: Seq<char>,
    pub data: ChannelDataView,
}

impl View for ChannelColumn {
    type V = ChannelColumnView;

    open spec fn view(&self) -> ChannelColumnView {
        ChannelColumnView { name: self.name@, data: self.data@ }
    }
}

/// Out-of-range summary of one channel.
#[derive(Debug, Clone)]
pub struct RangeViolation {
    pub channel_name: String,
    pub out_of_range_count: usize,
    pub total_samples: usize,
    pub min_seen: ChannelValue,
    pub max_seen: ChannelValue,
}

/// The content of an out-of-range summary.
pub ghost struct RangeViolationView {
    pub channel_name: Seq<char>,
    pub out_of_range_count: usize,
    pub total_samples: usize,
    pub min_seen: ChannelValue,
    pub max_seen: ChannelValue,
}

impl View for RangeViolation {
    type V = RangeViolationView;

    open spec fn view(&self) -> RangeViolationView {
        RangeViolationView {
            channel_name: self.channel_name@,
            out_of_range_count: self.out_of_range_count,
            total_samples: self.total_samples,
            min_seen: self.min_seen,
            max_seen: self.max_seen,
        }
    }
}

/// The summary a column gives, if it has values out of range: the gear
/// column is checked as integers; any other double-precision column against
/// its interval, if any, and for NaN and infinities.
pub open spec fn channel_violation(col: ChannelColumnView, total_samples: usize) -> Option<
    RangeViolationView,
> {
    if col.name == "gear"@ {
        match col.data {
            ChannelDataView::Int(values) => if gear_out_of_range(values) > 0 {
                Some(
                    RangeViolationView {
                        channel_name: col.name,
                        out_of_range_count: gear_out_of_range(values) as usize,
                        total_samples,
                        min_seen: ChannelValue::Int(gear_min(values)),
                        max_seen: ChannelValue::Int(gear_max(values)),
                    },
                )
            } else {
                None
            },
            _ => None,
        }
    } else {
        match col.data {
            ChannelDataView::Float(values) => {
                let range = range_lookup(range_table(), col.name);
                if float_out_of_range_count(values, range) > 0 {
                    Some(
                        RangeViolationView {
                            channel_name: col.name,
                            out_of_range_count: float_out_of_range_count(values, range) as usize,
                            total_samples,
                            min_seen: ChannelValue::Float(float_min(values)),
                            max_seen: ChannelValue::Float(float_max(values)),
                        },
                    )
                } else {
                    None
                }
            },
            _ => None,
        }
    }
}

/// The summaries of the columns with values out of range, in column order.
pub open spec fn range_violations(cols: Seq<ChannelColumnView>, total_samples: usize) -> Seq<
    RangeViolationView,
>
    decreases cols.len(),
{
    if cols.len() == 0 {
        Seq::empty()
    } else {
        let prior = range_violations(cols.drop_last(), total_samples);
        match channel_violation(cols.last(), total_samples) {
            Some(v) => prior.push(v),
            None => prior,
        }
    }
}

/// Checks one column; see [`channel_violation`].
pub fn check_channel(
    ranges: &ChannelRanges,
    col: &ChannelColumn,
    total_samples: usize,
) -> (r: Option<RangeViolation>)
    requires
        ranges.entries() == range_table(),
    ensures
        match r {
            Some(v) => channel_violation(col@, total_samples) == Some(v@),
            None => channel_violation(col@, total_samples) is None,
        },
{
    if str_eq(col.name.as_str(), "gear") {
        match &col.data {
            ChannelData::Int(values) => match check_gear_range(values.as_slice()) {
                Some(g) => Some(
                    RangeViolation {
                        channel_name: col.name.as_str().to_owned(),
                        out_of_range_count: g.out_of_range_count,
                        total_samples,
                        min_seen: ChannelValue::Int(g.min_seen),
                        max_seen: ChannelValue::Int(g.max_seen),
                    },
                ),
                None => None,
            },
            _ => None,
        }
    } else {
        match &col.data {
            ChannelData::Float(values) => {
                let range = ranges.get(col.name.as_str());
                let (count, min_seen, max_seen) = scan_float_channel(values.as_slice(), range);
                if count > 0 {
                    Some(
                        RangeViolation {
                            channel_name: col.name.as_str().to_owned(),
                            out_of_range_count: count,
                            total_samples,
                            min_seen: ChannelValue::Float(min_seen),
                            max_seen: ChannelValue::Float(max_seen),
                        },
                    )
                } else {
                    None
                }
            },
            _ => None,
        }
    }
}

/// Validates every column of a session's telemetry against its range and
/// returns a summary for each column with values out of range, in column
/// order; none when the session has no samples.
pub fn validate_channel_ranges(columns: &[ChannelColumn], total_samples: usize) -> (r: Vec<
    RangeViolation,
>)
    ensures
        r@.map_values(|v: RangeViolation| v@) == (if total_samples == 0 {
            Seq::empty()
        } else {
            range_violations(columns@.map_values(|c: ChannelColumn| c@), total_samples)
        }),
{
    let mut violations: Vec<RangeViolation> = Vec::new();
    if total_samples == 0 {
        assert(violations@.map_values(|v: RangeViolation| v@) =~= Seq::empty());
        return violations;
    }
    let ranges = channel_ranges();
    let ghost cols = columns@.map_values(|c: ChannelColumn| c@);
    let mut i: usize = 0;
    while i < columns.len()
        invariant
            0 <= i <= columns@.len(),
            cols == columns@.map_values(|c: ChannelColumn| c@),
            ranges.entries() == range_table(),
            violations@.map_values(|v: RangeViolation| v@) == range_violations(
                cols.take(i as int),
                total_samples,
            ),
        decreases columns.len() - i,
    {
        proof {
            assert(cols.take(i + 1).drop_last() =~= cols.take(i as int));
            assert(cols.take(i + 1).last() == columns@[i as int]@);
        }
        match check_channel(&ranges, &columns[i], total_samples) {
            Some(v) => {
                violations.push(v);
            },
            None => {},
        }
        proof {
            assert(violations@.map_values(|v: RangeViolation| v@) =~= range_violations(
                cols.take(i + 1),
                total_samples,
            ));
        }
        i = i + 1;
    }
    proof {
        assert(cols.take(columns@.len() as int) =~= cols);
    }
    violations
}

/// A channel's out-of-range values exceed five percent of its samples.
pub open spec fn range_exceeds(out_of_range_count: nat, total_samples: nat) -> bool {
    total_samples > 0 && out_of_range_count * 100 > total_samples * 5
}

/// Checks whether any channel has more than five percent of its samples out of range.
pub fn has_excessive_range_violations(violations: &[RangeViolation]) -> (r: bool)
    ensures
        r == exists|i: int|
            0 <= i < violations@.len() && #[trigger] range_exceeds(
                violations@[i].out_of_range_count as nat,
                violations@[i].total_samples as nat,
            ),
{
    let mut i: usize = 0;
    while i < violations.len()
        invariant
            0 <= i <= violations@.len(),
            forall|j: int|
                0 <= j < i ==> !#[trigger] range_exceeds(
                    violations@[j].out_of_range_count as nat,
                    violations@[j].total_samples as nat,
                ),
        decreases violations.len() - i,
    {
        let count = violations[i].out_of_range_count;
        let total = violations[i].total_samples;
        if total > 0 && (count as u128) * 100 > (total as u128) * 5 {
            assert(range_exceeds(
                violations@[i as int].out_of_range_count as nat,
                violations@[i as int].total_samples as nat,
            ));
            return true;
        }
        i = i + 1;
    }
    false
}

} // verus!
