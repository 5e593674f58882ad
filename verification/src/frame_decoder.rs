//! Decoding one frame of the simulator's live telemetry: the variable
//! headers name where each variable lies in the data buffer, and the frame
//! takes the mapped channels, the session state, the temperatures and the
//! weather from it. Floating-point values are kept as their bits; turning
//! them into numbers and reading the shared memory are left to the caller.

use vstd::prelude::*;
use vstd::string::StringSliceAdditionalSpecFns;
use crate::ibt::{fits, le_i32, le_u32, le_u64};
use crate::irsdk_types::{IrsdkVarHeader, read_int, read_float_bits, read_double_bits, read_bool};
use crate::sample::{SessionState, session_state_for};
use crate::text::{decimal, u64_to_decimal};
use crate::channels::channel_table;

verus! {

broadcast use vstd::string::group_string_axioms;

/// How a channel's value is read from the data buffer.
#[derive(Debug, Clone, Copy, PartialEq, Eq, Structural)]
pub enum ReadKind {
    /// A little-endian `f64`, kept as its bits.
    Double,
    /// A little-endian `f32`, kept as its bits.
    Float,
    /// A little-endian `i32`.
    Int,
    /// A little-endian `i32`, set when not zero.
    Flag,
    /// A byte, set when not zero.
    Bool,
}

/// A value read from the data buffer.
#[derive(Debug, Clone, Copy, PartialEq, Eq, Structural)]
pub enum RawValue {
    /// Bits of an `f64`.
    Double(u64),
    /// Bits of an `f32`.
    Float(u32),
    Int(i32),
    Bool(bool),
}

/// The session time as stored: as an `f64` or an `f32`, by its bits.
#[derive(Debug, Clone, Copy, PartialEq, Eq, Structural)]
pub enum TimeReading {
    Double(u64),
    Float(u32),
}

/// The channels of a frame: the simulator's variable name, the channel
/// name, and how the value is read.
pub open spec fn frame_channel_table() -> Seq<(&'static str, &'static str, ReadKind)> {
    seq![
        ("SessionTime", "session_time", ReadKind::Double),
        ("LapDist", "lap_distance", ReadKind::Double),
        ("LapCurrentLapTime", "lap_time", ReadKind::Float),
        ("Speed", "speed", ReadKind::Float),
        ("Throttle", "throttle", ReadKind::Float),
        ("Brake", "brake", ReadKind::Float),
        ("SteeringWheelAngle", "steering", ReadKind::Float),
        ("Clutch", "clutch", ReadKind::Float),
        ("Gear", "gear", ReadKind::Int),
        ("RPM", "rpm", ReadKind::Float),
        ("LatAccel", "lat_g", ReadKind::Float),
        ("LongAccel", "long_g", ReadKind::Float),
        ("Yaw", "yaw", ReadKind::Float),
        ("Pitch", "pitch", ReadKind::Float),
        ("Roll", "roll", ReadKind::Float),
        ("VelocityX", "velocity_x", ReadKind::Float),
        ("VelocityY", "velocity_y", ReadKind::Float),
        ("VelocityZ", "velocity_z", ReadKind::Float),
        ("LFtempCL", "tire_temp_lf", ReadKind::Float),
        ("RFtempCL", "tire_temp_rf", ReadKind::Float),
        ("LRtempCL", "tire_temp_lr", ReadKind::Float),
        ("RRtempCL", "tire_temp_rr", ReadKind::Float),
        ("LFpressure", "tire_pressure_lf", ReadKind::Float),
        ("RFpressure", "tire_pressure_rf", ReadKind::Float),
        ("LRpressure", "tire_pressure_lr", ReadKind::Float),
        ("RRpressure", "tire_pressure_rr", ReadKind::Float),
        ("FuelLevel", "fuel_level", ReadKind::Float),
        ("FuelUsePerHour", "fuel_usage", ReadKind::Float),
        ("OilTemp", "oil_temp", ReadKind::Float),
        ("WaterTemp", "water_temp", ReadKind::Float),
        ("dcBrakeBias", "brake_bias", ReadKind::Float),
        ("BrakeABSactive", "abs_active", ReadKind::Bool),
        ("dcTractionControl", "tc_active", ReadKind::Flag),
        ("LapDistPct", "track_position", ReadKind::Float)
    ]
}

/// The variables a frame reads besides its channels.
pub open spec fn frame_extra_names() -> Seq<&'static str> {
    seq!["SessionState", "TrackTemp", "AirTemp", "Skies"]
}

/// Each channel of a frame is read from the simulator variable that the
/// channel mapping maps to it, and every mapped channel is read: the
/// frame's (variable, channel) pairs are exactly the mapping's pairs.
pub proof fn lemma_frame_channels_follow_mapping()
    ensures
        frame_channel_table().len() == channel_table().len(),
        forall|k: int|
            0 <= k < frame_channel_table().len() ==> exists|j: int|
                0 <= j < channel_table().len() && #[trigger] channel_table()[j] == (
                #[trigger] frame_channel_table()[k].0,
                frame_channel_table()[k].1,
            ),
        forall|j: int|
            0 <= j < channel_table().len() ==> exists|k: int|
                0 <= k < frame_channel_table().len() && (#[trigger] frame_channel_table()[k]).0
                    == (#[trigger] channel_table()[j]).0 && frame_channel_table()[k].1
                    == channel_table()[j].1,
{
    assert(channel_table()[33] == (frame_channel_table()[0].0, frame_channel_table()[0].1));
    assert(channel_table()[31] == (frame_channel_table()[1].0, frame_channel_table()[1].1));
    assert(channel_table()[32] == (frame_channel_table()[2].0, frame_channel_table()[2].1));
    assert(channel_table()[0] == (frame_channel_table()[3].0, frame_channel_table()[3].1));
    assert(channel_table()[1] == (frame_channel_table()[4].0, frame_channel_table()[4].1));
    assert(channel_table()[2] == (frame_channel_table()[5].0, frame_channel_table()[5].1));
    assert(channel_table()[3] == (frame_channel_table()[6].0, frame_channel_table()[6].1));
    assert(channel_table()[4] == (frame_channel_table()[7].0, frame_channel_table()[7].1));
    assert(channel_table()[5] == (frame_channel_table()[8].0, frame_channel_table()[8].1));
    assert(channel_table()[6] == (frame_channel_table()[9].0, frame_channel_table()[9].1));
    assert(channel_table()[7] == (frame_channel_table()[10].0, frame_channel_table()[10].1));
    assert(channel_table()[8] == (frame_channel_table()[11].0, frame_channel_table()[11].1));
    assert(channel_table()[9] == (frame_channel_table()[12].0, frame_channel_table()[12].1));
    assert(channel_table()[10] == (frame_channel_table()[13].0, frame_channel_table()[13].1));
    assert(channel_table()[11] == (frame_channel_table()[14].0, frame_channel_table()[14].1));
    assert(channel_table()[12] == (frame_channel_table()[15].0, frame_channel_table()[15].1));
    assert(channel_table()[13] == (frame_channel_table()[16].0, frame_channel_table()[16].1));
    assert(channel_table()[14] == (frame_channel_table()[17].0, frame_channel_table()[17].1));
    assert(channel_table()[15] == (frame_channel_table()[18].0, frame_channel_table()[18].1));
    assert(channel_table()[16] == (frame_channel_table()[19].0, frame_channel_table()[19].1));
    assert(channel_table()[17] == (frame_channel_table()[20].0, frame_channel_table()[20].1));
    assert(channel_table()[18] == (frame_channel_table()[21].0, frame_channel_table()[21].1));
    assert(channel_table()[19] == (frame_channel_table()[22].0, frame_channel_table()[22].1));
    assert(channel_table()[20] == (frame_channel_table()[23].0, frame_channel_table()[23].1));
    assert(channel_table()[21] == (frame_channel_table()[24].0, frame_channel_table()[24].1));
    assert(channel_table()[22] == (frame_channel_table()[25].0, frame_channel_table()[25].1));
    assert(channel_table()[23] == (frame_channel_table()[26].0, frame_channel_table()[26].1));
    assert(channel_table()[24] == (frame_channel_table()[27].0, frame_channel_table()[27].1));
    assert(channel_table()[25] == (frame_channel_table()[28].0, frame_channel_table()[28].1));
    assert(channel_table()[26] == (frame_channel_table()[29].0, frame_channel_table()[29].1));
    assert(channel_table()[27] == (frame_channel_table()[30].0, frame_channel_table()[30].1));
    assert(channel_table()[28] == (frame_channel_table()[31].0, frame_channel_table()[31].1));
    assert(channel_table()[29] == (frame_channel_table()[32].0, frame_channel_table()[32].1));
    assert(channel_table()[30] == (frame_channel_table()[33].0, frame_channel_table()[33].1));
    assert(frame_channel_table()[3].0 == channel_table()[0].0 && frame_channel_table()[3].1 == channel_table()[0].1);
    assert(frame_channel_table()[4].0 == channel_table()[1].0 && frame_channel_table()[4].1 == channel_table()[1].1);
    assert(frame_channel_table()[5].0 == channel_table()[2].0 && frame_channel_table()[5].1 == channel_table()[2].1);
    assert(frame_channel_table()[6].0 == channel_table()[3].0 && frame_channel_table()[6].1 == channel_table()[3].1);
    assert(frame_channel_table()[7].0 == channel_table()[4].0 && frame_channel_table()[7].1 == channel_table()[4].1);
    assert(frame_channel_table()[8].0 == channel_table()[5].0 && frame_channel_table()[8].1 == channel_table()[5].1);
    assert(frame_channel_table()[9].0 == channel_table()[6].0 && frame_channel_table()[9].1 == channel_table()[6].1);
    assert(frame_channel_table()[10].0 == channel_table()[7].0 && frame_channel_table()[10].1 == channel_table()[7].1);
    assert(frame_channel_table()[11].0 == channel_table()[8].0 && frame_channel_table()[11].1 == channel_table()[8].1);
    assert(frame_channel_table()[12].0 == channel_table()[9].0 && frame_channel_table()[12].1 == channel_table()[9].1);
    assert(frame_channel_table()[13].0 == channel_table()[10].0 && frame_channel_table()[13].1 == channel_table()[10].1);
    assert(frame_channel_table()[14].0 == channel_table()[11].0 && frame_channel_table()[14].1 == channel_table()[11].1);
    assert(frame_channel_table()[15].0 == channel_table()[12].0 && frame_channel_table()[15].1 == channel_table()[12].1);
    assert(frame_channel_table()[16].0 == channel_table()[13].0 && frame_channel_table()[16].1 == channel_table()[13].1);
    assert(frame_channel_table()[17].0 == channel_table()[14].0 && frame_channel_table()[17].1 == channel_table()[14].1);
    assert(frame_channel_table()[18].0 == channel_table()[15].0 && frame_channel_table()[18].1 == channel_table()[15].1);
    assert(frame_channel_table()[19].0 == channel_table()[16].0 && frame_channel_table()[19].1 == channel_table()[16].1);
    assert(frame_channel_table()[20].0 == channel_table()[17].0 && frame_channel_table()[20].1 == channel_table()[17].1);
    assert(frame_channel_table()[21].0 == channel_table()[18].0 && frame_channel_table()[21].1 == channel_table()[18].1);
    assert(frame_channel_table()[22].0 == channel_table()[19].0 && frame_channel_table()[22].1 == channel_table()[19].1);
    assert(frame_channel_table()[23].0 == channel_table()[20].0 && frame_channel_table()[23].1 == channel_table()[20].1);
    assert(frame_channel_table()[24].0 == channel_table()[21].0 && frame_channel_table()[24].1 == channel_table()[21].1);
    assert(frame_channel_table()[25].0 == channel_table()[22].0 && frame_channel_table()[25].1 == channel_table()[22].1);
    assert(frame_channel_table()[26].0 == channel_table()[23].0 && frame_channel_table()[26].1 == channel_table()[23].1);
    assert(frame_channel_table()[27].0 == channel_table()[24].0 && frame_channel_table()[27].1 == channel_table()[24].1);
    assert(frame_channel_table()[28].0 == channel_table()[25].0 && frame_channel_table()[28].1 == channel_table()[25].1);
    assert(frame_channel_table()[29].0 == channel_table()[26].0 && frame_channel_table()[29].1 == channel_table()[26].1);
    assert(frame_channel_table()[30].0 == channel_table()[27].0 && frame_channel_table()[30].1 == channel_table()[27].1);
    assert(frame_channel_table()[31].0 == channel_table()[28].0 && frame_channel_table()[31].1 == channel_table()[28].1);
    assert(frame_channel_table()[32].0 == channel_table()[29].0 && frame_channel_table()[32].1 == channel_table()[29].1);
    assert(frame_channel_table()[33].0 == channel_table()[30].0 && frame_channel_table()[33].1 == channel_table()[30].1);
    assert(frame_channel_table()[1].0 == channel_table()[31].0 && frame_channel_table()[1].1 == channel_table()[31].1);
    assert(frame_channel_table()[2].0 == channel_table()[32].0 && frame_channel_table()[2].1 == channel_table()[32].1);
    assert(frame_channel_table()[0].0 == channel_table()[33].0 && frame_channel_table()[0].1 == channel_table()[33].1);
}

/// Where a name ends: at its first zero byte, or at the end.
pub open spec fn name_end(name: Seq<u8>) -> int
    decreases name.len(),
{
    if name.len() == 0 || name[0] == 0 {
        0
    } else {
        1 + name_end(name.skip(1))
    }
}

/// The name of a variable: its bytes before the first zero byte.
pub open spec fn var_name(vh: IrsdkVarHeader) -> Seq<u8> {
    vh.name@.take(name_end(vh.name@))
}

/// The offset and type of the last variable with the given name, if any.
pub open spec fn lookup_var(headers: Seq<IrsdkVarHeader>, key: Seq<u8>) -> Option<(i32, i32)>
    decreases headers.len(),
{
    if headers.len() == 0 {
        None
    } else if var_name(headers.last()) == key {
        Some((headers.last().offset, headers.last().var_type))
    } else {
        lookup_var(headers.drop_last(), key)
    }
}

/// The value of the given kind at an offset, if the buffer holds it there.
pub open spec fn read_value(data: Seq<u8>, offset: int, kind: ReadKind) -> Option<RawValue> {
    match kind {
        ReadKind::Double => if fits(data.len() as int, offset, 8) {
            Some(RawValue::Double(le_u64(data, offset)))
        } else {
            None
        },
        ReadKind::Float => if fits(data.len() as int, offset, 4) {
            Some(RawValue::Float(le_u32(data, offset)))
        } else {
            None
        },
        ReadKind::Int => if fits(data.len() as int, offset, 4) {
            Some(RawValue::Int(le_i32(data, offset)))
        } else {
            None
        },
        ReadKind::Flag => if fits(data.len() as int, offset, 4) {
            Some(RawValue::Bool(le_i32(data, offset) != 0))
        } else {
            None
        },
        ReadKind::Bool => if 0 <= offset < data.len() {
            Some(RawValue::Bool(data[offset] != 0))
        } else {
            None
        },
    }
}

/// The value of a named variable, read as the given kind; `None` when no
/// variable has the name or the buffer is too short.
pub open spec fn named_value(headers: Seq<IrsdkVarHeader>, data: Seq<u8>, name: &'static str, kind: ReadKind) -> Option<RawValue> {
    match lookup_var(headers, name.spec_bytes()) {
        Some((offset, _)) => read_value(data, offset as int, kind),
        None => None,
    }
}

/// The session time, when it is stored as an `f64` (type 5) or an `f32`
/// (type 4) and the buffer holds it; otherwise the clock stands in.
pub open spec fn session_time_reading(headers: Seq<IrsdkVarHeader>, data: Seq<u8>) -> Option<TimeReading> {
    match lookup_var(headers, "SessionTime".spec_bytes()) {
        Some((offset, 5)) => if fits(data.len() as int, offset as int, 8) {
            Some(TimeReading::Double(le_u64(data, offset as int)))
        } else {
            None
        },
        Some((offset, 4)) => if fits(data.len() as int, offset as int, 4) {
            Some(TimeReading::Float(le_u32(data, offset as int)))
        } else {
            None
        },
        _ => None,
    }
}

/// A whole number written in decimal, with a minus sign when negative.
pub open spec fn signed_decimal(v: int) -> Seq<char> {
    if v < 0 {
        "-"@ + decimal((-v) as nat)
    } else {
        decimal(v as nat)
    }
}

/// A decoded frame.
#[derive(Debug, Clone)]
pub struct DecodedFrame {
    /// The session time for the frame's time stamp, if it could be read.
    pub session_time: Option<TimeReading>,
    /// The value of each channel of `frame_channel_table`, in table order.
    pub channels: Vec<Option<RawValue>>,
    /// The session state; invalid when the variable cannot be read.
    pub session_state: SessionState,
    /// Bits of the track temperature.
    pub track_temp: Option<u32>,
    /// Bits of the air temperature.
    pub air_temp: Option<u32>,
    /// The weather: `skies_` followed by the simulator's sky value.
    pub weather: Option<String>,
}

/// The content of a decoded frame.
pub ghost struct DecodedFrameView {
    pub session_time: Option<TimeReading>,
    pub channels: Seq<Option<RawValue>>,
    pub session_state: SessionState,
    pub track_temp: Option<u32>,
    pub air_temp: Option<u32>,
    pub weather: Option<Seq<char>>,
}

impl View for DecodedFrame {
    type V = DecodedFrameView;

    open spec fn view(&self) -> DecodedFrameView {
        DecodedFrameView {
            session_time: self.session_time,
            channels: self.channels@,
            session_state: self.session_state,
            track_temp: self.track_temp,
            air_temp: self.air_temp,
            weather: match self.weather {
                Some(w) => Some(w@),
                None => None,
            },
        }
    }
}

/// The bits of an `f32` read as a value, if any.
pub open spec fn float_bits_of(v: Option<RawValue>) -> Option<u32> {
    match v {
        Some(RawValue::Float(b)) => Some(b),
        _ => None,
    }
}

/// The frame that a data buffer holds, read through the variable headers.
pub open spec fn decoded_frame(headers: Seq<IrsdkVarHeader>, data: Seq<u8>) -> DecodedFrameView {
    DecodedFrameView {
        session_time: session_time_reading(headers, data),
        channels: frame_channel_table().map_values(
            |row: (&'static str, &'static str, ReadKind)| named_value(headers, data, row.0, row.2),
        ),
        session_state: match named_value(headers, data, "SessionState", ReadKind::Int) {
            Some(RawValue::Int(i)) => session_state_for(i),
            _ => SessionState::Invalid,
        },
        track_temp: float_bits_of(named_value(headers, data, "TrackTemp", ReadKind::Float)),
        air_temp: float_bits_of(named_value(headers, data, "AirTemp", ReadKind::Float)),
        weather: match named_value(headers, data, "Skies", ReadKind::Int) {
            Some(RawValue::Int(v)) => Some("skies_"@ + signed_decimal(v as int)),
            _ => None,
        },
    }
}

/// The offsets of the variables a frame reads are not negative (reading at
/// a negative offset is out of the buffer's bounds).
#[verifier::opaque]
pub open spec fn frame_offsets_ok(headers: Seq<IrsdkVarHeader>) -> bool {
    &&& forall|k: int|
        0 <= k < frame_channel_table().len() ==> (lookup_var(
            headers,
            (#[trigger] frame_channel_table()[k]).0.spec_bytes(),
        ) matches Some((offset, _)) ==> offset >= 0)
    &&& forall|k: int|
        0 <= k < frame_extra_names().len() ==> (lookup_var(
            headers,
            (#[trigger] frame_extra_names()[k]).spec_bytes(),
        ) matches Some((offset, _)) ==> offset >= 0)
}

/// A variable the frame reads has an offset that is not negative.
proof fn lemma_offset_ok(headers: Seq<IrsdkVarHeader>, name: &'static str)
    requires
        frame_offsets_ok(headers),
        (exists|k: int| 0 <= k < frame_channel_table().len() && frame_channel_table()[k].0 == name)
            || (exists|k: int| 0 <= k < frame_extra_names().len() && frame_extra_names()[k] == name),
    ensures
        lookup_var(headers, name.spec_bytes()) matches Some((offset, _)) ==> offset >= 0,
{
    reveal(frame_offsets_ok);
    if exists|k: int| 0 <= k < frame_channel_table().len() && frame_channel_table()[k].0 == name {
        let k = choose|k: int| 0 <= k < frame_channel_table().len() && frame_channel_table()[k].0 == name;
        assert(lookup_var(headers, frame_channel_table()[k].0.spec_bytes()) matches Some((offset, _)) ==> offset >= 0);
    } else {
        let k = choose|k: int| 0 <= k < frame_extra_names().len() && frame_extra_names()[k] == name;
        assert(lookup_var(headers, frame_extra_names()[k].spec_bytes()) matches Some((offset, _)) ==> offset >= 0);
    }
}

/// Whether a variable's name is the given one.
fn name_is(vh: &IrsdkVarHeader, key: &[u8]) -> (r: bool)
    ensures
        r == (var_name(*vh) == key@),
{
    let ghost name = vh.name@;
    assert(name.skip(0) =~= name);
    let mut end: usize = 0;
    while end < 32 && vh.name[end] != 0
        invariant
            0 <= end <= 32,
            name == vh.name@,
            name.len() == 32,
            forall|j: int| 0 <= j < end ==> name[j] != 0,
            name_end(name) == end + name_end(name.skip(end as int)),
        decreases 32 - end,
    {
        proof {
            assert(name.skip(end as int).skip(1) =~= name.skip(end + 1));
        }
        end = end + 1;
    }
    proof {
        if end < 32 {
            assert(name.skip(end as int)[0] == 0);
        }
        assert(name_end(name) == end);
    }
    if end != key.len() {
        return false;
    }
    let mut i: usize = 0;
    while i < end
        invariant
            0 <= i <= end <= 32,
            end == key@.len(),
            name == vh.name@,
            name_end(name) == end as int,
            forall|j: int| 0 <= j < i ==> name[j] == key@[j],
        decreases end - i,
    {
        if vh.name[i] != key[i] {
            assert(name.take(end as int)[i as int] != key@[i as int]);
            return false;
        }
        i = i + 1;
    }
    assert(name.take(end as int) =~= key@);
    true
}

/// Finds the offset and type of the last variable with the given name.
pub fn find_var(headers: &[IrsdkVarHeader], key: &str) -> (r: Option<(i32, i32)>)
    ensures
        r == lookup_var(headers@, key.spec_bytes()),
{
    let bytes = key.as_bytes();
    let mut found: Option<(i32, i32)> = None;
    let mut i: usize = 0;
    while i < headers.len()
        invariant
            0 <= i <= headers@.len(),
            bytes@ == key.spec_bytes(),
            found == lookup_var(headers@.take(i as int), key.spec_bytes()),
        decreases headers.len() - i,
    {
        proof {
            assert(headers@.take(i + 1).drop_last() =~= headers@.take(i as int));
        }
        if name_is(&headers[i], bytes) {
            found = Some((headers[i].offset, headers[i].var_type));
        }
        i = i + 1;
    }
    proof {
        assert(headers@.take(headers@.len() as int) =~= headers@);
    }
    found
}

/// Reads a value of the given kind at an offset.
fn read_kind(data: &[u8], offset: i32, kind: ReadKind) -> (r: Option<RawValue>)
    requires
        offset >= 0,
    ensures
        r == read_value(data@, offset as int, kind),
{
    let off = offset as usize;
    assert(off as int == offset as int);
    match kind {
        ReadKind::Double => match read_double_bits(data, off) {
            Some(b) => Some(RawValue::Double(b)),
            None => None,
        },
        ReadKind::Float => match read_float_bits(data, off) {
            Some(b) => Some(RawValue::Float(b)),
            None => None,
        },
        ReadKind::Int => match read_int(data, off) {
            Some(v) => Some(RawValue::Int(v)),
            None => None,
        },
        ReadKind::Flag => match read_int(data, off) {
            Some(v) => Some(RawValue::Bool(v != 0)),
            None => None,
        },
        ReadKind::Bool => match read_bool(data, off) {
            Some(b) => Some(RawValue::Bool(b)),
            None => None,
        },
    }
}

/// Reads a named variable as the given kind.
fn read_named(headers: &[IrsdkVarHeader], data: &[u8], name: &'static str, kind: ReadKind) -> (r: Option<RawValue>)
    requires
        lookup_var(headers@, name.spec_bytes()) matches Some((offset, _)) ==> offset >= 0,
    ensures
        r == named_value(headers@, data@, name, kind),
{
    match find_var(headers, name) {
        Some((offset, _)) => read_kind(data, offset, kind),
        None => None,
    }
}

/// The channel table, built.
fn channel_rows() -> (r: Vec<(&'static str, &'static str, ReadKind)>)
    ensures
        r@ == frame_channel_table(),
{
    let mut table: Vec<(&'static str, &'static str, ReadKind)> = Vec::new();
    table.push(("SessionTime", "session_time", ReadKind::Double));
    table.push(("LapDist", "lap_distance", ReadKind::Double));
    table.push(("LapCurrentLapTime", "lap_time", ReadKind::Float));
    table.push(("Speed", "speed", ReadKind::Float));
    table.push(("Throttle", "throttle", ReadKind::Float));
    table.push(("Brake", "brake", ReadKind::Float));
    table.push(("SteeringWheelAngle", "steering", ReadKind::Float));
    table.push(("Clutch", "clutch", ReadKind::Float));
    table.push(("Gear", "gear", ReadKind::Int));
    table.push(("RPM", "rpm", ReadKind::Float));
    table.push(("LatAccel", "lat_g", ReadKind::Float));
    table.push(("LongAccel", "long_g", ReadKind::Float));
    table.push(("Yaw", "yaw", ReadKind::Float));
    table.push(("Pitch", "pitch", ReadKind::Float));
    table.push(("Roll", "roll", ReadKind::Float));
    table.push(("VelocityX", "velocity_x", ReadKind::Float));
    table.push(("VelocityY", "velocity_y", ReadKind::Float));
    table.push(("VelocityZ", "velocity_z", ReadKind::Float));
    table.push(("LFtempCL", "tire_temp_lf", ReadKind::Float));
    table.push(("RFtempCL", "tire_temp_rf", ReadKind::Float));
    table.push(("LRtempCL", "tire_temp_lr", ReadKind::Float));
    table.push(("RRtempCL", "tire_temp_rr", ReadKind::Float));
    table.push(("LFpressure", "tire_pressure_lf", ReadKind::Float));
    table.push(("RFpressure", "tire_pressure_rf", ReadKind::Float));
    table.push(("LRpressure", "tire_pressure_lr", ReadKind::Float));
    table.push(("RRpressure", "tire_pressure_rr", ReadKind::Float));
    table.push(("FuelLevel", "fuel_level", ReadKind::Float));
    table.push(("FuelUsePerHour", "fuel_usage", ReadKind::Float));
    table.push(("OilTemp", "oil_temp", ReadKind::Float));
    table.push(("WaterTemp", "water_temp", ReadKind::Float));
    table.push(("dcBrakeBias", "brake_bias", ReadKind::Float));
    table.push(("BrakeABSactive", "abs_active", ReadKind::Bool));
    table.push(("dcTractionControl", "tc_active", ReadKind::Flag));
    table.push(("LapDistPct", "track_position", ReadKind::Float));
    assert(table@ =~= frame_channel_table());
    table
}

/// Writes a whole number in decimal, with a minus sign when negative.
fn i32_to_decimal(v: i32) -> (s: String)
    ensures
        s@ == signed_decimal(v as int),
{
    if v < 0 {
        let magnitude: u64 = (-(v as i64)) as u64;
        let digits = u64_to_decimal(magnitude);
        let mut s = "-".to_owned();
        s.append(digits.as_str());
        s
    } else {
        u64_to_decimal(v as u64)
    }
}

/// Checks that the variables a frame reads have offsets that are not negative.
pub fn check_frame_offsets(headers: &[IrsdkVarHeader]) -> (r: bool)
    ensures
        r == frame_offsets_ok(headers@),
{
    let table = channel_rows();
    let mut k: usize = 0;
    while k < table.len()
        invariant
            0 <= k <= table@.len(),
            table@ == frame_channel_table(),
            forall|j: int|
                0 <= j < k ==> (lookup_var(
                    headers@,
                    (#[trigger] frame_channel_table()[j]).0.spec_bytes(),
                ) matches Some((offset, _)) ==> offset >= 0),
        decreases table.len() - k,
    {
        match find_var(headers, table[k].0) {
            Some((offset, _)) => {
                if offset < 0 {
                    proof {
                        reveal(frame_offsets_ok);
                        assert(table@[k as int] == frame_channel_table()[k as int]);
                    }
                    return false;
                }
            },
            None => {},
        }
        proof {
            assert(table@[k as int] == frame_channel_table()[k as int]);
        }
        k = k + 1;
    }
    let extras: [&'static str; 4] = ["SessionState", "TrackTemp", "AirTemp", "Skies"];
    let mut m: usize = 0;
    while m < 4
        invariant
            0 <= m <= 4,
            extras@ == frame_extra_names(),
            forall|j: int|
                0 <= j < frame_channel_table().len() ==> (lookup_var(
                    headers@,
                    (#[trigger] frame_channel_table()[j]).0.spec_bytes(),
                ) matches Some((offset, _)) ==> offset >= 0),
            forall|j: int|
                0 <= j < m ==> (lookup_var(
                    headers@,
                    (#[trigger] frame_extra_names()[j]).spec_bytes(),
                ) matches Some((offset, _)) ==> offset >= 0),
        decreases 4 - m,
    {
        match find_var(headers, extras[m]) {
            Some((offset, _)) => {
                if offset < 0 {
                    proof {
                        reveal(frame_offsets_ok);
                        assert(extras@[m as int] == frame_extra_names()[m as int]);
                    }
                    return false;
                }
            },
            None => {},
        }
        proof {
            assert(extras@[m as int] == frame_extra_names()[m as int]);
        }
        m = m + 1;
    }
    proof {
        reveal(frame_offsets_ok);
    }
    true
}

/// Reads the session time for the frame's time stamp.
fn read_session_time(var_headers: &[IrsdkVarHeader], data: &[u8]) -> (r: Option<TimeReading>)
    requires
        frame_offsets_ok(var_headers@),
    ensures
        r == session_time_reading(var_headers@, data@),
{
    proof {
        assert(frame_channel_table()[0].0 == "SessionTime");
        lemma_offset_ok(var_headers@, "SessionTime");
    }
    match find_var(var_headers, "SessionTime") {
        Some((offset, 5)) => {
            let off = offset as usize;
            assert(off as int == offset as int);
            match read_double_bits(data, off) {
                Some(b) => Some(TimeReading::Double(b)),
                None => None,
            }
        },
        Some((offset, 4)) => {
            let off = offset as usize;
            assert(off as int == offset as int);
            match read_float_bits(data, off) {
                Some(b) => Some(TimeReading::Float(b)),
                None => None,
            }
        },
        _ => None,
    }
}

/// Reads every channel of the channel table.
fn read_channels(var_headers: &[IrsdkVarHeader], data: &[u8]) -> (r: Vec<Option<RawValue>>)
    requires
        frame_offsets_ok(var_headers@),
    ensures
        r@ == frame_channel_table().map_values(
            |row: (&'static str, &'static str, ReadKind)| named_value(var_headers@, data@, row.0, row.2),
        ),
{
    let table = channel_rows();
    let mut channels: Vec<Option<RawValue>> = Vec::new();
    let mut k: usize = 0;
    while k < table.len()
        invariant
            0 <= k <= table@.len(),
            table@ == frame_channel_table(),
            frame_offsets_ok(var_headers@),
            channels@.len() == k,
            forall|j: int|
                0 <= j < k ==> channels@[j] == named_value(
                    var_headers@,
                    data@,
                    frame_channel_table()[j].0,
                    frame_channel_table()[j].2,
                ),
        decreases table.len() - k,
    {
        let (name, _, kind) = table[k];
        proof {
            assert(table@[k as int] == frame_channel_table()[k as int]);
            lemma_offset_ok(var_headers@, name);
        }
        let v = read_named(var_headers, data, name, kind);
        channels.push(v);
        k = k + 1;
    }
    assert(channels@ =~= frame_channel_table().map_values(
        |row: (&'static str, &'static str, ReadKind)| named_value(var_headers@, data@, row.0, row.2),
    ));
    channels
}

/// Decodes one frame from the variable headers and the data buffer.
pub fn decode_frame(var_headers: &[IrsdkVarHeader], data: &[u8]) -> (r: DecodedFrame)
    requires
        frame_offsets_ok(var_headers@),
    ensures
        r@ == decoded_frame(var_headers@, data@),
{
    let session_time = read_session_time(var_headers, data);
    let channels = read_channels(var_headers, data);
    proof {
        assert(frame_extra_names()[0] == "SessionState");
        assert(frame_extra_names()[1] == "TrackTemp");
        assert(frame_extra_names()[2] == "AirTemp");
        assert(frame_extra_names()[3] == "Skies");
        lemma_offset_ok(var_headers@, "SessionState");
        lemma_offset_ok(var_headers@, "TrackTemp");
        lemma_offset_ok(var_headers@, "AirTemp");
        lemma_offset_ok(var_headers@, "Skies");
    }
    let session_state = match read_named(var_headers, data, "SessionState", ReadKind::Int) {
        Some(RawValue::Int(i)) => SessionState::from_irsdk_state(i),
        _ => SessionState::Invalid,
    };
    let track_temp = match read_named(var_headers, data, "TrackTemp", ReadKind::Float) {
        Some(RawValue::Float(b)) => Some(b),
        _ => None,
    };
    let air_temp = match read_named(var_headers, data, "AirTemp", ReadKind::Float) {
        Some(RawValue::Float(b)) => Some(b),
        _ => None,
    };
    let weather = match read_named(var_headers, data, "Skies", ReadKind::Int) {
        Some(RawValue::Int(v)) => {
            let mut w = "skies_".to_owned();
            let n = i32_to_decimal(v);
            w.append(n.as_str());
            Some(w)
        },
        _ => None,
    };
    DecodedFrame { session_time, channels, session_state, track_temp, air_temp, weather }
}

/// Calls `chrono::Utc::now` and takes its `timestamp_millis`. Nothing is
/// stated of the result: it is the clock's reading.
#[verifier::external_body]
fn now_millis() -> (r: i64) {
    chrono::Utc::now().timestamp_millis()
}

/// The time stamp of a frame: its session time in milliseconds where it
/// could be read, else the clock's reading.
pub fn frame_timestamp(session_time_ms: Option<i64>) -> (r: i64)
    ensures
        session_time_ms matches Some(t) ==> r == t,
{
    match session_time_ms {
        Some(t) => t,
        None => now_millis(),
    }
}

} // verus!
