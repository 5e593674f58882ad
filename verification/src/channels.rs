//! Mapping from the simulator's variable names to the canonical telemetry
//! channel names, shared by the file importer and the live capture.

use vstd::prelude::*;
use crate::text::str_eq;

verus! {

/// The channel table: simulator variable name, canonical channel name.
pub open spec fn channel_table() -> Seq<(&'static str, &'static str)> {
    seq![
        ("Speed", "speed"),
        ("Throttle", "throttle"),
        ("Brake", "brake"),
        ("SteeringWheelAngle", "steering"),
        ("Clutch", "clutch"),
        ("Gear", "gear"),
        ("RPM", "rpm"),
        ("LatAccel", "lat_g"),
        ("LongAccel", "long_g"),
        ("Yaw", "yaw"),
        ("Pitch", "pitch"),
        ("Roll", "roll"),
        ("VelocityX", "velocity_x"),
        ("VelocityY", "velocity_y"),
        ("VelocityZ", "velocity_z"),
        ("LFtempCL", "tire_temp_lf"),
        ("RFtempCL", "tire_temp_rf"),
        ("LRtempCL", "tire_temp_lr"),
        ("RRtempCL", "tire_temp_rr"),
        ("LFpressure", "tire_pressure_lf"),
        ("RFpressure", "tire_pressure_rf"),
        ("LRpressure", "tire_pressure_lr"),
        ("RRpressure", "tire_pressure_rr"),
        ("FuelLevel", "fuel_level"),
        ("FuelUsePerHour", "fuel_usage"),
        ("OilTemp", "oil_temp"),
        ("WaterTemp", "water_temp"),
        ("dcBrakeBias", "brake_bias"),
        ("BrakeABSactive", "abs_active"),
        ("dcTractionControl", "tc_active"),
        ("LapDistPct", "track_position"),
        ("LapDist", "lap_distance"),
        ("LapCurrentLapTime", "lap_time"),
        ("SessionTime", "session_time")
    ]
}

/// The canonical name that the first entry with the given variable name maps to.
pub open spec fn lookup(pairs: Seq<(&'static str, &'static str)>, key: Seq<char>) -> Option<
    &'static str,
>
    decreases pairs.len(),
{
    if pairs.len() == 0 {
        None
    } else if pairs[0].0@ == key {
        Some(pairs[0].1)
    } else {
        lookup(pairs.skip(1), key)
    }
}

/// A mapping from variable names to canonical channel names.
#[derive(Debug, Clone)]
pub struct ChannelMapping {
    pairs: Vec<(&'static str, &'static str)>,
}

impl ChannelMapping {
    /// The entries of the mapping, in table order.
    pub closed spec fn entries(&self) -> Seq<(&'static str, &'static str)> {
        self.pairs@
    }

    /// Returns the canonical name for a variable name.
    pub fn get(&self, key: &str) -> (r: Option<&&'static str>)
        ensures
            match r {
                Some(v) => lookup(self.entries(), key@) == Some(*v),
                None => lookup(self.entries(), key@) is None,
            },
    {
        let mut i: usize = 0;
        assert(self.pairs@.skip(0) =~= self.pairs@);
        while i < self.pairs.len()
            invariant
                0 <= i <= self.pairs@.len(),
                lookup(self.pairs@, key@) == lookup(self.pairs@.skip(i as int), key@),
            decreases self.pairs.len() - i,
        {
            if str_eq(self.pairs[i].0, key) {
                return Some(&self.pairs[i].1);
            }
            proof {
                assert(self.pairs@.skip(i as int).skip(1) =~= self.pairs@.skip(i + 1));
            }
            i = i + 1;
        }
        None
    }

    /// Returns true if the variable name has a canonical name.
    pub fn contains_key(&self, key: &str) -> (r: bool)
        ensures
            r == (lookup(self.entries(), key@) is Some),
    {
        self.get(key).is_some()
    }

    /// Returns the number of entries.
    pub fn len(&self) -> (r: usize)
        ensures
            r == self.entries().len(),
    {
        self.pairs.len()
    }
}

/// The channel mapping from simulator variable names to canonical channel names.
pub fn irsdk_channel_mapping() -> (r: ChannelMapping)
    ensures
        r.entries() == channel_table(),
{
    let mut pairs: Vec<(&'static str, &'static str)> = Vec::new();
    pairs.push(("Speed", "speed"));
    pairs.push(("Throttle", "throttle"));
    pairs.push(("Brake", "brake"));
    pairs.push(("SteeringWheelAngle", "steering"));
    pairs.push(("Clutch", "clutch"));
    pairs.push(("Gear", "gear"));
    pairs.push(("RPM", "rpm"));
    pairs.push(("LatAccel", "lat_g"));
    pairs.push(("LongAccel", "long_g"));
    pairs.push(("Yaw", "yaw"));
    pairs.push(("Pitch", "pitch"));
    pairs.push(("Roll", "roll"));
    pairs.push(("VelocityX", "velocity_x"));
    pairs.push(("VelocityY", "velocity_y"));
    pairs.push(("VelocityZ", "velocity_z"));
    pairs.push(("LFtempCL", "tire_temp_lf"));
    pairs.push(("RFtempCL", "tire_temp_rf"));
    pairs.push(("LRtempCL", "tire_temp_lr"));
    pairs.push(("RRtempCL", "tire_temp_rr"));
    pairs.push(("LFpressure", "tire_pressure_lf"));
    pairs.push(("RFpressure", "tire_pressure_rf"));
    pairs.push(("LRpressure", "tire_pressure_lr"));
    pairs.push(("RRpressure", "tire_pressure_rr"));
    pairs.push(("FuelLevel", "fuel_level"));
    pairs.push(("FuelUsePerHour", "fuel_usage"));
    pairs.push(("OilTemp", "oil_temp"));
    pairs.push(("WaterTemp", "water_temp"));
    pairs.push(("dcBrakeBias", "brake_bias"));
    pairs.push(("BrakeABSactive", "abs_active"));
    pairs.push(("dcTractionControl", "tc_active"));
    pairs.push(("LapDistPct", "track_position"));
    pairs.push(("LapDist", "lap_distance"));
    pairs.push(("LapCurrentLapTime", "lap_time"));
    pairs.push(("SessionTime", "session_time"));
    assert(pairs@ =~= channel_table());
    ChannelMapping { pairs }
}

/// The channel mapping the `.ibt` importer uses: the same table as the live capture.
pub fn ibt_channel_mapping() -> (r: ChannelMapping)
    ensures
        r.entries() == channel_table(),
{
    irsdk_channel_mapping()
}

} // verus!
