//! The pieces of corner segmentation that compare samples: braking and
//! turning zones, the corner exit, the apex, and the brake applications in
//! a corner. Distances, pressures, loads and speeds are double-precision
//! values given by their bits.

use vstd::prelude::*;
use crate::float_bits::{
    f64_lt, f64_le, f64_abs, f64_bits_lt, f64_bits_le, f64_bits_abs, F64_INFINITY_BITS,
};

verus! {

/// A telemetry sample as corner segmentation reads it.
#[derive(Debug, Clone, Copy, PartialEq, Eq, Structural)]
pub struct TelemetrySample {
    pub distance: u64,
    pub brake: u64,
    pub throttle: u64,
    pub lat_g: u64,
    pub speed: u64,
    pub timestamp_ms: u64,
}

/// A stretch of the lap, by the distances of its first and last samples.
#[derive(Debug, Clone, Copy, PartialEq, Eq, Structural)]
pub struct Zone {
    pub start_distance: u64,
    pub end_distance: u64,
}

/// The zones closed so far and the start of the open one, if any, after
/// scanning `(value, distance)` pairs: a value above the threshold opens a
/// zone; one at or below it closes the open zone at its own distance; one
/// that compares neither way (NaN) changes nothing.
pub open spec fn zone_scan(samples: Seq<(u64, u64)>, threshold: u64) -> (Seq<Zone>, Option<u64>)
    decreases samples.len(),
{
    if samples.len() == 0 {
        (Seq::empty(), None)
    } else {
        let (zones, open) = zone_scan(samples.drop_last(), threshold);
        let (value, distance) = samples.last();
        match open {
            None => if f64_lt(threshold, value) {
                (zones, Some(distance))
            } else {
                (zones, None)
            },
            Some(start) => if f64_le(value, threshold) {
                (zones.push(Zone { start_distance: start, end_distance: distance }), None)
            } else {
                (zones, Some(start))
            },
        }
    }
}

/// The zones of a lap: those closed during the scan, then the one still
/// open at the end, closed at the last sample's distance.
pub open spec fn zones_of(samples: Seq<(u64, u64)>, threshold: u64) -> Seq<Zone> {
    let (zones, open) = zone_scan(samples, threshold);
    match open {
        Some(start) => zones.push(Zone { start_distance: start, end_distance: samples.last().1 }),
        None => zones,
    }
}

/// Sample `j` was above the threshold and no sample after it, up to `i`,
/// was at or below it.
pub open spec fn zone_open_since(samples: Seq<(u64, u64)>, threshold: u64, j: int, i: int) -> bool {
    &&& f64_lt(threshold, samples[j].0)
    &&& forall|k: int| j < k <= i ==> !f64_le(#[trigger] samples[k].0, threshold)
}

/// Sample `i` lies in a stretch above the threshold: some sample at or
/// before it was above the threshold, and none since was at or below it.
pub open spec fn in_zone_at(samples: Seq<(u64, u64)>, threshold: u64, i: int) -> bool {
    exists|j: int| 0 <= j <= i && #[trigger] zone_open_since(samples, threshold, j, i)
}

/// A stretch above the threshold begins at sample `i`.
pub open spec fn starts_zone(samples: Seq<(u64, u64)>, threshold: u64, i: int) -> bool {
    in_zone_at(samples, threshold, i) && (i == 0 || !in_zone_at(samples, threshold, i - 1))
}

/// The number of stretches above the threshold that begin among the first
/// `n` samples.
pub open spec fn rising_edges(samples: Seq<(u64, u64)>, threshold: u64, n: nat) -> nat
    decreases n,
{
    if n == 0 {
        0
    } else {
        rising_edges(samples, threshold, (n - 1) as nat) + if starts_zone(
            samples,
            threshold,
            n - 1,
        ) {
            1nat
        } else {
            0nat
        }
    }
}

/// Sample `i` lies in a stretch exactly when it is above the threshold, or
/// the sample before it lies in one and it is not at or below the threshold.
proof fn lemma_in_zone_step(samples: Seq<(u64, u64)>, threshold: u64, i: int)
    requires
        0 <= i < samples.len(),
    ensures
        in_zone_at(samples, threshold, i) <==> (f64_lt(threshold, samples[i].0) || (i > 0
            && in_zone_at(samples, threshold, i - 1) && !f64_le(samples[i].0, threshold))),
{
    if f64_lt(threshold, samples[i].0) {
        assert(zone_open_since(samples, threshold, i, i));
    }
    if i > 0 && in_zone_at(samples, threshold, i - 1) && !f64_le(samples[i].0, threshold) {
        let j = choose|j: int| 0 <= j <= i - 1 && #[trigger] zone_open_since(samples, threshold, j, i - 1);
        assert(zone_open_since(samples, threshold, j, i));
    }
    if in_zone_at(samples, threshold, i) && !f64_lt(threshold, samples[i].0) {
        let j = choose|j: int| 0 <= j <= i && #[trigger] zone_open_since(samples, threshold, j, i);
        assert(j != i);
        assert(zone_open_since(samples, threshold, j, i - 1));
        assert(!f64_le(samples[i].0, threshold));
    }
}

/// After the first `n` samples the scan has a zone open exactly when sample
/// `n - 1` lies in a stretch above the threshold, and the zones it closed
/// and the one it holds open are as many as the stretches begun so far.
proof fn lemma_zone_scan_tracks(samples: Seq<(u64, u64)>, threshold: u64, n: int)
    requires
        0 <= n <= samples.len(),
    ensures
        (zone_scan(samples.take(n), threshold).1 is Some) == (n > 0 && in_zone_at(
            samples,
            threshold,
            n - 1,
        )),
        zone_scan(samples.take(n), threshold).0.len() + (if zone_scan(
            samples.take(n),
            threshold,
        ).1 is Some {
            1int
        } else {
            0int
        }) == rising_edges(samples, threshold, n as nat),
    decreases n,
{
    if n > 0 {
        lemma_zone_scan_tracks(samples, threshold, n - 1);
        lemma_in_zone_step(samples, threshold, n - 1);
        assert(samples.take(n).drop_last() =~= samples.take(n - 1));
        assert(samples.take(n).last() == samples[n - 1]);
    }
}

/// The zones of a lap are its stretches above the threshold, one for each
/// sample where such a stretch begins; the last zone reaches the end of the
/// lap exactly when the last sample lies in such a stretch.
pub proof fn lemma_zones_are_stretches(samples: Seq<(u64, u64)>, threshold: u64)
    ensures
        zones_of(samples, threshold).len() == rising_edges(samples, threshold, samples.len()),
        zone_scan(samples, threshold).1 is Some <==> (samples.len() > 0 && in_zone_at(
            samples,
            threshold,
            samples.len() - 1,
        )),
{
    lemma_zone_scan_tracks(samples, threshold, samples.len() as int);
    assert(samples.take(samples.len() as int) =~= samples);
}

/// Every sample from `i` up to, not including, `m` lies in a stretch above
/// the threshold.
pub open spec fn stretch_through(samples: Seq<(u64, u64)>, threshold: u64, i: int, m: int) -> bool {
    forall|q: int| i <= q < m ==> #[trigger] in_zone_at(samples, threshold, q)
}

/// The stretch that sample `i` lies in lasts until sample `m`, the first
/// after it at or below the threshold.
pub open spec fn stretch_closes_at(samples: Seq<(u64, u64)>, threshold: u64, i: int, m: int) -> bool {
    &&& i < m < samples.len()
    &&& stretch_through(samples, threshold, i, m)
    &&& f64_le(samples[m].0, threshold)
}

/// Zone `z` is the stretch above the threshold that begins at sample `i`,
/// the `k`-th to begin (from zero): it starts at that sample's distance and
/// ends at the distance of the sample that closes the stretch, or of the
/// last sample when the stretch lasts to the end.
pub open spec fn zone_from(samples: Seq<(u64, u64)>, threshold: u64, z: Zone, k: nat, i: int) -> bool {
    &&& 0 <= i < samples.len()
    &&& starts_zone(samples, threshold, i)
    &&& rising_edges(samples, threshold, i as nat) == k
    &&& z.start_distance == samples[i].1
    &&& ((exists|m: int| #[trigger] stretch_closes_at(samples, threshold, i, m) && z.end_distance
        == samples[m].1) || (stretch_through(samples, threshold, i, samples.len() as int)
        && z.end_distance == samples.last().1))
}

/// Zone `z` is the `k`-th stretch above the threshold (from zero).
pub open spec fn zone_is_stretch(samples: Seq<(u64, u64)>, threshold: u64, z: Zone, k: nat) -> bool {
    exists|i: int| #[trigger] zone_from(samples, threshold, z, k, i)
}

/// The open zone of a scan over the first `n` samples started at sample
/// `i`, the `k`-th stretch to begin, and has lasted through sample `n - 1`.
spec fn open_from(samples: Seq<(u64, u64)>, threshold: u64, start: u64, k: nat, i: int, n: int) -> bool {
    &&& 0 <= i < n
    &&& starts_zone(samples, threshold, i)
    &&& rising_edges(samples, threshold, i as nat) == k
    &&& start == samples[i].1
    &&& stretch_through(samples, threshold, i, n)
}

/// Each zone the scan over the first `n` samples closed is the stretch of
/// its rank, and its open zone, if any, is the stretch begun last.
proof fn lemma_zone_scan_stretches(samples: Seq<(u64, u64)>, threshold: u64, n: int)
    requires
        0 <= n <= samples.len(),
    ensures
        forall|k: int|
            0 <= k < zone_scan(samples.take(n), threshold).0.len() ==> zone_is_stretch(
                samples,
                threshold,
                #[trigger] zone_scan(samples.take(n), threshold).0[k],
                k as nat,
            ),
        zone_scan(samples.take(n), threshold).1 is Some ==> exists|i: int|
            #[trigger] open_from(
                samples,
                threshold,
                zone_scan(samples.take(n), threshold).1->0,
                zone_scan(samples.take(n), threshold).0.len(),
                i,
                n,
            ),
    decreases n,
{
    if n > 0 {
        lemma_zone_scan_stretches(samples, threshold, n - 1);
        lemma_zone_scan_tracks(samples, threshold, n - 1);
        lemma_zone_scan_tracks(samples, threshold, n);
        lemma_in_zone_step(samples, threshold, n - 1);
        assert(samples.take(n).drop_last() =~= samples.take(n - 1));
        assert(samples.take(n).last() == samples[n - 1]);
        let p = zone_scan(samples.take(n - 1), threshold);
        let c = zone_scan(samples.take(n), threshold);
        let (value, distance) = samples[n - 1];
        match p.1 {
            None => {
                if f64_lt(threshold, value) {
                    assert(c == (p.0, Some(distance)));
                    assert(starts_zone(samples, threshold, n - 1));
                    assert(c.1->0 == distance);
                    assert(open_from(samples, threshold, c.1->0, c.0.len(), n - 1, n));
                } else {
                    assert(c.1 is None);
                }
            },
            Some(start) => {
                let i = choose|i: int| #[trigger]
                    open_from(samples, threshold, start, p.0.len(), i, n - 1);
                if f64_le(value, threshold) {
                    let z = Zone { start_distance: start, end_distance: distance };
                    assert(c.0 == p.0.push(z));
                    assert(c.1 is None);
                    assert(stretch_closes_at(samples, threshold, i, n - 1));
                    assert(zone_from(samples, threshold, z, p.0.len(), i));
                    assert forall|k: int| 0 <= k < c.0.len() implies zone_is_stretch(
                        samples,
                        threshold,
                        #[trigger] c.0[k],
                        k as nat,
                    ) by {
                        if k < p.0.len() {
                            assert(c.0[k] == p.0[k]);
                        }
                    }
                } else {
                    assert(c == p);
                    assert(in_zone_at(samples, threshold, n - 1));
                    assert(c.1->0 == start);
                    assert(open_from(samples, threshold, c.1->0, c.0.len(), i, n));
                }
            },
        }
    } else {
        assert(zone_scan(samples.take(n), threshold).1 is None);
    }
}

/// Each zone of a lap is the stretch above the threshold of the same rank:
/// the `k`-th zone starts at the distance of the sample where the `k`-th
/// stretch begins and ends at the distance of the first sample after it at
/// or below the threshold, or of the last sample when the stretch lasts.
pub proof fn lemma_zone_is_its_stretch(samples: Seq<(u64, u64)>, threshold: u64)
    ensures
        forall|k: int|
            0 <= k < zones_of(samples, threshold).len() ==> zone_is_stretch(
                samples,
                threshold,
                #[trigger] zones_of(samples, threshold)[k],
                k as nat,
            ),
{
    let n = samples.len() as int;
    lemma_zone_scan_stretches(samples, threshold, n);
    assert(samples.take(n) =~= samples);
    let sc = zone_scan(samples, threshold);
    match sc.1 {
        None => {},
        Some(start) => {
            let i = choose|i: int| #[trigger] open_from(samples, threshold, start, sc.0.len(), i, n);
            let z = Zone { start_distance: start, end_distance: samples.last().1 };
            assert(zone_from(samples, threshold, z, sc.0.len(), i));
            assert forall|k: int| 0 <= k < zones_of(samples, threshold).len() implies zone_is_stretch(
                samples,
                threshold,
                #[trigger] zones_of(samples, threshold)[k],
                k as nat,
            ) by {
                if k < sc.0.len() {
                    assert(zones_of(samples, threshold)[k] == sc.0[k]);
                }
            }
        },
    }
}

/// The brake pressure and distance of each sample.
pub open spec fn brake_profile(telemetry: Seq<TelemetrySample>) -> Seq<(u64, u64)> {
    telemetry.map_values(|s: TelemetrySample| (s.brake, s.distance))
}

/// The absolute lateral load and distance of each sample.
pub open spec fn turning_profile(telemetry: Seq<TelemetrySample>) -> Seq<(u64, u64)> {
    telemetry.map_values(|s: TelemetrySample| (f64_abs(s.lat_g), s.distance))
}

/// The zones of `(value, distance)` pairs above a threshold.
fn find_zones(samples: &Vec<(u64, u64)>, threshold: u64) -> (r: Vec<Zone>)
    ensures
        r@ == zones_of(samples@, threshold),
{
    let mut zones: Vec<Zone> = Vec::new();
    let mut open: Option<u64> = None;
    let mut i: usize = 0;
    while i < samples.len()
        invariant
            0 <= i <= samples@.len(),
            (zones@, open) == zone_scan(samples@.take(i as int), threshold),
        decreases samples.len() - i,
    {
        proof {
            assert(samples@.take(i + 1).drop_last() =~= samples@.take(i as int));
        }
        let (value, distance) = samples[i];
        match open {
            None => {
                if f64_bits_lt(threshold, value) {
                    open = Some(distance);
                }
            },
            Some(start) => {
                if f64_bits_le(value, threshold) {
                    zones.push(Zone { start_distance: start, end_distance: distance });
                    open = None;
                }
            },
        }
        i = i + 1;
    }
    proof {
        assert(samples@.take(samples@.len() as int) =~= samples@);
    }
    match open {
        Some(start) => {
            zones.push(Zone { start_distance: start, end_distance: samples[samples.len() - 1].1 });
        },
        None => {},
    }
    zones
}

/// The braking zones of a lap: brake pressure above the threshold.
pub fn find_braking_zones(telemetry: &[TelemetrySample], threshold: u64) -> (r: Vec<Zone>)
    ensures
        r@ == zones_of(brake_profile(telemetry@), threshold),
{
    let mut pairs: Vec<(u64, u64)> = Vec::new();
    let mut i: usize = 0;
    while i < telemetry.len()
        invariant
            0 <= i <= telemetry@.len(),
            pairs@ == brake_profile(telemetry@.take(i as int)),
        decreases telemetry.len() - i,
    {
        pairs.push((telemetry[i].brake, telemetry[i].distance));
        proof {
            assert(pairs@ =~= brake_profile(telemetry@.take(i + 1)));
        }
        i = i + 1;
    }
    proof {
        assert(telemetry@.take(telemetry@.len() as int) =~= telemetry@);
    }
    find_zones(&pairs, threshold)
}

/// The turning zones of a lap: absolute lateral load above the threshold.
pub fn find_turning_zones(telemetry: &[TelemetrySample], threshold: u64) -> (r: Vec<Zone>)
    ensures
        r@ == zones_of(turning_profile(telemetry@), threshold),
{
    let mut pairs: Vec<(u64, u64)> = Vec::new();
    let mut i: usize = 0;
    while i < telemetry.len()
        invariant
            0 <= i <= telemetry@.len(),
            pairs@ == turning_profile(telemetry@.take(i as int)),
        decreases telemetry.len() - i,
    {
        pairs.push((f64_bits_abs(telemetry[i].lat_g), telemetry[i].distance));
        proof {
            assert(pairs@ =~= turning_profile(telemetry@.take(i + 1)));
        }
        i = i + 1;
    }
    proof {
        assert(telemetry@.take(telemetry@.len() as int) =~= telemetry@);
    }
    find_zones(&pairs, threshold)
}

/// A sample is past the turn and on the throttle.
pub open spec fn is_exit_sample(s: TelemetrySample, turn_end_distance: u64, throttle_threshold: u64) -> bool {
    f64_le(turn_end_distance, s.distance) && f64_lt(throttle_threshold, s.throttle)
}

/// The distance of the first sample past the turn with the throttle above
/// the threshold, or the end of the turn when there is none.
pub open spec fn corner_exit(
    telemetry: Seq<TelemetrySample>,
    turn_end_distance: u64,
    throttle_threshold: u64,
) -> u64
    decreases telemetry.len(),
{
    if telemetry.len() == 0 {
        turn_end_distance
    } else if is_exit_sample(telemetry[0], turn_end_distance, throttle_threshold) {
        telemetry[0].distance
    } else {
        corner_exit(telemetry.skip(1), turn_end_distance, throttle_threshold)
    }
}

/// Finds where a corner ends: see [`corner_exit`].
pub fn find_corner_exit(turn_end_distance: u64, telemetry: &[TelemetrySample], throttle_threshold: u64) -> (r:
    u64)
    ensures
        r == corner_exit(telemetry@, turn_end_distance, throttle_threshold),
{
    let mut i: usize = 0;
    assert(telemetry@.skip(0) =~= telemetry@);
    while i < telemetry.len()
        invariant
            0 <= i <= telemetry@.len(),
            corner_exit(telemetry@, turn_end_distance, throttle_threshold) == corner_exit(
                telemetry@.skip(i as int),
                turn_end_distance,
                throttle_threshold,
            ),
        decreases telemetry.len() - i,
    {
        let s = telemetry[i];
        if f64_bits_le(turn_end_distance, s.distance) && f64_bits_lt(throttle_threshold, s.throttle) {
            return s.distance;
        }
        proof {
            assert(telemetry@.skip(i as int).skip(1) =~= telemetry@.skip(i + 1));
        }
        i = i + 1;
    }
    turn_end_distance
}

/// A sample lies within a zone, bounds included.
pub open spec fn in_zone(s: TelemetrySample, zone: Zone) -> bool {
    f64_le(zone.start_distance, s.distance) && f64_le(s.distance, zone.end_distance)
}

/// The lowest speed within the zone and the distance where it was first
/// reached, scanning from positive infinity at the zone's start.
pub open spec fn apex_scan(telemetry: Seq<TelemetrySample>, zone: Zone) -> (u64, u64)
    decreases telemetry.len(),
{
    if telemetry.len() == 0 {
        (F64_INFINITY_BITS, zone.start_distance)
    } else {
        let (min_speed, apex) = apex_scan(telemetry.drop_last(), zone);
        let s = telemetry.last();
        if in_zone(s, zone) && f64_lt(s.speed, min_speed) {
            (s.speed, s.distance)
        } else {
            (min_speed, apex)
        }
    }
}

/// Finds the apex of a turning zone: the distance of its slowest sample,
/// or its start when no sample in it is slower than infinity.
pub fn find_apex_distance(turn_zone: &Zone, telemetry: &[TelemetrySample]) -> (r: u64)
    ensures
        r == apex_scan(telemetry@, *turn_zone).1,
{
    let mut min_speed: u64 = F64_INFINITY_BITS;
    let mut apex: u64 = turn_zone.start_distance;
    let mut i: usize = 0;
    while i < telemetry.len()
        invariant
            0 <= i <= telemetry@.len(),
            (min_speed, apex) == apex_scan(telemetry@.take(i as int), *turn_zone),
        decreases telemetry.len() - i,
    {
        proof {
            assert(telemetry@.take(i + 1).drop_last() =~= telemetry@.take(i as int));
        }
        let s = telemetry[i];
        if f64_bits_le(turn_zone.start_distance, s.distance) && f64_bits_le(
            s.distance,
            turn_zone.end_distance,
        ) && f64_bits_lt(s.speed, min_speed) {
            min_speed = s.speed;
            apex = s.distance;
        }
        i = i + 1;
    }
    proof {
        assert(telemetry@.take(telemetry@.len() as int) =~= telemetry@);
    }
    apex
}

/// The number of brake applications among samples and whether the brake is
/// on after them: a pressure above the threshold with the brake off starts
/// one; one at or below the threshold releases it; NaN changes nothing.
pub open spec fn brake_entries(samples: Seq<TelemetrySample>, threshold: u64) -> (nat, bool)
    decreases samples.len(),
{
    if samples.len() == 0 {
        (0, false)
    } else {
        let (count, on) = brake_entries(samples.drop_last(), threshold);
        let b = samples.last().brake;
        if f64_lt(threshold, b) && !on {
            (count + 1, true)
        } else if f64_le(b, threshold) {
            (count, false)
        } else {
            (count, on)
        }
    }
}

/// Counts the brake applications among the samples of a corner.
pub fn count_brake_apps_in_corner(samples: &[TelemetrySample], threshold: u64) -> (r: usize)
    ensures
        r == brake_entries(samples@, threshold).0,
{
    let mut count: usize = 0;
    let mut on = false;
    let mut i: usize = 0;
    while i < samples.len()
        invariant
            0 <= i <= samples@.len(),
            (count as nat, on) == brake_entries(samples@.take(i as int), threshold),
            count <= i,
        decreases samples.len() - i,
    {
        proof {
            assert(samples@.take(i + 1).drop_last() =~= samples@.take(i as int));
        }
        let b = samples[i].brake;
        if f64_bits_lt(threshold, b) && !on {
            count = count + 1;
            on = true;
        } else if f64_bits_le(b, threshold) {
            on = false;
        }
        i = i + 1;
    }
    proof {
        assert(samples@.take(samples@.len() as int) =~= samples@);
    }
    count
}

} // verus!
