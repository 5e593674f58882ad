//! Lap boundaries: where the track position crosses the start/finish line
//! (from above 0.9 to below 0.1), on the live stream together with the
//! simulator's lap counter, and in imported files. Track positions and lap
//! times in seconds are double-precision values given by their bits.

use vstd::prelude::*;
use crate::float_bits::{f64_lt, f64_bits_lt};
use crate::types::{NewLap, NewLapView};

verus! {

/// Bits of 0.9: a crossing leaves a track position above this.
pub const LINE_END_BITS: u64 = 0x3feccccccccccccd;

/// Bits of 0.1: a crossing lands on a track position below this.
pub const LINE_START_BITS: u64 = 0x3fb999999999999a;

/// Shortest lap an import keeps, exclusive: five seconds.
pub const MIN_IMPORTED_LAP_MS: i64 = 5000;

/// Longest lap an import keeps, exclusive: ten minutes.
pub const MAX_IMPORTED_LAP_MS: i64 = 600_000;

/// Two consecutive track positions cross the start/finish line.
pub open spec fn crosses_line(prev: u64, curr: u64) -> bool {
    f64_lt(LINE_END_BITS, prev) && f64_lt(curr, LINE_START_BITS)
}

/// The indices of the samples that complete a line crossing, in order.
pub open spec fn line_crossings(positions: Seq<u64>) -> Seq<usize>
    decreases positions.len(),
{
    if positions.len() < 2 {
        Seq::empty()
    } else {
        let prior = line_crossings(positions.drop_last());
        if crosses_line(positions[positions.len() - 2], positions.last()) {
            prior.push((positions.len() - 1) as usize)
        } else {
            prior
        }
    }
}

/// Finds the samples at which the track position crosses the start/finish line.
pub fn find_line_crossings(positions: &[u64]) -> (r: Vec<usize>)
    ensures
        r@ == line_crossings(positions@),
{
    let mut crossings: Vec<usize> = Vec::new();
    if positions.len() < 2 {
        return crossings;
    }
    let mut i: usize = 1;
    proof {
        assert(line_crossings(positions@.take(1)) =~= Seq::empty());
    }
    while i < positions.len()
        invariant
            1 <= i <= positions@.len(),
            crossings@ == line_crossings(positions@.take(i as int)),
        decreases positions.len() - i,
    {
        proof {
            let t = positions@.take(i + 1);
            assert(t.drop_last() =~= positions@.take(i as int));
            assert(t[t.len() - 2] == positions@[i - 1]);
        }
        if f64_bits_lt(LINE_END_BITS, positions[i - 1]) && f64_bits_lt(positions[i], LINE_START_BITS) {
            crossings.push(i);
        }
        i = i + 1;
    }
    proof {
        assert(positions@.take(positions@.len() as int) =~= positions@);
    }
    crossings
}

/// An imported lap keeps its time when it lasts more than five seconds and
/// less than ten minutes.
pub open spec fn plausible_lap_time(lap_time_ms: i64) -> bool {
    MIN_IMPORTED_LAP_MS < lap_time_ms < MAX_IMPORTED_LAP_MS
}

/// The laps an import records from the times between line crossings: the
/// plausible ones, numbered from 1 in order, complete and valid, with the
/// session left blank for the caller to fill in.
pub open spec fn imported_laps(lap_times_ms: Seq<i64>) -> Seq<NewLapView>
    decreases lap_times_ms.len(),
{
    if lap_times_ms.len() == 0 {
        Seq::empty()
    } else {
        let prior = imported_laps(lap_times_ms.drop_last());
        let t = lap_times_ms.last();
        if plausible_lap_time(t) {
            prior.push(
                NewLapView {
                    session_id: Seq::empty(),
                    lap_number: (prior.len() + 1) as i32,
                    lap_time_ms: t,
                    is_valid: true,
                    completion_status: "complete"@,
                },
            )
        } else {
            prior
        }
    }
}

/// At most one lap per lap time.
proof fn lemma_imported_laps_len(lap_times_ms: Seq<i64>)
    ensures
        imported_laps(lap_times_ms).len() <= lap_times_ms.len(),
    decreases lap_times_ms.len(),
{
    if lap_times_ms.len() > 0 {
        lemma_imported_laps_len(lap_times_ms.drop_last());
    }
}

/// Builds the laps of an imported session from the times between
/// consecutive line crossings (the first measured from the first sample).
pub fn laps_from_lap_times(lap_times_ms: &[i64]) -> (r: Vec<NewLap>)
    requires
        lap_times_ms@.len() < i32::MAX,
    ensures
        r@.map_values(|l: NewLap| l@) == imported_laps(lap_times_ms@),
{
    let mut laps: Vec<NewLap> = Vec::new();
    let mut lap_number: i32 = 1;
    let mut i: usize = 0;
    while i < lap_times_ms.len()
        invariant
            0 <= i <= lap_times_ms@.len(),
            lap_times_ms@.len() < i32::MAX,
            laps@.map_values(|l: NewLap| l@) == imported_laps(lap_times_ms@.take(i as int)),
            lap_number == laps@.len() + 1,
        decreases lap_times_ms.len() - i,
    {
        proof {
            assert(lap_times_ms@.take(i + 1).drop_last() =~= lap_times_ms@.take(i as int));
            lemma_imported_laps_len(lap_times_ms@.take(i as int));
        }
        let t = lap_times_ms[i];
        if MIN_IMPORTED_LAP_MS < t && t < MAX_IMPORTED_LAP_MS {
            let lap = NewLap {
                session_id: String::new(),
                lap_number,
                lap_time_ms: t,
                is_valid: true,
                completion_status: "complete".to_owned(),
            };
            laps.push(lap);
            lap_number = lap_number + 1;
        }
        proof {
            assert(laps@.map_values(|l: NewLap| l@) =~= imported_laps(
                lap_times_ms@.take(i + 1),
            ));
        }
        i = i + 1;
    }
    proof {
        assert(lap_times_ms@.take(lap_times_ms@.len() as int) =~= lap_times_ms@);
    }
    laps
}

/// A completed lap found on the live stream.
#[derive(Debug, Clone, Copy, PartialEq, Eq, Structural)]
pub struct LapBoundary {
    /// The lap that was completed.
    pub lap_number: i32,
    /// Whether the simulator reported a positive time for it.
    pub is_valid: bool,
}

/// Lap boundary tracking on the live stream: the previous track position
/// and lap counter, and the lap being driven.
#[derive(Debug, Clone, Copy, PartialEq, Eq, Structural)]
pub struct LapBoundaryTracker {
    pub prev_lap_dist_pct: Option<u64>,
    pub prev_lap_number: Option<i32>,
    pub current_lap: i32,
}

/// The tracker before any sample.
pub open spec fn initial_tracker() -> LapBoundaryTracker {
    LapBoundaryTracker { prev_lap_dist_pct: None, prev_lap_number: None, current_lap: 0 }
}

/// One sample's effect: the first sample only starts tracking; later, a line
/// crossing or a rise of the lap counter completes the current lap, valid
/// when the last lap time is positive.
pub open spec fn tracker_step(
    s: LapBoundaryTracker,
    lap_dist_pct: u64,
    lap_number: i32,
    lap_last_lap_time: u64,
) -> (LapBoundaryTracker, Option<LapBoundary>) {
    match (s.prev_lap_dist_pct, s.prev_lap_number) {
        (Some(prev_dist), Some(prev_lap)) => {
            let boundary = crosses_line(prev_dist, lap_dist_pct) || lap_number > prev_lap;
            let next = LapBoundaryTracker {
                prev_lap_dist_pct: Some(lap_dist_pct),
                prev_lap_number: Some(lap_number),
                current_lap: if boundary {
                    lap_number
                } else {
                    s.current_lap
                },
            };
            if boundary {
                (
                    next,
                    Some(
                        LapBoundary {
                            lap_number: s.current_lap,
                            is_valid: f64_lt(0, lap_last_lap_time),
                        },
                    ),
                )
            } else {
                (next, None)
            }
        },
        _ => (
            LapBoundaryTracker {
                prev_lap_dist_pct: Some(lap_dist_pct),
                prev_lap_number: Some(lap_number),
                current_lap: lap_number,
            },
            None,
        ),
    }
}

impl LapBoundaryTracker {
    /// A tracker that has seen no sample.
    pub fn new() -> (r: Self)
        ensures
            r == initial_tracker(),
    {
        LapBoundaryTracker { prev_lap_dist_pct: None, prev_lap_number: None, current_lap: 0 }
    }

    /// Takes one sample: the track position, the simulator's lap counter and
    /// its last lap time (seconds, bits); returns the completed lap, if any.
    pub fn process_sample(&mut self, lap_dist_pct: u64, lap_number: i32, lap_last_lap_time: u64) -> (r:
        Option<LapBoundary>)
        ensures
            (*final(self), r) == tracker_step(*old(self), lap_dist_pct, lap_number, lap_last_lap_time),
    {
        match (self.prev_lap_dist_pct, self.prev_lap_number) {
            (Some(prev_dist), Some(prev_lap)) => {
                let crossed = f64_bits_lt(LINE_END_BITS, prev_dist) && f64_bits_lt(
                    lap_dist_pct,
                    LINE_START_BITS,
                );
                let counter_rose = lap_number > prev_lap;
                self.prev_lap_dist_pct = Some(lap_dist_pct);
                self.prev_lap_number = Some(lap_number);
                if crossed || counter_rose {
                    let completed = self.current_lap;
                    self.current_lap = lap_number;
                    Some(
                        LapBoundary {
                            lap_number: completed,
                            is_valid: f64_bits_lt(0, lap_last_lap_time),
                        },
                    )
                } else {
                    None
                }
            },
            _ => {
                self.prev_lap_dist_pct = Some(lap_dist_pct);
                self.prev_lap_number = Some(lap_number);
                self.current_lap = lap_number;
                None
            },
        }
    }

    /// Forgets all samples, as for a new session.
    pub fn reset(&mut self)
        ensures
            *final(self) == initial_tracker(),
    {
        self.prev_lap_dist_pct = None;
        self.prev_lap_number = None;
        self.current_lap = 0;
    }
}

} // verus!
