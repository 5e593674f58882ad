//! Detection and bookkeeping of gaps in the telemetry stream.

use vstd::prelude::*;
use crate::capture_error::{GapMarker, GapReason, gap_marker_spec};

verus! {

/// Configuration for gap detection.
#[derive(Debug, Clone, Copy, PartialEq, Eq, Structural)]
pub struct GapDetectionConfig {
    /// Threshold in milliseconds for detecting a gap (default 100 ms).
    pub threshold_ms: u64,
}

impl Default for GapDetectionConfig {
    fn default() -> (r: GapDetectionConfig)
        ensures
            r.threshold_ms == 100,
    {
        GapDetectionConfig { threshold_ms: 100 }
    }
}

/// The reason attributed to a gap of the given length: a brief stall
/// (100 to 500 ms), a connection problem (501 to 5000 ms), or unknown.
pub open spec fn gap_reason_for(duration_ms: u64) -> GapReason {
    if 100 <= duration_ms <= 500 {
        GapReason::Stall
    } else if 501 <= duration_ms <= 5000 {
        GapReason::Disconnect
    } else {
        GapReason::Unknown
    }
}

/// Sum of the durations of a sequence of gaps.
pub open spec fn total_duration(gaps: Seq<GapMarker>) -> nat
    decreases gaps.len(),
{
    if gaps.len() == 0 {
        0
    } else {
        total_duration(gaps.drop_last()) + gaps.last().duration_ms as nat
    }
}

/// Number of significant gaps in a sequence of gaps.
pub open spec fn significant_count(gaps: Seq<GapMarker>) -> nat
    decreases gaps.len(),
{
    if gaps.len() == 0 {
        0
    } else {
        significant_count(gaps.drop_last()) + if gaps.last().significant() {
            1nat
        } else {
            0nat
        }
    }
}

/// The abstract state of a gap handler.
pub struct GapHandlerView {
    pub threshold_ms: u64,
    pub gaps: Seq<GapMarker>,
    pub last_sample_time: Option<i64>,
}

/// Tracks gaps for one telemetry capture session.
#[derive(Debug)]
pub struct GapHandler {
    config: GapDetectionConfig,
    gaps: Vec<GapMarker>,
    last_sample_time: Option<i64>,
}

impl View for GapHandler {
    type V = GapHandlerView;

    closed spec fn view(&self) -> GapHandlerView {
        GapHandlerView {
            threshold_ms: self.config.threshold_ms,
            gaps: self.gaps@,
            last_sample_time: self.last_sample_time,
        }
    }
}

/// Whether a sample at `current_time` after one at `last_time` opens a gap:
/// the time between them exceeds the threshold.
pub open spec fn opens_gap(threshold_ms: u64, last_time: i64, current_time: i64) -> bool {
    current_time - last_time > (threshold_ms as i64)
}

/// The gap that a sample at `current_time` after one at `last_time` records.
pub open spec fn detected_gap(last_time: i64, current_time: i64, lap_position: Option<u64>) -> GapMarker {
    gap_marker_spec(
        last_time,
        current_time,
        gap_reason_for((current_time - last_time) as u64),
        lap_position,
    )
}

impl GapHandler {
    /// Creates a gap handler with the default configuration.
    pub fn new() -> (r: GapHandler)
        ensures
            r@.threshold_ms == 100,
            r@.gaps == Seq::<GapMarker>::empty(),
            r@.last_sample_time is None,
    {
        GapHandler::with_config(GapDetectionConfig::default())
    }

    /// Creates a gap handler with a custom configuration.
    pub fn with_config(config: GapDetectionConfig) -> (r: GapHandler)
        ensures
            r@.threshold_ms == config.threshold_ms,
            r@.gaps == Seq::<GapMarker>::empty(),
            r@.last_sample_time is None,
    {
        GapHandler { config, gaps: Vec::new(), last_sample_time: None }
    }

    /// Returns the configured threshold in milliseconds.
    pub fn threshold_ms(&self) -> (r: u64)
        ensures
            r == self@.threshold_ms,
    {
        self.config.threshold_ms
    }

    /// The time of the last sample seen, if any.
    pub fn last_sample_time(&self) -> (r: Option<i64>)
        ensures
            r == self@.last_sample_time,
    {
        self.last_sample_time
    }

    /// Checks for a gap between the last sample and a sample at `current_time`.
    /// When the time since the last sample exceeds the threshold, the gap is
    /// recorded and returned. The sample becomes the last sample either way.
    pub fn check_gap(&mut self, current_time: i64, lap_position: Option<u64>) -> (r: Option<
        GapMarker,
    >)
        requires
            old(self)@.last_sample_time matches Some(last) ==> i64::MIN <= current_time - last
                <= i64::MAX,
        ensures
            final(self)@.threshold_ms == old(self)@.threshold_ms,
            final(self)@.last_sample_time == Some(current_time),
            match old(self)@.last_sample_time {
                Some(last) => if opens_gap(old(self)@.threshold_ms, last, current_time) {
                    &&& r == Some(detected_gap(last, current_time, lap_position))
                    &&& final(self)@.gaps == old(self)@.gaps.push(
                        detected_gap(last, current_time, lap_position),
                    )
                } else {
                    r is None && final(self)@.gaps == old(self)@.gaps
                },
                None => r is None && final(self)@.gaps == old(self)@.gaps,
            },
    {
        if let Some(last_time) = self.last_sample_time {
            let delta = current_time - last_time;
            if delta > self.config.threshold_ms as i64 {
                let reason = classify_gap_reason(delta as u64);
                let gap = GapMarker::new(last_time, current_time, reason, lap_position);
                self.gaps.push(gap);
                self.last_sample_time = Some(current_time);
                return Some(gap);
            }
        }
        self.last_sample_time = Some(current_time);
        None
    }

    /// Records a gap that is known from elsewhere (e.g. a disconnection).
    pub fn record_gap(&mut self, gap: GapMarker)
        ensures
            final(self)@.threshold_ms == old(self)@.threshold_ms,
            final(self)@.last_sample_time == old(self)@.last_sample_time,
            final(self)@.gaps == old(self)@.gaps.push(gap),
    {
        self.gaps.push(gap);
    }

    /// Returns all gaps recorded so far, oldest first.
    pub fn gaps(&self) -> (r: &[GapMarker])
        ensures
            r@ == self@.gaps,
    {
        self.gaps.as_slice()
    }

    /// Returns the number of gaps recorded.
    pub fn gap_count(&self) -> (r: usize)
        ensures
            r == self@.gaps.len(),
    {
        self.gaps.len()
    }

    /// Returns the total duration of all gaps in milliseconds.
    pub fn total_gap_duration_ms(&self) -> (r: u64)
        requires
            total_duration(self@.gaps) <= u64::MAX,
        ensures
            r == total_duration(self@.gaps),
    {
        let mut total: u64 = 0;
        let mut i: usize = 0;
        while i < self.gaps.len()
            invariant
                0 <= i <= self.gaps@.len(),
                total == total_duration(self.gaps@.take(i as int)),
                total_duration(self.gaps@) <= u64::MAX,
            decreases self.gaps.len() - i,
        {
            proof {
                assert(self.gaps@.take(i + 1).drop_last() =~= self.gaps@.take(i as int));
                lemma_total_duration_prefix(self.gaps@, i + 1);
            }
            total = total + self.gaps[i].duration_ms;
            i = i + 1;
        }
        proof {
            assert(self.gaps@.take(self.gaps@.len() as int) =~= self.gaps@);
        }
        total
    }

    /// Returns the number of significant gaps (longer than 500 ms).
    pub fn significant_gap_count(&self) -> (r: usize)
        ensures
            r == significant_count(self@.gaps),
    {
        let mut count: usize = 0;
        let mut i: usize = 0;
        while i < self.gaps.len()
            invariant
                0 <= i <= self.gaps@.len(),
                count == significant_count(self.gaps@.take(i as int)),
                count <= i,
            decreases self.gaps.len() - i,
        {
            proof {
                assert(self.gaps@.take(i + 1).drop_last() =~= self.gaps@.take(i as int));
            }
            if self.gaps[i].is_significant() {
                count = count + 1;
            }
            i = i + 1;
        }
        proof {
            assert(self.gaps@.take(self.gaps@.len() as int) =~= self.gaps@);
        }
        count
    }

    /// Resets the handler for a new session: no gaps, no last sample.
    pub fn reset(&mut self)
        ensures
            final(self)@.threshold_ms == old(self)@.threshold_ms,
            final(self)@.gaps == Seq::<GapMarker>::empty(),
            final(self)@.last_sample_time is None,
    {
        self.gaps.clear();
        self.last_sample_time = None;
    }
}

/// Classifies a gap by its length in milliseconds.
pub fn classify_gap_reason(duration_ms: u64) -> (r: GapReason)
    ensures
        r == gap_reason_for(duration_ms),
{
    if 100 <= duration_ms && duration_ms <= 500 {
        GapReason::Stall
    } else if 501 <= duration_ms && duration_ms <= 5000 {
        GapReason::Disconnect
    } else {
        GapReason::Unknown
    }
}

impl Default for GapHandler {
    fn default() -> (r: GapHandler)
        ensures
            r@.threshold_ms == 100,
            r@.gaps == Seq::<GapMarker>::empty(),
            r@.last_sample_time is None,
    {
        GapHandler::new()
    }
}

/// The total duration of a prefix of gaps is at most that of the whole.
pub proof fn lemma_total_duration_prefix(gaps: Seq<GapMarker>, n: int)
    requires
        0 <= n <= gaps.len(),
    ensures
        total_duration(gaps.take(n)) <= total_duration(gaps),
    decreases gaps.len(),
{
    if n < gaps.len() {
        assert(gaps.drop_last().take(n) =~= gaps.take(n));
        lemma_total_duration_prefix(gaps.drop_last(), n);
    } else {
        assert(gaps.take(n) =~= gaps);
    }
}

} // verus!
