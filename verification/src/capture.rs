//! Decisions of the capture engine: its configuration, frame pacing and
//! downsampling, when the ring buffer is flushed, and how connection events
//! start and stop capture. The threads that read frames, sleep and call the
//! flush callback run these decisions.

use vstd::prelude::*;

verus! {

/// Configuration of the capture engine.
#[derive(Debug, Clone, Copy, PartialEq, Eq, Structural)]
pub struct CaptureConfig {
    /// Sample rate in Hz (10-120 valid range, default 60).
    pub sample_rate: u32,
    /// Ring buffer capacity (default 18000 = 5 minutes at 60Hz).
    pub buffer_capacity: usize,
}

impl Default for CaptureConfig {
    /// Sixty samples a second into a buffer of five minutes.
    fn default() -> (r: CaptureConfig)
        ensures
            r.sample_rate == 60,
            r.buffer_capacity == 18_000,
    {
        CaptureConfig { sample_rate: 60, buffer_capacity: 18_000 }
    }
}

/// The simulator's own tick rate, in Hz.
pub const IRSDK_TICK_RATE: u32 = 60;

/// Seconds between two periodic flushes of the ring buffer.
pub const FLUSH_INTERVAL_SECS: u64 = 30;

/// The state of the connection to the simulator.
#[derive(Debug, Clone, Copy, PartialEq, Eq, Structural)]
pub enum ConnectionStatus {
    Disconnected,
    Connected,
}

/// Why the ring buffer is being flushed.
#[derive(Debug, Clone, Copy, PartialEq, Eq, Structural)]
pub enum FlushType {
    /// Periodic flush during capture.
    Periodic,
    /// Final flush when the session ends.
    SessionEnd,
}

/// What the capture engine does in answer to a connection event.
#[derive(Debug, Clone, Copy, PartialEq, Eq, Structural)]
pub enum CaptureAction {
    /// Nothing.
    Ignore,
    /// Start capturing.
    Start,
    /// Stop capturing.
    Stop,
}

/// The pause between two samples, in microseconds.
pub fn sample_interval_micros(sample_rate: u32) -> (r: u64)
    requires
        sample_rate > 0,
    ensures
        r == 1_000_000int / (sample_rate as int),
{
    1_000_000 / sample_rate as u64
}

/// How many simulator frames make one sample: the tick rate over the sample
/// rate where the simulator is faster, else every frame.
pub open spec fn downsample_ratio_spec(tick_rate: u32, sample_rate: u32) -> u32 {
    if tick_rate > sample_rate {
        (tick_rate / sample_rate) as u32
    } else {
        1
    }
}

/// How many simulator frames make one sample.
pub fn downsample_ratio(tick_rate: u32, sample_rate: u32) -> (r: u32)
    requires
        sample_rate > 0,
    ensures
        r == downsample_ratio_spec(tick_rate, sample_rate),
        r >= 1,
{
    if tick_rate > sample_rate {
        assert(tick_rate / sample_rate >= 1) by (nonlinear_arith)
            requires
                tick_rate > sample_rate,
                sample_rate > 0,
        ;
        tick_rate / sample_rate
    } else {
        1
    }
}

/// Whether the frame with this number is skipped: with a ratio above one,
/// only every ratio-th frame is read.
pub fn skips_frame(frame_counter: u64, ratio: u32) -> (r: bool)
    ensures
        r == (ratio > 1 && frame_counter % (ratio as u64) != 0),
{
    ratio > 1 && frame_counter % (ratio as u64) != 0
}

/// Whether enough time has passed for the next sample.
pub fn sample_due(elapsed_micros: u64, interval_micros: u64) -> (r: bool)
    ensures
        r == (elapsed_micros >= interval_micros),
{
    elapsed_micros >= interval_micros
}

/// Whether the flush thread drains the buffer now: it holds samples, and
/// either the flush interval has passed or the buffer has reached its
/// threshold.
pub open spec fn should_flush_spec(elapsed_ms: u64, buffered: usize, threshold: usize) -> bool {
    (elapsed_ms >= FLUSH_INTERVAL_SECS * 1000 || buffered >= threshold) && buffered > 0
}

/// Whether the flush thread drains the buffer now.
pub fn should_flush(elapsed_ms: u64, buffered: usize, threshold: usize) -> (r: bool)
    ensures
        r == should_flush_spec(elapsed_ms, buffered, threshold),
{
    (elapsed_ms >= FLUSH_INTERVAL_SECS * 1000 || buffered >= threshold) && buffered > 0
}

/// Refuses to start a capture that is already running.
pub fn check_can_start(is_capturing: bool) -> (r: Result<(), String>)
    ensures
        is_capturing <==> r is Err,
        r matches Err(m) ==> m@ == "Capture already running"@,
{
    if is_capturing {
        Err("Capture already running".to_owned())
    } else {
        Ok(())
    }
}

/// The engine's answer to a connection event: with automatic start on, a
/// connection starts capture and a disconnection stops it; with it off,
/// events are ignored.
pub open spec fn connection_action_spec(auto_start: bool, status: ConnectionStatus) -> CaptureAction {
    if !auto_start {
        CaptureAction::Ignore
    } else {
        match status {
            ConnectionStatus::Connected => CaptureAction::Start,
            ConnectionStatus::Disconnected => CaptureAction::Stop,
        }
    }
}

/// The engine's answer to a connection event.
pub fn connection_action(auto_start: bool, status: ConnectionStatus) -> (r: CaptureAction)
    ensures
        r == connection_action_spec(auto_start, status),
{
    if !auto_start {
        CaptureAction::Ignore
    } else {
        match status {
            ConnectionStatus::Connected => CaptureAction::Start,
            ConnectionStatus::Disconnected => CaptureAction::Stop,
        }
    }
}

/// The status that a poll of the simulator observes.
pub open spec fn observed_status(is_connected: bool) -> ConnectionStatus {
    if is_connected {
        ConnectionStatus::Connected
    } else {
        ConnectionStatus::Disconnected
    }
}

/// One poll of the connection: the new status when it differs from the last
/// one, to be published as an event; `None` when nothing changed.
pub fn poll_connection(last: ConnectionStatus, is_connected: bool) -> (r: Option<ConnectionStatus>)
    ensures
        observed_status(is_connected) == last ==> r is None,
        observed_status(is_connected) != last ==> r == Some(observed_status(is_connected)),
{
    let new_status = if is_connected {
        ConnectionStatus::Connected
    } else {
        ConnectionStatus::Disconnected
    };
    let changed = match (new_status, last) {
        (ConnectionStatus::Connected, ConnectionStatus::Connected) => false,
        (ConnectionStatus::Disconnected, ConnectionStatus::Disconnected) => false,
        _ => true,
    };
    if changed {
        Some(new_status)
    } else {
        None
    }
}

} // verus!
