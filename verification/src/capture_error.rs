//! Capture errors, their IPC contract, and gap markers.

use vstd::prelude::*;
use crate::text::{decimal, u64_to_decimal};

verus! {

/// Reason for a telemetry gap.
#[derive(Debug, Clone, Copy, PartialEq, Eq, Structural)]
pub enum GapReason {
    Disconnect,
    Stall,
    Reset,
    Unknown,
}

/// Marker for a gap in telemetry data.
///
/// `lap_position` carries the track position at the gap (meters from the
/// start/finish line) as the bit pattern of an IEEE-754 double; the library
/// never reads it, it only hands it on.
#[derive(Debug, Clone, Copy, PartialEq, Eq, Structural)]
pub struct GapMarker {
    pub start_time: i64,
    pub end_time: i64,
    pub duration_ms: u64,
    pub reason: GapReason,
    pub lap_position: Option<u64>,
}

/// Length of the interval from `start` to `end` in milliseconds, zero when
/// the interval is empty or reversed.
pub open spec fn gap_duration(start: int, end: int) -> nat {
    if end > start {
        (end - start) as nat
    } else {
        0
    }
}

/// The gap marker for an interval: its duration is the clamped length of the interval.
pub open spec fn gap_marker_spec(
    start_time: i64,
    end_time: i64,
    reason: GapReason,
    lap_position: Option<u64>,
) -> GapMarker {
    GapMarker {
        start_time,
        end_time,
        duration_ms: gap_duration(start_time as int, end_time as int) as u64,
        reason,
        lap_position,
    }
}

/// Threshold above which a gap is significant, in milliseconds.
pub const SIGNIFICANT_GAP_MS: u64 = 500;

impl GapMarker {
    /// Creates a gap marker; a reversed interval has duration zero.
    pub fn new(start_time: i64, end_time: i64, reason: GapReason, lap_position: Option<u64>) -> (r:
        GapMarker)
        requires
            i64::MIN <= end_time - start_time <= i64::MAX,
        ensures
            r == gap_marker_spec(start_time, end_time, reason, lap_position),
    {
        let delta = end_time - start_time;
        let duration_ms: u64 = if delta > 0 {
            delta as u64
        } else {
            0
        };
        GapMarker { start_time, end_time, duration_ms, reason, lap_position }
    }

    /// A gap is significant when it lasts more than 500 ms.
    pub open spec fn significant(&self) -> bool {
        self.duration_ms > SIGNIFICANT_GAP_MS
    }

    /// Returns true if this gap lasts more than 500 ms.
    pub fn is_significant(&self) -> (r: bool)
        ensures
            r == self.significant(),
    {
        self.duration_ms > SIGNIFICANT_GAP_MS
    }
}

/// Capture-specific errors that can occur during telemetry collection.
#[derive(Debug, Clone, PartialEq)]
pub enum CaptureError {
    IrsdkStall { duration_ms: u64 },
    IrsdkDisconnect,
    IrsdkTimeout { elapsed_s: u32 },
    StorageError { details: String },
    ResourceExhausted { resource: String },
}

impl CaptureError {
    /// The human-readable description of the error.
    pub open spec fn message_spec(&self) -> Seq<char> {
        match self {
            CaptureError::IrsdkStall { duration_ms } => "IRSDK data stalled for "@ + decimal(
                *duration_ms as nat,
            ) + "ms"@,
            CaptureError::IrsdkDisconnect => "IRSDK connection lost"@,
            CaptureError::IrsdkTimeout { elapsed_s } => "IRSDK reconnection timeout after "@
                + decimal(*elapsed_s as nat) + "s"@,
            CaptureError::StorageError { details } => "Storage write failed: "@ + details@,
            CaptureError::ResourceExhausted { resource } => "Resource limit exceeded: "@
                + resource@,
        }
    }

    /// Describes the error in words, as its display text.
    pub fn to_string(&self) -> (s: String)
        ensures
            s@ == self.message_spec(),
    {
        match self {
            CaptureError::IrsdkStall { duration_ms } => {
                let mut s = "IRSDK data stalled for ".to_owned();
                let d = u64_to_decimal(*duration_ms);
                s.append(d.as_str());
                s.append("ms");
                s
            },
            CaptureError::IrsdkDisconnect => "IRSDK connection lost".to_owned(),
            CaptureError::IrsdkTimeout { elapsed_s } => {
                let mut s = "IRSDK reconnection timeout after ".to_owned();
                let d = u64_to_decimal(*elapsed_s as u64);
                s.append(d.as_str());
                s.append("s");
                s
            },
            CaptureError::StorageError { details } => {
                let mut s = "Storage write failed: ".to_owned();
                s.append(details.as_str());
                s
            },
            CaptureError::ResourceExhausted { resource } => {
                let mut s = "Resource limit exceeded: ".to_owned();
                s.append(resource.as_str());
                s
            },
        }
    }
}

/// IPC error contract struct for cross-process communication.
#[derive(Debug, Clone, PartialEq)]
pub struct IpcError {
    pub code: String,
    pub message: String,
    pub details: Option<String>,
    pub retryable: bool,
}

/// The character-level content of an IPC error.
pub struct IpcErrorView {
    pub code: Seq<char>,
    pub message: Seq<char>,
    pub details: Option<Seq<char>>,
    pub retryable: bool,
}

impl View for IpcError {
    type V = IpcErrorView;

    open spec fn view(&self) -> IpcErrorView {
        IpcErrorView {
            code: self.code@,
            message: self.message@,
            details: match self.details {
                Some(d) => Some(d@),
                None => None,
            },
            retryable: self.retryable,
        }
    }
}

/// The IPC error that a capture error is reported as.
pub open spec fn ipc_error_spec(err: CaptureError) -> IpcErrorView {
    match err {
        CaptureError::IrsdkStall { duration_ms } => IpcErrorView {
            code: "IRSDK_STALL"@,
            message: "Telemetry data gap detected"@,
            details: Some("Data stalled for "@ + decimal(duration_ms as nat) + "ms"@),
            retryable: true,
        },
        CaptureError::IrsdkDisconnect => IpcErrorView {
            code: "IRSDK_DISCONNECT"@,
            message: "Telemetry connection lost"@,
            details: Some("IRSDK shared memory disconnected"@),
            retryable: true,
        },
        CaptureError::IrsdkTimeout { elapsed_s } => IpcErrorView {
            code: "IRSDK_CONNECTION_LOST"@,
            message: "Telemetry connection lost"@,
            details: Some("No response from iRacing after "@ + decimal(elapsed_s as nat) + " seconds"@),
            retryable: false,
        },
        CaptureError::StorageError { details } => IpcErrorView {
            code: "STORAGE_ERROR"@,
            message: "Failed to save telemetry data"@,
            details: Some(details@),
            retryable: false,
        },
        CaptureError::ResourceExhausted { resource } => IpcErrorView {
            code: "RESOURCE_EXHAUSTED"@,
            message: "System resource limit exceeded"@,
            details: Some("Resource: "@ + resource@),
            retryable: false,
        },
    }
}

impl IpcError {
    /// Converts a capture error into its IPC error, taking ownership.
    pub fn from(err: CaptureError) -> (r: IpcError)
        ensures
            r@ == ipc_error_spec(err),
    {
        IpcError::from_capture_error(&err)
    }

    /// Builds the IPC error for a capture error.
    pub fn from_capture_error(err: &CaptureError) -> (r: IpcError)
        ensures
            r@ == ipc_error_spec(*err),
    {
        match err {
            CaptureError::IrsdkStall { duration_ms } => {
                let mut d = "Data stalled for ".to_owned();
                let n = u64_to_decimal(*duration_ms);
                d.append(n.as_str());
                d.append("ms");
                IpcError {
                    code: "IRSDK_STALL".to_owned(),
                    message: "Telemetry data gap detected".to_owned(),
                    details: Some(d),
                    retryable: true,
                }
            },
            CaptureError::IrsdkDisconnect => IpcError {
                code: "IRSDK_DISCONNECT".to_owned(),
                message: "Telemetry connection lost".to_owned(),
                details: Some("IRSDK shared memory disconnected".to_owned()),
                retryable: true,
            },
            CaptureError::IrsdkTimeout { elapsed_s } => {
                let mut d = "No response from iRacing after ".to_owned();
                let n = u64_to_decimal(*elapsed_s as u64);
                d.append(n.as_str());
                d.append(" seconds");
                IpcError {
                    code: "IRSDK_CONNECTION_LOST".to_owned(),
                    message: "Telemetry connection lost".to_owned(),
                    details: Some(d),
                    retryable: false,
                }
            },
            CaptureError::StorageError { details } => IpcError {
                code: "STORAGE_ERROR".to_owned(),
                message: "Failed to save telemetry data".to_owned(),
                details: Some(details.clone()),
                retryable: false,
            },
            CaptureError::ResourceExhausted { resource } => {
                let mut d = "Resource: ".to_owned();
                d.append(resource.as_str());
                IpcError {
                    code: "RESOURCE_EXHAUSTED".to_owned(),
                    message: "System resource limit exceeded".to_owned(),
                    details: Some(d),
                    retryable: false,
                }
            },
        }
    }
}

} // verus!
