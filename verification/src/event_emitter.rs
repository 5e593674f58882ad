//! Emission of capture events to the user interface.
//!
//! The engine does not depend on the UI layer: the layer implements
//! `CaptureEventEmitter`, and these helpers decide what to emit.

use vstd::prelude::*;
use crate::capture_error::{CaptureError, IpcError, IpcErrorView, ipc_error_spec};
use crate::reconnection::ReconnectionStatus;

verus! {

/// Event emission interface for capture events, implemented by the UI layer.
pub trait CaptureEventEmitter: Send + Sync {
    /// What this emitter guarantees of the result of emitting a reconnection
    /// attempt with these arguments. An emitter that guarantees nothing keeps
    /// the default, which holds of every result.
    open spec fn reconnecting_outcome(
        &self,
        attempt_number: u32,
        max_attempts: u32,
        elapsed_ms: u64,
        r: Result<(), String>,
    ) -> bool {
        true
    }

    /// What this emitter guarantees of the result of emitting the capture
    /// error with this content. An emitter that guarantees nothing keeps the
    /// default, which holds of every result.
    open spec fn capture_error_outcome(&self, error: IpcErrorView, r: Result<(), String>) -> bool {
        true
    }

    /// Emits a reconnection attempt event.
    fn emit_reconnecting(&self, attempt_number: u32, max_attempts: u32, elapsed_ms: u64) -> (r:
        Result<(), String>)
        ensures
            self.reconnecting_outcome(attempt_number, max_attempts, elapsed_ms, r),
    ;

    /// Emits a successful reconnection event.
    fn emit_reconnected(&self, gap_duration_ms: u64) -> Result<(), String>;

    /// Emits a capture error event.
    fn emit_capture_error(
        &self,
        code: String,
        message: String,
        details: Option<String>,
        retryable: bool,
    ) -> (r: Result<(), String>)
        ensures
            self.capture_error_outcome(
                (IpcErrorView {
                    code: code@,
                    message: message@,
                    details: match details {
                        Some(d) => Some(d@),
                        None => None,
                    },
                    retryable,
                }),
                r,
            ),
    ;

    /// Emits a session completion event.
    fn emit_session_completed(
        &self,
        session_id: String,
        lap_count: i32,
        duration_ms: u64,
        status: String,
        gap_count: usize,
    ) -> Result<(), String>;
}

/// The arguments of the reconnecting event that a reconnection status calls
/// for: an attempt in progress is reported, a manager that is not
/// reconnecting reports nothing.
pub open spec fn reconnecting_event_spec(status: ReconnectionStatus) -> Option<(u32, u32, u64)> {
    match status {
        ReconnectionStatus::Attempting { attempt_number, max_attempts, elapsed_ms } => Some(
            (attempt_number, max_attempts, elapsed_ms),
        ),
        ReconnectionStatus::NotReconnecting => None,
    }
}

/// Returns the arguments of the reconnecting event to emit for a status, if any.
pub fn reconnecting_event(status: &ReconnectionStatus) -> (r: Option<(u32, u32, u64)>)
    ensures
        r == reconnecting_event_spec(*status),
{
    match status {
        ReconnectionStatus::Attempting { attempt_number, max_attempts, elapsed_ms } => Some(
            (*attempt_number, *max_attempts, *elapsed_ms),
        ),
        ReconnectionStatus::NotReconnecting => None,
    }
}

/// Emits a reconnection status as an event: an attempt in progress is passed
/// to `emit_reconnecting` with its attempt number, maximum and elapsed time
/// (see `reconnecting_event`), whose result is returned; otherwise nothing is
/// emitted and the result is `Ok`.
pub fn emit_reconnection_status<E: CaptureEventEmitter>(
    emitter: &E,
    status: &ReconnectionStatus,
) -> (r: Result<(), String>)
    ensures
        match reconnecting_event_spec(*status) {
            Some((attempt_number, max_attempts, elapsed_ms)) => emitter.reconnecting_outcome(
                attempt_number,
                max_attempts,
                elapsed_ms,
                r,
            ),
            None => r is Ok,
        },
{
    match reconnecting_event(status) {
        Some((attempt_number, max_attempts, elapsed_ms)) => emitter.emit_reconnecting(
            attempt_number,
            max_attempts,
            elapsed_ms,
        ),
        None => Ok(()),
    }
}

/// Emits a capture error as an event: the fields of its IPC error (see
/// `IpcError::from_capture_error`) are passed to `emit_capture_error`, whose
/// result is returned.
pub fn emit_capture_error<E: CaptureEventEmitter>(emitter: &E, error: &CaptureError) -> (r: Result<
    (),
    String,
>)
    ensures
        emitter.capture_error_outcome(ipc_error_spec(*error), r),
{
    let ipc_error = IpcError::from_capture_error(error);
    emitter.emit_capture_error(
        ipc_error.code,
        ipc_error.message,
        ipc_error.details,
        ipc_error.retryable,
    )
}

} // verus!
