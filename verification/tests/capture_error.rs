use pitwall::capture_error::{CaptureError, GapMarker, GapReason, IpcError};

#[test]
fn test_gap_marker_creation() {
    let marker = GapMarker::new(1000, 1500, GapReason::Stall, Some(1234.5f64.to_bits()));

    assert_eq!(marker.start_time, 1000);
    assert_eq!(marker.end_time, 1500);
    assert_eq!(marker.duration_ms, 500);
    assert_eq!(marker.reason, GapReason::Stall);
    assert_eq!(marker.lap_position.map(f64::from_bits), Some(1234.5));
}

#[test]
fn test_gap_marker_duration_calculation() {
    let marker = GapMarker::new(1000, 1250, GapReason::Disconnect, None);
    assert_eq!(marker.duration_ms, 250);
}

#[test]
fn test_gap_marker_negative_duration_clamped() {
    let marker = GapMarker::new(2000, 1000, GapReason::Unknown, None);
    assert_eq!(marker.duration_ms, 0);
}

#[test]
fn test_gap_marker_is_significant() {
    let small_gap = GapMarker::new(1000, 1400, GapReason::Stall, None);
    assert!(!small_gap.is_significant());

    let large_gap = GapMarker::new(1000, 1600, GapReason::Disconnect, None);
    assert!(large_gap.is_significant());

    let exact_threshold = GapMarker::new(1000, 1500, GapReason::Reset, None);
    assert!(!exact_threshold.is_significant());
}

#[test]
fn test_capture_error_to_ipc_error_stall() {
    let err = CaptureError::IrsdkStall { duration_ms: 250 };
    let ipc = IpcError::from(err);

    assert_eq!(ipc.code, "IRSDK_STALL");
    assert_eq!(ipc.message, "Telemetry data gap detected");
    assert!(ipc.details.unwrap().contains("250ms"));
    assert!(ipc.retryable);
}

#[test]
fn test_capture_error_to_ipc_error_disconnect() {
    let err = CaptureError::IrsdkDisconnect;
    let ipc = IpcError::from(err);

    assert_eq!(ipc.code, "IRSDK_DISCONNECT");
    assert_eq!(ipc.message, "Telemetry connection lost");
    assert!(ipc.retryable);
}

#[test]
fn test_capture_error_to_ipc_error_timeout() {
    let err = CaptureError::IrsdkTimeout { elapsed_s: 30 };
    let ipc = IpcError::from(err);

    assert_eq!(ipc.code, "IRSDK_CONNECTION_LOST");
    assert_eq!(ipc.message, "Telemetry connection lost");
    assert!(ipc.details.unwrap().contains("30 seconds"));
    assert!(!ipc.retryable);
}

#[test]
fn test_capture_error_to_ipc_error_storage() {
    let err = CaptureError::StorageError {
        details: "Disk full".to_string(),
    };
    let ipc = IpcError::from(err);

    assert_eq!(ipc.code, "STORAGE_ERROR");
    assert_eq!(ipc.message, "Failed to save telemetry data");
    assert_eq!(ipc.details, Some("Disk full".to_string()));
    assert!(!ipc.retryable);
}

#[test]
fn test_capture_error_to_ipc_error_resource_exhausted() {
    let err = CaptureError::ResourceExhausted {
        resource: "memory".to_string(),
    };
    let ipc = IpcError::from(err);

    assert_eq!(ipc.code, "RESOURCE_EXHAUSTED");
    assert_eq!(ipc.message, "System resource limit exceeded");
    assert!(ipc.details.unwrap().contains("memory"));
    assert!(!ipc.retryable);
}

#[test]
fn capture_error_display_texts() {
    assert_eq!(
        CaptureError::IrsdkStall { duration_ms: 1200 }.to_string(),
        "IRSDK data stalled for 1200ms"
    );
    assert_eq!(CaptureError::IrsdkDisconnect.to_string(), "IRSDK connection lost");
    assert_eq!(
        CaptureError::IrsdkTimeout { elapsed_s: 30 }.to_string(),
        "IRSDK reconnection timeout after 30s"
    );
    assert_eq!(
        CaptureError::StorageError { details: "Disk full".to_string() }.to_string(),
        "Storage write failed: Disk full"
    );
    assert_eq!(
        CaptureError::ResourceExhausted { resource: "memory".to_string() }.to_string(),
        "Resource limit exceeded: memory"
    );
}

#[test]
fn ipc_error_details_are_exact() {
    let ipc = IpcError::from_capture_error(&CaptureError::IrsdkStall { duration_ms: 0 });
    assert_eq!(ipc.details, Some("Data stalled for 0ms".to_string()));
    let ipc = IpcError::from_capture_error(&CaptureError::IrsdkDisconnect);
    assert_eq!(ipc.details, Some("IRSDK shared memory disconnected".to_string()));
    let ipc = IpcError::from_capture_error(&CaptureError::IrsdkTimeout { elapsed_s: 7 });
    assert_eq!(ipc.details, Some("No response from iRacing after 7 seconds".to_string()));
    let ipc = IpcError::from_capture_error(&CaptureError::ResourceExhausted {
        resource: "disk".to_string(),
    });
    assert_eq!(ipc.details, Some("Resource: disk".to_string()));
}
