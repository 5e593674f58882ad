use pitwall::import::{import_step, ImportAction, ImportEvent, ImportState};
use pitwall::validation::{integrity_plan, IntegrityPlan};
use pitwall::float_bits::{f32_bits_nonzero, f32_bits_to_i32, f64_bits_nonzero, f64_bits_to_i32};
use pitwall::import::{
    import_format_for_extension, lap_stats, supported_import_formats, BatchImportResult,
    ImportFormat, ImportResult,
};
use pitwall::irsdk_types::{read_bool, read_double_bits, read_float_bits, read_int, IrsdkHeader, VarBuf};
use pitwall::pitwall_export::{
    default_completion_status, default_is_valid, import_from_export, PitwallExportMetadata,
    PitwallLapMeta, PitwallSessionMeta,
};
use pitwall::session_store::{
    apply_soft_delete, checksum_source, has_telemetry, list_sessions_query, merge_debrief_update,
    merge_session_update, plan_restore, plan_soft_delete, restore_outcome, session_stats_query,
    soft_delete_outcome, telemetry_source,
};
use pitwall::storage_error::StorageError;
use pitwall::telemetry_files::{
    is_orphaned_temp, telemetry_channels, telemetry_file_name, temp_file_name, SCHEMA_VERSION,
};
use pitwall::types::{
    AiDebrief, DebriefUpdate, FilterOptions, ListOptions, NewLap, Session, SessionUpdate,
};

fn session(status: &str) -> Session {
    Session {
        id: "s1".to_string(),
        track_name: "Spa".to_string(),
        car_name: "GT3".to_string(),
        session_type: "practice".to_string(),
        started_at: "2025-01-01T10:00:00.000Z".to_string(),
        ended_at: None,
        lap_count: 3,
        best_lap_time_ms: Some(120_000),
        status: status.to_string(),
        telemetry_checksum: Some("abc".to_string()),
        telemetry_path: Some("/data/telemetry/s1.parquet".to_string()),
        created_at: "2025-01-01T10:00:00.000Z".to_string(),
        updated_at: "2025-01-01T10:00:00.000Z".to_string(),
        deleted_at: None,
        previous_status: None,
        integrity_status: None,
        integrity_details: None,
        integrity_validated_at: None,
        import_source: None,
        import_format: None,
    }
}

#[test]
fn list_query_without_filters() {
    let (sql, binds) = list_sessions_query(&FilterOptions::default());
    assert!(sql.ends_with("WHERE status != 'deleted' ORDER BY started_at DESC LIMIT $1 OFFSET $2"));
    assert!(binds.is_empty());
    let opts = ListOptions::default();
    assert_eq!((opts.limit, opts.offset), (50, 0));
}

#[test]
fn list_query_with_all_filters() {
    let filters = FilterOptions {
        track: Some("Spa".to_string()),
        car: Some("GT3".to_string()),
        session_type: Some("race".to_string()),
        date_start: Some("2025-01-01".to_string()),
        date_end: Some("2025-12-31".to_string()),
    };
    let (sql, binds) = list_sessions_query(&filters);
    assert!(sql.ends_with(
        " AND track_name = $1 AND car_name = $2 AND session_type = $3 AND started_at >= $4 AND started_at <= $5 ORDER BY started_at DESC LIMIT $6 OFFSET $7"
    ));
    assert_eq!(binds, vec!["Spa", "GT3", "race", "2025-01-01", "2025-12-31"]);
}

#[test]
fn test_filter_by_session_type() {
    for kind in ["race", "qualifying", "practice"] {
        let filters = FilterOptions { session_type: Some(kind.to_string()), ..Default::default() };
        let (sql, binds) = list_sessions_query(&filters);
        assert!(sql.ends_with(
            "WHERE status != 'deleted' AND session_type = $1 ORDER BY started_at DESC LIMIT $2 OFFSET $3"
        ));
        assert_eq!(binds, vec![kind]);
    }
}

#[test]
fn stats_query_with_some_filters() {
    let filters = FilterOptions {
        track: None,
        car: Some("GT3".to_string()),
        session_type: None,
        date_start: None,
        date_end: Some("2025-12-31".to_string()),
    };
    let (sql, binds) = session_stats_query(&filters);
    assert!(sql.starts_with("SELECT COUNT(*) as total"));
    assert!(sql.ends_with("WHERE status != 'deleted' AND car_name = $1 AND started_at <= $2"));
    assert_eq!(binds, vec!["GT3", "2025-12-31"]);
}

#[test]
fn session_update_merges_given_fields() {
    let s = session("active");
    let update = SessionUpdate {
        status: Some("completed".to_string()),
        ended_at: Some("2025-01-01T11:00:00.000Z".to_string()),
        ..Default::default()
    };
    let c = merge_session_update(Some(&s), "s1", update).unwrap();
    assert_eq!(c.status, "completed");
    assert_eq!(c.ended_at.as_deref(), Some("2025-01-01T11:00:00.000Z"));
    assert_eq!(c.lap_count, 3);
    assert_eq!(c.best_lap_time_ms, Some(120_000));

    let r = merge_session_update(None, "missing", SessionUpdate::default());
    assert_eq!(r.err(), Some(StorageError::NotFound("missing".to_string())));
}

#[test]
fn debrief_update_merges_given_texts() {
    let d = AiDebrief {
        id: "d1".to_string(),
        session_id: "s1".to_string(),
        coaching_text: Some("old".to_string()),
        insights_json: Some("[1]".to_string()),
        recommendations_json: None,
        provider_name: None,
        model_name: None,
        trigger_type: None,
        data_range_from_ms: None,
        data_range_to_ms: None,
        created_at: "t".to_string(),
        updated_at: "t".to_string(),
    };
    let update = DebriefUpdate {
        coaching_text: Some("new".to_string()),
        ..Default::default()
    };
    let c = merge_debrief_update(Some(&d), "d1", update).unwrap();
    assert_eq!(c.coaching_text.as_deref(), Some("new"));
    assert_eq!(c.insights_json.as_deref(), Some("[1]"));
    assert_eq!(c.recommendations_json, None);
    assert!(merge_debrief_update(None, "d9", DebriefUpdate::default()).is_err());
}

#[test]
fn soft_delete_decisions() {
    let r = soft_delete_outcome(Some(&session("completed")), "s1", "2025-02-01T00:00:00.000Z").unwrap();
    assert_eq!(r.session_id, "s1");
    assert_eq!(r.deleted_at, "2025-02-01T00:00:00.000Z");
    assert_eq!(
        soft_delete_outcome(Some(&session("deleted")), "s1", "now").err(),
        Some(StorageError::AlreadyDeleted("s1".to_string()))
    );
    assert_eq!(
        soft_delete_outcome(None, "s2", "now").err(),
        Some(StorageError::NotFound("s2".to_string()))
    );
    assert!(plan_soft_delete(Some(&session("active")), "s1").is_ok());
    assert!(plan_soft_delete(Some(&session("deleted")), "s1").is_err());
}

/// Seconds in a day.
const DAY: i64 = 86_400;

#[test]
fn restore_decisions() {
    let mut s = session("deleted");
    s.deleted_at = Some("2025-01-01T00:00:00.000Z".to_string());
    s.previous_status = Some("partial".to_string());
    let secs = 1_735_689_600i64;
    let deleted = (secs, 0u32);
    let r = restore_outcome(Some(&s), "s1", Some(deleted), (secs + 30 * DAY, 0)).unwrap();
    assert_eq!(r.restored_status, "partial");
    assert_eq!(r.session_id, "s1");
    let r = restore_outcome(Some(&s), "s1", Some(deleted), (secs + 31 * DAY - 1, 999_999_999));
    assert!(r.is_ok());
    // Within the last millisecond before 31 days: still restorable, to the nanosecond.
    let r = restore_outcome(Some(&s), "s1", Some((secs, 500_000)), (secs + 31 * DAY, 400_000));
    assert!(r.is_ok());
    assert_eq!(
        restore_outcome(Some(&s), "s1", Some(deleted), (secs + 31 * DAY, 0)).err(),
        Some(StorageError::RestoreExpired("s1".to_string()))
    );
    assert_eq!(
        restore_outcome(Some(&s), "s1", None, deleted).err(),
        Some(StorageError::InvalidInput(
            "Invalid deleted_at timestamp: 2025-01-01T00:00:00.000Z".to_string()
        ))
    );
    s.previous_status = None;
    assert_eq!(
        restore_outcome(Some(&s), "s1", Some(deleted), deleted).unwrap().restored_status,
        "completed"
    );
    s.deleted_at = None;
    assert_eq!(
        restore_outcome(Some(&s), "s1", Some(deleted), deleted).err(),
        Some(StorageError::InvalidInput(
            "Session s1 is marked deleted but has no deleted_at timestamp".to_string()
        ))
    );
    assert_eq!(
        restore_outcome(Some(&session("active")), "s1", None, (0, 0)).err(),
        Some(StorageError::NotDeleted("s1".to_string()))
    );
    assert_eq!(
        restore_outcome(None, "s3", None, (0, 0)).err(),
        Some(StorageError::NotFound("s3".to_string()))
    );
}

#[test]
fn restore_now_reads_both_time_layouts() {
    let mut s = session("deleted");
    s.deleted_at = Some(
        chrono::Utc::now()
            .format("%Y-%m-%dT%H:%M:%S%.3fZ")
            .to_string(),
    );
    assert_eq!(plan_restore(Some(&s), "s1").unwrap().restored_status, "completed");
    s.deleted_at = Some("2000-01-01T00:00:00+00:00".to_string());
    assert_eq!(
        plan_restore(Some(&s), "s1").err(),
        Some(StorageError::RestoreExpired("s1".to_string()))
    );
    s.deleted_at = Some("yesterday".to_string());
    assert_eq!(
        plan_restore(Some(&s), "s1").err(),
        Some(StorageError::InvalidInput("Invalid deleted_at timestamp: yesterday".to_string()))
    );
}

#[test]
fn telemetry_locations() {
    let s = session("completed");
    assert!(has_telemetry(&s));
    let (path, checksum) = telemetry_source(Some(&s), "s1").unwrap();
    assert_eq!(path, "/data/telemetry/s1.parquet");
    assert_eq!(checksum.as_deref(), Some("abc"));
    assert_eq!(checksum_source(Some(&s), "s1").unwrap().1, "abc");

    let mut t = session("completed");
    t.telemetry_checksum = None;
    assert_eq!(
        checksum_source(Some(&t), "s1").err(),
        Some(StorageError::NotFound("No checksum for session s1".to_string()))
    );
    t.telemetry_path = Some(String::new());
    assert!(!has_telemetry(&t));
    t.telemetry_path = None;
    assert_eq!(
        telemetry_source(Some(&t), "s1").err(),
        Some(StorageError::NotFound("No telemetry for session s1".to_string()))
    );
    assert_eq!(
        telemetry_source(None, "x").err(),
        Some(StorageError::NotFound("x".to_string()))
    );
}

#[test]
fn telemetry_file_names() {
    assert_eq!(telemetry_file_name("abc"), "abc.parquet");
    assert_eq!(temp_file_name("abc"), "abc.parquet.tmp");
    assert!(is_orphaned_temp("abc.parquet.tmp"));
    assert!(!is_orphaned_temp("abc.parquet"));
    assert!(!is_orphaned_temp("tmp"));
    assert_eq!(SCHEMA_VERSION, "1");
    let channels = telemetry_channels();
    assert_eq!(channels.len(), 35);
    assert_eq!(channels[0], "timestamp_ms");
    assert_eq!(channels[9], "gear");
    assert_eq!(channels[34], "track_position");
}

fn export_meta(version: &str) -> PitwallExportMetadata {
    PitwallExportMetadata {
        pitwall_version: Some("0.1.0".to_string()),
        schema_version: version.to_string(),
        session: PitwallSessionMeta {
            track_name: "Spa".to_string(),
            car_name: "GT3".to_string(),
            session_type: "race".to_string(),
            started_at: "2025-01-01T10:00:00.000Z".to_string(),
            ended_at: Some("2025-01-01T11:00:00.000Z".to_string()),
            lap_count: Some(2),
            best_lap_time_ms: None,
            status: None,
        },
        laps: vec![
            PitwallLapMeta {
                lap_number: 1,
                lap_time_ms: 125_000,
                is_valid: default_is_valid(),
                completion_status: default_completion_status(),
            },
            PitwallLapMeta {
                lap_number: 2,
                lap_time_ms: 121_500,
                is_valid: false,
                completion_status: "invalid".to_string(),
            },
        ],
    }
}

#[test]
fn export_metadata_becomes_a_session() {
    assert!(default_is_valid());
    assert_eq!(default_completion_status(), "complete");
    let (m, laps) = import_from_export(export_meta("1"), "/x/s.parquet".to_string()).unwrap();
    assert_eq!(m.track_name, "Spa");
    assert_eq!(m.ended_at.as_deref(), Some("2025-01-01T11:00:00.000Z"));
    assert_eq!(m.import_source, "/x/s.parquet");
    assert_eq!(m.import_format, "pitwall_export");
    assert_eq!(laps.len(), 2);
    assert_eq!(laps[0].session_id, "");
    assert_eq!(laps[0].lap_time_ms, 125_000);
    assert!(laps[0].is_valid);
    assert_eq!(laps[1].completion_status, "invalid");
    assert_eq!(
        import_from_export(export_meta("2"), String::new()).err(),
        Some(StorageError::SchemaMismatch(
            "This export was created with a newer version of Pitwall".to_string()
        ))
    );
}

fn new_lap(n: i32, t: i64, valid: bool) -> NewLap {
    NewLap {
        session_id: String::new(),
        lap_number: n,
        lap_time_ms: t,
        is_valid: valid,
        completion_status: "complete".to_string(),
    }
}

#[test]
fn import_formats_and_lap_statistics() {
    assert_eq!(supported_import_formats(), vec![".ibt", ".parquet"]);
    assert_eq!(import_format_for_extension("IBT").unwrap(), ImportFormat::Ibt);
    assert_eq!(import_format_for_extension("parquet").unwrap(), ImportFormat::PitwallExport);
    assert_eq!(
        import_format_for_extension("CSV").err(),
        Some(StorageError::UnsupportedFormat("Unsupported file extension: .csv".to_string()))
    );
    assert_eq!(
        import_format_for_extension("").err(),
        Some(StorageError::UnsupportedFormat("Unsupported file extension: .".to_string()))
    );
    let laps = vec![new_lap(1, 90_000, true), new_lap(2, 80_000, false), new_lap(3, 85_000, true)];
    assert_eq!(lap_stats(&laps), (3, Some(85_000)));
    assert_eq!(lap_stats(&[]), (0, None));
    assert_eq!(lap_stats(&[new_lap(1, 1, false)]), (1, None));
}

#[test]
fn batch_tallies() {
    let mut b = BatchImportResult::new(3);
    assert_eq!(
        b.record(ImportResult::Success { session_id: "a".to_string(), lap_count: 2 }),
        "success"
    );
    assert_eq!(
        b.record(ImportResult::Duplicate { existing_session_id: "b".to_string() }),
        "duplicate_skipped"
    );
    assert_eq!(
        b.record(ImportResult::Failed { error: "e".to_string(), file_path: "f".to_string() }),
        "failed"
    );
    assert_eq!((b.total, b.succeeded, b.duplicates_skipped, b.failed), (3, 1, 1, 1));
    assert_eq!(b.results.len(), 3);
}

#[test]
fn shared_memory_buffers_and_reads() {
    let buf = |tick: i32| VarBuf { tick_count: tick, buf_offset: 0, _pad: [0; 2] };
    let mut h = IrsdkHeader {
        version: 2,
        status: 1,
        tick_rate: 60,
        session_info_update: 0,
        session_info_len: 0,
        session_info_offset: 0,
        num_vars: 0,
        var_header_offset: 0,
        num_buf: 3,
        buf_len: 0,
        _pad1: [0; 2],
        var_buf: [buf(5), buf(9), buf(7), buf(100)],
    };
    assert!(h.is_valid());
    assert_eq!(h.latest_buffer_index(), 1);
    h.num_buf = 4;
    assert_eq!(h.latest_buffer_index(), 3);
    h.num_buf = 0;
    assert_eq!(h.latest_buffer_index(), 0);
    h.version = 0;
    assert!(!h.is_valid());

    let mut data = vec![0u8; 16];
    data[0..4].copy_from_slice(&(-7i32).to_le_bytes());
    data[4..8].copy_from_slice(&1.5f32.to_le_bytes());
    data[8..16].copy_from_slice(&2.25f64.to_le_bytes());
    assert_eq!(read_int(&data, 0), Some(-7));
    assert_eq!(read_int(&data, 13), None);
    assert_eq!(read_float_bits(&data, 4).map(f32::from_bits), Some(1.5));
    assert_eq!(read_double_bits(&data, 8).map(f64::from_bits), Some(2.25));
    assert_eq!(read_double_bits(&data, 9), None);
    assert_eq!(read_bool(&data, 0), Some(true));
    assert_eq!(read_bool(&data, 15), Some(true));
    assert_eq!(read_bool(&data, 16), None);
}

#[test]
fn float_bit_conversions_truncate_like_casts() {
    for v in [0.0f32, 1.9, -1.9, 40.0, 2.5e9, -2.5e9, f32::NAN, f32::INFINITY] {
        assert_eq!(f32_bits_to_i32(v.to_bits()), v as i32);
        assert_eq!(f32_bits_nonzero(v.to_bits()), v != 0.0);
    }
    for v in [0.0f64, -0.0, 123.999, -7.5, 1e300, f64::NAN, f64::NEG_INFINITY] {
        assert_eq!(f64_bits_to_i32(v.to_bits()), v as i32);
        assert_eq!(f64_bits_nonzero(v.to_bits()), v != 0.0);
    }
    assert!(!f32_bits_nonzero((-0.0f32).to_bits()));
}

#[test]
fn restore_gives_back_the_status_before_deletion() {
    let s = session("partial");
    let t = apply_soft_delete(&s, "2025-03-01T00:00:00.000Z");
    assert_eq!(t.status, "deleted");
    assert_eq!(t.previous_status.as_deref(), Some("partial"));
    assert_eq!(t.deleted_at.as_deref(), Some("2025-03-01T00:00:00.000Z"));
    assert_eq!(t.id, s.id);
    let secs = 1_740_787_200i64;
    let r = restore_outcome(Some(&t), "s1", Some((secs, 0)), (secs + 3 * DAY, 0)).unwrap();
    assert_eq!(r.restored_status, "partial");
    assert_eq!(
        soft_delete_outcome(Some(&t), "s1", "later").err(),
        Some(StorageError::AlreadyDeleted("s1".to_string()))
    );
}

#[test]
fn write_result_describes_the_file_contents() {
    let r = pitwall::telemetry_files::write_result(std::path::PathBuf::from("/data/telemetry/s1.parquet"), b"abc", 7);
    assert_eq!(r.path, std::path::PathBuf::from("/data/telemetry/s1.parquet"));
    assert_eq!(r.size_bytes, 3);
    assert_eq!(r.checksum, "ba7816bf8f01cfea414140de5dae2223b00361a396177a9cb410ff61f20015ad");
    assert_eq!(r.row_count, 7);
}

#[test]
fn import_steps_skip_duplicates_and_roll_back_failed_writes() {
    let (s, a) = import_step(ImportState::Start { force_duplicate: false }, ImportEvent::Begin);
    assert_eq!(s, ImportState::AwaitDuplicateCheck);
    assert!(matches!(a, ImportAction::CheckDuplicate));
    let (s2, a) = import_step(s, ImportEvent::DuplicateChecked(Some("old".to_string())));
    assert_eq!(s2, ImportState::Finished);
    assert!(matches!(a, ImportAction::ReportDuplicate(ref id) if id == "old"));
    let (s, a) = import_step(s, ImportEvent::DuplicateChecked(None));
    assert_eq!(s, ImportState::AwaitSessionInsert);
    assert!(matches!(a, ImportAction::InsertSession));
    let (s, a) = import_step(s, ImportEvent::SessionInserted);
    assert_eq!(s, ImportState::AwaitTelemetry);
    assert!(matches!(a, ImportAction::WriteTelemetry));
    let (failed, a) = import_step(s, ImportEvent::TelemetryWritten(false));
    assert_eq!(failed, ImportState::Finished);
    assert!(matches!(a, ImportAction::RollBack));
    let (s, a) = import_step(s, ImportEvent::TelemetryWritten(true));
    assert_eq!(s, ImportState::AwaitLaps);
    assert!(matches!(a, ImportAction::StoreLapsAndComplete));
    let (s, a) = import_step(s, ImportEvent::LapsStored);
    assert_eq!(s, ImportState::Finished);
    assert!(matches!(a, ImportAction::ReportSuccess));
    let (s, a) = import_step(ImportState::Start { force_duplicate: true }, ImportEvent::Begin);
    assert_eq!(s, ImportState::AwaitSessionInsert);
    assert!(matches!(a, ImportAction::InsertSession));
    let (s, a) = import_step(s, ImportEvent::LapsStored);
    assert_eq!(s, ImportState::AwaitSessionInsert);
    assert!(matches!(a, ImportAction::Ignore));
}

#[test]
fn integrity_plan_needs_path_checksum_and_file() {
    assert_eq!(integrity_plan(true, true, true), IntegrityPlan::ChecksumThenScan);
    assert_eq!(integrity_plan(false, true, true), IntegrityPlan::LapsOnly);
    assert_eq!(integrity_plan(true, false, true), IntegrityPlan::LapsOnly);
    assert_eq!(integrity_plan(true, true, false), IntegrityPlan::LapsOnly);
}
