use pitwall::channels::{ibt_channel_mapping, irsdk_channel_mapping};
use pitwall::ibt::{
    parse_header, parse_session_info, parse_var_headers, read_fixed_string, read_i32,
    read_var_as_bool, read_var_as_i32, read_var_bits, record_count, IbtVarType, VarBits,
};
use pitwall::session_info::extract_metadata;
use pitwall::storage_error::StorageError;

const SESSION_INFO: &[u8] = b"---\nWeekendInfo:\n  TrackDisplayName: Lime Rock Park\n  TrackDisplayShortName: Lime Rock\nDriverInfo:\n  Drivers:\n    - CarScreenName: Mazda MX-5 Cup\n      CarScreenNameShort: MX-5\nSessionInfo:\n  Sessions:\n    - SessionType: Practice\n      SimSetupDate: 2026-02-07\n---\n\0";

fn put_i32(buf: &mut [u8], at: usize, v: i32) {
    buf[at..at + 4].copy_from_slice(&v.to_le_bytes());
}

fn test_ibt_bytes(num_samples: usize) -> Vec<u8> {
    let vars: [(&str, i32, i32); 10] = [
        ("Speed", 4, 0),
        ("Throttle", 4, 4),
        ("Brake", 4, 8),
        ("Gear", 2, 12),
        ("SessionTime", 5, 16),
        ("LapDistPct", 4, 24),
        ("LapDist", 4, 28),
        ("RPM", 4, 32),
        ("LapCurrentLapTime", 4, 36),
        ("SteeringWheelAngle", 4, 40),
    ];
    let record_len = 48i32;
    let session_info_offset = 112i32;
    let session_info_length = SESSION_INFO.len() as i32;
    let var_header_offset = session_info_offset + session_info_length;
    let data_offset = var_header_offset + vars.len() as i32 * 144;

    let mut out = vec![0u8; 112];
    put_i32(&mut out, 0, 1);
    put_i32(&mut out, 4, 1);
    put_i32(&mut out, 8, 60);
    put_i32(&mut out, 16, session_info_length);
    put_i32(&mut out, 20, session_info_offset);
    put_i32(&mut out, 24, vars.len() as i32);
    put_i32(&mut out, 28, var_header_offset);
    put_i32(&mut out, 32, 1);
    put_i32(&mut out, 36, record_len);
    put_i32(&mut out, 52, data_offset);
    out.extend_from_slice(SESSION_INFO);
    for (name, ty, offset) in vars.iter() {
        let mut vh = vec![0u8; 144];
        put_i32(&mut vh, 0, *ty);
        put_i32(&mut vh, 4, *offset);
        put_i32(&mut vh, 8, 1);
        vh[16..16 + name.len()].copy_from_slice(name.as_bytes());
        out.extend_from_slice(&vh);
    }
    for i in 0..num_samples {
        let mut rec = vec![0u8; record_len as usize];
        let t = i as f64 / 60.0;
        rec[0..4].copy_from_slice(&40.0f32.to_le_bytes());
        rec[4..8].copy_from_slice(&0.8f32.to_le_bytes());
        put_i32(&mut rec, 12, 4);
        rec[16..24].copy_from_slice(&t.to_le_bytes());
        out.extend_from_slice(&rec);
    }
    out
}

#[test]
fn header_of_a_synthetic_file() {
    let data = test_ibt_bytes(10);
    let h = parse_header(&data).unwrap();
    assert_eq!(h.version, 1);
    assert_eq!(h.tick_rate, 60);
    assert_eq!(h.session_info_offset, 112);
    assert_eq!(h.session_info_length, SESSION_INFO.len() as i32);
    assert_eq!(h.num_vars, 10);
    assert_eq!(h.num_buf, 1);
    assert_eq!(h.buf_len, 48);
    assert_eq!(record_count(data.len(), &h).unwrap(), 10);
}

#[test]
fn short_file_is_refused() {
    let r = parse_header(&[0u8; 20]);
    assert!(matches!(r, Err(StorageError::ParseError(_))));
}

#[test]
fn session_info_and_metadata_of_a_synthetic_file() {
    let data = test_ibt_bytes(3);
    let h = parse_header(&data).unwrap();
    let info = parse_session_info(&data, &h).unwrap();
    assert!(info.starts_with("---\nWeekendInfo:"));
    assert!(!info.contains('\0'));
    let m = extract_metadata(&info, "/tmp/test.ibt", None).unwrap();
    assert_eq!(m.track_name, "Lime Rock Park");
    assert_eq!(m.car_name, "Mazda MX-5 Cup");
    assert_eq!(m.session_type, "practice");
    assert_eq!(m.started_at, "2026-02-07T00:00:00Z");
    assert_eq!(m.ended_at, None);
    assert_eq!(m.import_source, "/tmp/test.ibt");
    assert_eq!(m.import_format, "ibt");
}

#[test]
fn variable_headers_and_values() {
    let data = test_ibt_bytes(5);
    let h = parse_header(&data).unwrap();
    let vars = parse_var_headers(&data, &h).unwrap();
    assert_eq!(vars.len(), 10);
    assert_eq!(vars[0].name, "Speed");
    assert_eq!(vars[0].var_type, IbtVarType::Float);
    assert_eq!(vars[3].name, "Gear");
    assert_eq!(vars[3].var_type, IbtVarType::Int);
    assert_eq!(vars[4].var_type, IbtVarType::Double);
    assert_eq!(vars[9].name, "SteeringWheelAngle");

    let start = h.buf_offset as usize;
    let second = &data[start + 48..start + 96];
    assert_eq!(read_var_as_i32(second, &vars[3]).unwrap(), 4);
    assert_eq!(read_var_bits(second, &vars[0]), Some(VarBits::F32(40.0f32.to_bits())));
    assert_eq!(
        read_var_bits(second, &vars[4]),
        Some(VarBits::F64((1.0f64 / 60.0).to_bits()))
    );
    assert!(read_var_as_bool(second, &vars[0]).unwrap());
    assert!(!read_var_as_bool(second, &vars[2]).unwrap());
    assert_eq!(read_var_as_i32(second, &vars[0]).unwrap(), 40);
}

#[test]
fn record_count_errors() {
    let data = test_ibt_bytes(0);
    let h = parse_header(&data).unwrap();
    assert_eq!(
        record_count(data.len(), &h),
        Err(StorageError::ParseError(
            "No telemetry data records found in .ibt file".to_string()
        ))
    );
    assert_eq!(
        record_count(10, &h),
        Err(StorageError::ParseError(format!(
            "Invalid .ibt file: data offset ({}) exceeds file size (10)",
            h.buf_offset
        )))
    );
}

#[test]
fn low_level_reads() {
    let data = [1u8, 0, 0, 0, 0xff, 0xff, 0xff, 0xff, b'a', b'b', 0, b'c'];
    assert_eq!(read_i32(&data, 0).unwrap(), 1);
    assert_eq!(read_i32(&data, 4).unwrap(), -1);
    assert!(matches!(read_i32(&data, 10), Err(StorageError::ParseError(_))));
    assert_eq!(read_fixed_string(&data, 8, 4).unwrap(), "ab");
    assert!(read_fixed_string(&data, 8, 5).is_err());
    assert_eq!(IbtVarType::from_i32(5), Some(IbtVarType::Double));
    assert_eq!(IbtVarType::from_i32(6), None);
    assert_eq!(IbtVarType::Double.byte_size(), 8);
    assert_eq!(IbtVarType::Bool.byte_size(), 1);
}

#[test]
fn ibt_mapping_names_canonical_channels() {
    let m = ibt_channel_mapping();
    assert_eq!(m.get("Speed"), Some(&"speed"));
    assert_eq!(m.get("LapDistPct"), Some(&"track_position"));
    assert_eq!(m.get("Nope"), None);
}

#[test]
fn test_channel_mapping_has_all_channels() {
    let mapping = irsdk_channel_mapping();

    assert!(mapping.contains_key("Speed"));
    assert!(mapping.contains_key("Throttle"));
    assert!(mapping.contains_key("Brake"));
    assert!(mapping.contains_key("Gear"));
    assert!(mapping.contains_key("SessionTime"));

    assert!(mapping.len() >= 28);
}

#[test]
fn test_channel_mapping_values_match_schema() {
    let mapping = irsdk_channel_mapping();

    assert_eq!(mapping.get("Speed"), Some(&"speed"));
    assert_eq!(mapping.get("Throttle"), Some(&"throttle"));
    assert_eq!(mapping.get("Brake"), Some(&"brake"));
    assert_eq!(mapping.get("SteeringWheelAngle"), Some(&"steering"));
}

#[test]
fn metadata_from_crlf_lines_with_unicode_spaces() {
    let info = "---\r\nWeekendInfo:\r\n TrackDisplayName: Spa\u{a0}\r\n WeekendOptions:\r\n  SimSetupDate: 2025-05-04\r\nDriverInfo:\r\n Drivers:\r\n - CarScreenName: GT3 R \r\n";
    let m = extract_metadata(info, "x.ibt", None).unwrap();
    assert_eq!(m.track_name, "Spa");
    assert_eq!(m.car_name, "GT3 R");
    assert_eq!(m.started_at, "2025-05-04T00:00:00Z");
}
