use pitwall::frame_decoder::{check_frame_offsets, decode_frame, frame_timestamp, find_var, RawValue, TimeReading};
use pitwall::irsdk_types::IrsdkVarHeader;
use pitwall::sample::SessionState;

fn var(name: &str, var_type: i32, offset: i32) -> IrsdkVarHeader {
    let mut n = [0u8; 32];
    n[..name.len()].copy_from_slice(name.as_bytes());
    IrsdkVarHeader {
        var_type,
        offset,
        count: 1,
        count_as_time: false,
        _pad: [0; 3],
        name: n,
        desc: [0; 64],
        unit: [0; 32],
    }
}

fn put(data: &mut [u8], offset: usize, bytes: &[u8]) {
    data[offset..offset + bytes.len()].copy_from_slice(bytes);
}

#[test]
fn decodes_channels_state_temperatures_and_weather() {
    let headers = vec![
        var("SessionTime", 5, 0),
        var("Speed", 4, 8),
        var("Gear", 2, 12),
        var("BrakeABSactive", 1, 16),
        var("dcTractionControl", 2, 20),
        var("SessionState", 2, 24),
        var("TrackTemp", 4, 28),
        var("Skies", 2, 32),
    ];
    let mut data = vec![0u8; 36];
    put(&mut data, 0, &12.5f64.to_le_bytes());
    put(&mut data, 8, &55.25f32.to_le_bytes());
    put(&mut data, 12, &3i32.to_le_bytes());
    data[16] = 1;
    put(&mut data, 20, &7i32.to_le_bytes());
    put(&mut data, 24, &5i32.to_le_bytes());
    put(&mut data, 28, &31.5f32.to_le_bytes());
    put(&mut data, 32, &(-2i32).to_le_bytes());
    assert!(check_frame_offsets(&headers));
    let f = decode_frame(&headers, &data);
    assert_eq!(f.session_time, Some(TimeReading::Double(12.5f64.to_bits())));
    assert_eq!(f.channels.len(), 34);
    assert_eq!(f.channels[0], Some(RawValue::Double(12.5f64.to_bits())));
    assert_eq!(f.channels[1], None); // no LapDist variable
    assert_eq!(f.channels[3], Some(RawValue::Float(55.25f32.to_bits())));
    assert_eq!(f.channels[8], Some(RawValue::Int(3)));
    assert_eq!(f.channels[31], Some(RawValue::Bool(true)));
    assert_eq!(f.channels[32], Some(RawValue::Bool(true)));
    assert_eq!(f.session_state, SessionState::Pitting);
    assert_eq!(f.track_temp, Some(31.5f32.to_bits()));
    assert_eq!(f.air_temp, None);
    assert_eq!(f.weather.as_deref(), Some("skies_-2"));
}

#[test]
fn float_session_time_short_buffer_and_last_name_wins() {
    let headers = vec![var("SessionTime", 4, 0), var("Speed", 4, 100), var("Speed", 4, 4), var("SessionState", 2, 40)];
    let mut data = vec![0u8; 8];
    put(&mut data, 0, &1.5f32.to_le_bytes());
    put(&mut data, 4, &9.0f32.to_le_bytes());
    let f = decode_frame(&headers, &data);
    assert_eq!(f.session_time, Some(TimeReading::Float(1.5f32.to_bits())));
    // The session-time channel itself is always read as a double.
    assert_eq!(f.channels[0], Some(RawValue::Double(u64::from_le_bytes(data[0..8].try_into().unwrap()))));
    assert_eq!(f.channels[3], Some(RawValue::Float(9.0f32.to_bits())));
    assert_eq!(f.session_state, SessionState::Invalid);
    assert_eq!(f.weather, None);
    assert_eq!(find_var(&headers, "Speed"), Some((4, 4)));
    assert_eq!(find_var(&headers, "Brake"), None);
}

#[test]
fn other_session_time_types_fall_back_to_the_clock() {
    let headers = vec![var("SessionTime", 2, 0)];
    let f = decode_frame(&headers, &[0u8; 8]);
    assert_eq!(f.session_time, None);
    assert_eq!(frame_timestamp(Some(12_500)), 12_500);
    let before = chrono::Utc::now().timestamp_millis();
    let t = frame_timestamp(None);
    assert!(t >= before);
}

#[test]
fn negative_offsets_of_read_variables_are_refused() {
    assert!(!check_frame_offsets(&[var("Brake", 4, -4)]));
    assert!(!check_frame_offsets(&[var("Skies", 2, -1)]));
    assert!(check_frame_offsets(&[var("Unrelated", 4, -4)]));
    // A later variable of the same name is the one read.
    assert!(check_frame_offsets(&[var("Brake", 4, -4), var("Brake", 4, 0)]));
}
