//! Telemetry capture, import and integrity logic for racing-simulator sessions.

pub mod text;
pub mod session_type;
pub mod checksum;
pub mod capture_error;
pub mod reconnection;
pub mod event_emitter;
pub mod gap_handler;
pub mod ring_buffer;
pub mod types;
pub mod storage_error;
pub mod session_manager;
pub mod ibt;
pub mod float_bits;
pub mod channels;
pub mod validation;
pub mod import;
pub mod session_store;
pub mod resource_monitor;
pub mod capture;
pub mod sample;
pub mod telemetry_files;
pub mod pitwall_export;
pub mod session_info;
pub mod derived_types;
pub mod irsdk_types;
pub mod flag_runs;
pub mod monotonicity;
pub mod range_check;
pub mod brake_counter;
pub mod lap_boundary;
pub mod corner_zones;
pub mod trail_braking;
pub mod frame_decoder;
