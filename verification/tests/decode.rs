//! Status frame decoding: the fixed 27-byte layout and its enum bytes.

use betterjet::codec::Decode;
use betterjet::proto::{
    DeviceStatus, InterfaceError, OperatingMode, ShutDownCode, UpdateStatus,
};

#[test]
fn minimal_frame_decodes_to_zeroed_status() {
    let mut frame = [0u8; 27];
    frame[8] = 1;
    let status = DeviceStatus::read_from(&frame).unwrap();
    assert_eq!(status.operating_mode, OperatingMode::NormalHeat);
    assert_eq!(status.remaining_hours, 0);
    assert_eq!(status.remaining_minutes, 0);
    assert_eq!(status.remaining_seconds, 0);
    assert_eq!(status.actual_temp, 0);
    assert_eq!(status.target_temp, 0);
    assert_eq!(status.fan_step, 0);
    assert_eq!(status.max_duration_hours, 0);
    assert_eq!(status.max_duration_minutes, 0);
    assert_eq!(status.min_target_temp, 0);
    assert_eq!(status.max_target_temp, 0);
    assert_eq!(status.ambient_temp, 0);
    assert_eq!(status.shutdown_code, ShutDownCode::Normal);
    assert_eq!(status.update_status, UpdateStatus::Idle);
}

#[test]
fn fields_are_read_from_their_offsets() {
    let mut frame = [0u8; 27];
    frame[3] = 1; // remaining hours
    frame[4] = 2; // remaining minutes
    frame[5] = 3; // remaining seconds
    frame[6] = 40; // actual temp
    frame[7] = 50; // target temp
    frame[8] = 2; // turbo heat
    frame[9] = 19; // fan step
    frame[10] = 4; // max duration hours
    frame[11] = 5; // max duration minutes
    frame[12] = 38; // min target temp
    frame[13] = 60; // max target temp
    frame[16] = 44; // ambient temp
    frame[17] = 5; // fan failure
    frame[25] = 24; // connection test ok
    let status = DeviceStatus::read_from(&frame).unwrap();
    assert_eq!(status.remaining_hours, 1);
    assert_eq!(status.remaining_minutes, 2);
    assert_eq!(status.remaining_seconds, 3);
    assert_eq!(status.actual_temp, 40);
    assert_eq!(status.target_temp, 50);
    assert_eq!(status.operating_mode, OperatingMode::TurboHeat);
    assert_eq!(status.fan_step, 19);
    assert_eq!(status.max_duration_hours, 4);
    assert_eq!(status.max_duration_minutes, 5);
    assert_eq!(status.min_target_temp, 38);
    assert_eq!(status.max_target_temp, 60);
    assert_eq!(status.ambient_temp, 44);
    assert_eq!(status.shutdown_code, ShutDownCode::FanFailure);
    assert_eq!(status.update_status, UpdateStatus::ConnectionTestOK);
}

#[test]
fn unknown_operating_mode_is_rejected() {
    let mut frame = [0u8; 27];
    frame[8] = 99;
    assert!(matches!(
        DeviceStatus::read_from(&frame),
        Err(InterfaceError::InvalidParameter)
    ));
    frame[8] = 7; // one past the last mode
    assert!(matches!(
        DeviceStatus::read_from(&frame),
        Err(InterfaceError::InvalidParameter)
    ));
}

#[test]
fn unknown_shutdown_code_is_rejected() {
    let mut frame = [0u8; 27];
    frame[17] = 8;
    assert!(matches!(
        DeviceStatus::read_from(&frame),
        Err(InterfaceError::InvalidParameter)
    ));
}

#[test]
fn sparse_update_status_gap_is_rejected() {
    let mut frame = [0u8; 27];
    frame[25] = 8; // the discriminants jump from 7 to 20
    assert!(matches!(
        DeviceStatus::read_from(&frame),
        Err(InterfaceError::InvalidParameter)
    ));
    frame[25] = 29; // the last valid discriminant
    let status = DeviceStatus::read_from(&frame).unwrap();
    assert_eq!(status.update_status, UpdateStatus::UpdateFailed);
    frame[25] = 30;
    assert!(matches!(
        DeviceStatus::read_from(&frame),
        Err(InterfaceError::InvalidParameter)
    ));
}

#[test]
fn short_frame_is_rejected() {
    let frame = [0u8; 20];
    assert!(matches!(
        DeviceStatus::read_from(&frame),
        Err(InterfaceError::NotEnoughData)
    ));
    assert!(matches!(
        DeviceStatus::read_from(&[]),
        Err(InterfaceError::NotEnoughData)
    ));
}

#[test]
fn trailing_bytes_are_ignored() {
    let mut frame = vec![0u8; 30];
    frame[8] = 6;
    frame[27] = 0xff;
    let status = DeviceStatus::read_from(&frame).unwrap();
    assert_eq!(status.operating_mode, OperatingMode::Wait);
}
