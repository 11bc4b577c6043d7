//! Session behaviour: listener lifecycle, characteristic selection, and
//! notification processing.

use betterjet::proto::{DeviceError, DeviceStatus, OperatingMode, ShutDownCode, UpdateStatus};
use betterjet::session::{
    classify_notification, assemble_frame, select_characteristics, BedJet, ListenerAction,
    ListenerState, NotificationAction, COMMANDS_UUID, DEVICE_STATUS_UUID, EXTENDED_DATA_UUID,
    FRIENDLY_NAME_UUID, SERVICE_UUID, WIFI_PASSWORD_UUID,
};

fn valid_frame(actual_temp: u8) -> Vec<u8> {
    let mut frame = vec![0u8; 27];
    frame[6] = actual_temp;
    frame[8] = 1;
    frame
}

#[test]
fn first_start_spawns_a_listener() {
    let mut session = BedJet::new(String::from("aa:bb"));
    assert_eq!(session.listener_state(), ListenerState::Idle);
    assert_eq!(session.start_listening(), ListenerAction::Spawn);
    assert_eq!(session.listener_state(), ListenerState::Running);
}

#[test]
fn second_start_leaves_exactly_one_listener() {
    let mut session = BedJet::new(String::from("aa:bb"));
    assert_eq!(session.start_listening(), ListenerAction::Spawn);
    // a concurrent start is serialized by the slot's lock and finds the
    // listener already running: nothing new is spawned
    assert_eq!(session.start_listening(), ListenerAction::AlreadyRunning);
    assert_eq!(session.listener_state(), ListenerState::Running);
}

#[test]
fn start_after_finish_joins_then_spawns_one() {
    let mut session = BedJet::new(String::from("aa:bb"));
    assert_eq!(session.start_listening(), ListenerAction::Spawn);
    session.note_listener_finished();
    assert_eq!(session.listener_state(), ListenerState::Finished);
    assert_eq!(session.start_listening(), ListenerAction::JoinThenSpawn);
    assert_eq!(session.listener_state(), ListenerState::Running);
}

#[test]
fn all_four_characteristics_are_required() {
    let uuids = vec![
        SERVICE_UUID,
        DEVICE_STATUS_UUID,
        FRIENDLY_NAME_UUID,
        COMMANDS_UUID,
        EXTENDED_DATA_UUID,
    ];
    let set = select_characteristics(&uuids).unwrap();
    assert_eq!(uuids[set.device_status], DEVICE_STATUS_UUID);
    assert_eq!(uuids[set.friendly_name], FRIENDLY_NAME_UUID);
    assert_eq!(uuids[set.command], COMMANDS_UUID);
    assert_eq!(uuids[set.extended_data], EXTENDED_DATA_UUID);
}

#[test]
fn missing_characteristic_fails_connect() {
    let uuids = vec![DEVICE_STATUS_UUID, FRIENDLY_NAME_UUID, WIFI_PASSWORD_UUID];
    assert!(matches!(
        select_characteristics(&uuids),
        Err(DeviceError::MissingCharacteristic)
    ));
    assert!(matches!(
        select_characteristics(&Vec::new()),
        Err(DeviceError::MissingCharacteristic)
    ));
}

#[test]
fn zero_flag_byte_means_complete_frame() {
    let mut msg = vec![0u8];
    msg.extend_from_slice(&valid_frame(40));
    match classify_notification(&msg) {
        NotificationAction::DecodeNow(payload) => assert_eq!(payload, valid_frame(40)),
        NotificationAction::FetchRemainder(_) => panic!("complete frame misclassified"),
    }
}

#[test]
fn nonzero_flag_byte_requires_a_point_read() {
    let msg = vec![1u8, 0xaa, 0xbb];
    match classify_notification(&msg) {
        NotificationAction::DecodeNow(_) => panic!("fragment misclassified"),
        NotificationAction::FetchRemainder(prefix) => {
            assert_eq!(prefix, vec![0xaa, 0xbb]);
        }
    }
}

#[test]
fn empty_notification_requires_a_point_read() {
    match classify_notification(&Vec::new()) {
        NotificationAction::DecodeNow(_) => panic!("empty buffer misclassified"),
        NotificationAction::FetchRemainder(prefix) => assert!(prefix.is_empty()),
    }
}

#[test]
fn assembled_fragments_decode_like_one_frame() {
    let frame = valid_frame(40);
    let prefix = frame[..10].to_vec();
    let rest = frame[10..].to_vec();
    let assembled = assemble_frame(&prefix, &rest);
    assert_eq!(assembled, frame);
    let mut session = BedJet::new(String::from("aa:bb"));
    let publish = session.handle_status_frame(&assembled);
    assert!(publish.is_some());
    assert_eq!(session.get_status().map(|s| s.actual_temp), Some(40));
}

#[test]
fn first_decoded_frame_is_published_translated() {
    let mut session = BedJet::new(String::from("aa:bb"));
    assert_eq!(session.get_status(), None);
    let publish = session.handle_status_frame(&valid_frame(40)).unwrap();
    assert_eq!(publish.actual_temp, 200);
    assert_eq!(publish.operating_mode, OperatingMode::NormalHeat);
}

#[test]
fn repeated_status_is_not_republished() {
    let mut session = BedJet::new(String::from("aa:bb"));
    assert!(session.handle_status_frame(&valid_frame(40)).is_some());
    // the same value again: the slot is replaced but nothing is published
    assert!(session.handle_status_frame(&valid_frame(40)).is_none());
    // a different value is published again
    assert!(session.handle_status_frame(&valid_frame(41)).is_some());
}

#[test]
fn malformed_frame_keeps_last_known_good_status() {
    let mut session = BedJet::new(String::from("aa:bb"));
    session.handle_status_frame(&valid_frame(40));
    // unknown operating mode: dropped silently
    let mut bad = valid_frame(50);
    bad[8] = 99;
    assert!(session.handle_status_frame(&bad).is_none());
    // short frame: dropped silently
    assert!(session.handle_status_frame(&vec![0u8; 5]).is_none());
    assert_eq!(session.get_status().map(|s| s.actual_temp), Some(40));
}

#[test]
fn session_readers_observe_status_changes() {
    let mut session = BedJet::new(String::from("aa:bb"));
    let mut reader = session.subscribe_status();
    session.handle_status_frame(&valid_frame(40));
    session.handle_status_frame(&valid_frame(41));
    let observed = session.poll_status(&mut reader).unwrap();
    assert_eq!(observed.actual_temp, 41);
    assert!(session.poll_status(&mut reader).is_none());
    assert_eq!(session.status_count(), 2);
}

#[test]
fn decoded_status_fields_come_from_the_frame() {
    let mut frame = valid_frame(40);
    frame[7] = 50;
    frame[9] = 9;
    frame[17] = 3;
    frame[25] = 20;
    let mut session = BedJet::new(String::from("aa:bb"));
    session.handle_status_frame(&frame);
    let status: DeviceStatus = session.get_status().unwrap();
    assert_eq!(status.target_temp, 50);
    assert_eq!(status.fan_step, 9);
    assert_eq!(status.shutdown_code, ShutDownCode::FastOverTempTrip);
    assert_eq!(status.update_status, UpdateStatus::NoWiFiConfig);
    assert_eq!(session.id().as_str(), "aa:bb");
}
