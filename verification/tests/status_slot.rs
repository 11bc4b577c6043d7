//! Broadcast-with-replace semantics of the status slot.

use betterjet::proto::{DeviceStatus, OperatingMode, ShutDownCode, UpdateStatus};
use betterjet::status_slot::{StatusReader, StatusSlot};

fn status_with_temp(actual_temp: u8) -> DeviceStatus {
    DeviceStatus {
        remaining_hours: 0,
        remaining_minutes: 0,
        remaining_seconds: 0,
        actual_temp,
        target_temp: 0,
        operating_mode: OperatingMode::Standby,
        fan_step: 0,
        max_duration_hours: 0,
        max_duration_minutes: 0,
        min_target_temp: 0,
        max_target_temp: 0,
        ambient_temp: 0,
        shutdown_code: ShutDownCode::Normal,
        update_status: UpdateStatus::Idle,
    }
}

#[test]
fn empty_slot_has_no_value() {
    let slot = StatusSlot::new();
    assert!(slot.latest().is_none());
    assert_eq!(slot.write_count(), 0);
}

#[test]
fn send_replace_returns_previous_value() {
    let mut slot = StatusSlot::new();
    assert_eq!(slot.send_replace(status_with_temp(1)), None);
    assert_eq!(slot.send_replace(status_with_temp(2)), Some(status_with_temp(1)));
    assert_eq!(slot.send_replace(status_with_temp(3)), Some(status_with_temp(2)));
    assert_eq!(slot.latest(), Some(status_with_temp(3)));
}

#[test]
fn unread_writes_coalesce_into_the_latest() {
    // a burst of writes with no intervening reads: one subsequent poll
    // observes exactly the last of them
    let mut slot = StatusSlot::new();
    let mut reader = slot.subscribe();
    for i in 1..=5 {
        slot.send_replace(status_with_temp(i));
    }
    assert_eq!(reader.poll_changed(&slot), Some(status_with_temp(5)));
    // and nothing more until the next write
    assert_eq!(reader.poll_changed(&slot), None);
}

#[test]
fn reader_polling_after_each_write_sees_every_value_in_order() {
    let mut slot = StatusSlot::new();
    let mut reader = slot.subscribe();
    let mut observed = Vec::new();
    for i in 1..=5 {
        slot.send_replace(status_with_temp(i));
        if let Some(v) = reader.poll_changed(&slot) {
            observed.push(v.actual_temp);
        }
    }
    assert_eq!(observed, vec![1, 2, 3, 4, 5]);
}

#[test]
fn subscriber_starts_caught_up() {
    let mut slot = StatusSlot::new();
    slot.send_replace(status_with_temp(1));
    let mut reader = slot.subscribe();
    // the value present at subscription counts as seen
    assert_eq!(reader.poll_changed(&slot), None);
    slot.send_replace(status_with_temp(2));
    assert_eq!(reader.poll_changed(&slot), Some(status_with_temp(2)));
}

#[test]
fn reader_from_start_observes_existing_value() {
    let mut slot = StatusSlot::new();
    slot.send_replace(status_with_temp(7));
    let mut reader = StatusReader::from_start();
    assert_eq!(reader.poll_changed(&slot), Some(status_with_temp(7)));
}

#[test]
fn independent_readers_do_not_disturb_each_other() {
    let mut slot = StatusSlot::new();
    let mut first = slot.subscribe();
    let mut second = slot.subscribe();
    slot.send_replace(status_with_temp(1));
    slot.send_replace(status_with_temp(2));
    assert_eq!(first.poll_changed(&slot), Some(status_with_temp(2)));
    // the second reader still observes the latest value afterwards
    assert_eq!(second.poll_changed(&slot), Some(status_with_temp(2)));
}
