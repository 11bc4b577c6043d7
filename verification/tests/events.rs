//! Central event bridge and preference defaults.

use betterjet::events::{bridge_event, CentralDeviceEvent, DeviceEvent};
use betterjet::prefs::{TemperatureUnit, UserPreferences};

#[test]
fn discovered_event_passes_through_not_connected() {
    let out = bridge_event(
        CentralDeviceEvent::Discovered(String::from("11:22")),
        Some(String::from("Bedroom")),
    );
    match out {
        DeviceEvent::Discovered(p) => {
            assert_eq!(p.id, "11:22");
            assert_eq!(p.name.as_deref(), Some("Bedroom"));
            assert!(!p.connected);
        }
        other => panic!("wrong event kind: {:?}", other),
    }
}

#[test]
fn disconnected_event_passes_through_not_connected() {
    let out = bridge_event(CentralDeviceEvent::Disconnected(String::from("11:22")), None);
    match out {
        DeviceEvent::Disconnected(p) => {
            assert_eq!(p.id, "11:22");
            assert_eq!(p.name, None);
            assert!(!p.connected);
        }
        other => panic!("wrong event kind: {:?}", other),
    }
}

#[test]
fn only_connected_events_report_connected() {
    let out = bridge_event(CentralDeviceEvent::Connected(String::from("11:22")), None);
    match out {
        DeviceEvent::Connected(p) => {
            assert_eq!(p.id, "11:22");
            assert!(p.connected);
        }
        other => panic!("wrong event kind: {:?}", other),
    }
}

#[test]
fn preferences_default_to_fahrenheit_without_autoconnect() {
    let prefs = UserPreferences::default();
    assert_eq!(prefs.adapter, "");
    assert_eq!(prefs.unit, TemperatureUnit::Fahrenheit);
    assert!(!prefs.autoconnect_last_device);
}
