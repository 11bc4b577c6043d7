//! Unit translator: maps a raw status record into human units. Always
//! recomputed from a [`DeviceStatus`], never independently persisted.

use vstd::prelude::*;

use crate::proto::{DeviceStatus, OperatingMode, ShutDownCode, UpdateStatus};

verus! {

/// A status record in human units: durations in seconds, temperatures in
/// tenths of a degree Celsius (the device reports half-degrees, so a raw
/// temperature `t` is `t * 5` tenths), fan step as a percentage.
#[derive(Debug, Clone, Copy, PartialEq, Eq, Structural)]
pub struct ParsedDeviceStatus {
    /// Remaining runtime, in seconds
    pub remaining_duration: u32,
    /// In tenths of a degree Celsius
    pub actual_temp: u16,
    /// In tenths of a degree Celsius
    pub target_temp: u16,
    pub operating_mode: OperatingMode,
    /// As a percent 0 - 100
    pub fan_step: u8,
    /// Maximum runtime for the current mode, in seconds
    pub max_duration: u32,
    pub min_target_temp: u16,
    pub max_target_temp: u16,
    pub ambient_temp: u16,
    pub shutdown_code: ShutDownCode,
    pub update_status: UpdateStatus,
}

/// The fan percentage a raw step maps to: `(step + 1) * 5`, with both the
/// increment and the product saturating at the byte maximum. For the device's
/// step range 0-19 this is 5 through 100.
pub open spec fn spec_fan_percent(step: u8) -> u8 {
    if step > 50 {
        255u8
    } else {
        ((step + 1) * 5) as u8
    }
}

/// What translation yields for every raw status record.
pub open spec fn spec_translate(value: DeviceStatus) -> ParsedDeviceStatus {
    ParsedDeviceStatus {
        remaining_duration: (value.remaining_hours * 3600 + value.remaining_minutes * 60
            + value.remaining_seconds) as u32,
        actual_temp: (value.actual_temp * 5) as u16,
        target_temp: (value.target_temp * 5) as u16,
        operating_mode: value.operating_mode,
        fan_step: spec_fan_percent(value.fan_step),
        max_duration: (value.max_duration_hours * 3600 + value.max_duration_minutes * 60) as u32,
        min_target_temp: (value.min_target_temp * 5) as u16,
        max_target_temp: (value.max_target_temp * 5) as u16,
        ambient_temp: (value.ambient_temp * 5) as u16,
        shutdown_code: value.shutdown_code,
        update_status: value.update_status,
    }
}

impl From<DeviceStatus> for ParsedDeviceStatus {
    fn from(value: DeviceStatus) -> (r: Self) {
        let remaining_duration: u32 = value.remaining_hours as u32 * 3600
            + value.remaining_minutes as u32 * 60 + value.remaining_seconds as u32;
        let max_duration: u32 = value.max_duration_hours as u32 * 3600
            + value.max_duration_minutes as u32 * 60;
        let fan_step: u8 = if value.fan_step > 50 {
            255
        } else {
            (value.fan_step + 1) * 5
        };
        ParsedDeviceStatus {
            remaining_duration,
            actual_temp: value.actual_temp as u16 * 5,
            target_temp: value.target_temp as u16 * 5,
            operating_mode: value.operating_mode,
            fan_step,
            max_duration,
            min_target_temp: value.min_target_temp as u16 * 5,
            max_target_temp: value.max_target_temp as u16 * 5,
            ambient_temp: value.ambient_temp as u16 * 5,
            shutdown_code: value.shutdown_code,
            update_status: value.update_status,
        }
    }
}

impl vstd::std_specs::convert::FromSpecImpl<DeviceStatus> for ParsedDeviceStatus {
    open spec fn obeys_from_spec() -> bool {
        true
    }

    open spec fn from_spec(v: DeviceStatus) -> Self {
        spec_translate(v)
    }
}

} // verus!
