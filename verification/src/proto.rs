//! Protocol value types: the error taxonomy, the enums that appear in wire
//! frames (each with its wire discriminant), and the raw status record.

use vstd::prelude::*;

verus! {

/// Errors raised by the wire codec.
#[derive(Debug, Clone, Copy, PartialEq, Eq, Structural)]
pub enum InterfaceError {
    /// A command parameter is out of its allowed range, or a frame byte
    /// matches no known discriminant.
    InvalidParameter,
    /// A transport-level read or write failed. The codec itself never
    /// produces this; it exists for callers that stream frames.
    IOError,
    /// A status frame is shorter than the fixed 27-byte layout.
    NotEnoughData,
}

/// Errors raised by sessions and the registry.
#[derive(Debug, Clone, Copy, PartialEq, Eq, Structural)]
pub enum DeviceError {
    /// Encoding or decoding failed.
    InterfaceError(InterfaceError),
    /// The BLE transport reported a failure.
    BluetoothError,
    /// A background listener task could not be joined.
    TaskError,
    /// The status distribution slot was torn down before a value arrived.
    RecvError,
    /// A connected peripheral lacks one of the four required characteristics.
    MissingCharacteristic,
    /// No visible peripheral matches the requested id.
    DeviceNotFound,
}

/// Operating mode reported at byte 8 of a status frame.
#[derive(Debug, Clone, Copy, PartialEq, Eq, Hash, Structural)]
pub enum OperatingMode {
    Standby,
    NormalHeat,
    TurboHeat,
    ExtendedHeat,
    Cool,
    Dry,
    Wait,
}

impl OperatingMode {
    /// The wire discriminant of each mode.
    pub open spec fn spec_to_u8(self) -> u8 {
        match self {
            OperatingMode::Standby => 0,
            OperatingMode::NormalHeat => 1,
            OperatingMode::TurboHeat => 2,
            OperatingMode::ExtendedHeat => 3,
            OperatingMode::Cool => 4,
            OperatingMode::Dry => 5,
            OperatingMode::Wait => 6,
        }
    }

    /// The mode a wire byte stands for, if any.
    pub open spec fn spec_from_u8(value: u8) -> Option<OperatingMode> {
        if value == 0 {
            Some(OperatingMode::Standby)
        } else if value == 1 {
            Some(OperatingMode::NormalHeat)
        } else if value == 2 {
            Some(OperatingMode::TurboHeat)
        } else if value == 3 {
            Some(OperatingMode::ExtendedHeat)
        } else if value == 4 {
            Some(OperatingMode::Cool)
        } else if value == 5 {
            Some(OperatingMode::Dry)
        } else if value == 6 {
            Some(OperatingMode::Wait)
        } else {
            None
        }
    }

    pub fn from_u8(value: u8) -> (r: Option<OperatingMode>)
        ensures
            r == Self::spec_from_u8(value),
    {
        match value {
            0u8 => Some(OperatingMode::Standby),
            1u8 => Some(OperatingMode::NormalHeat),
            2u8 => Some(OperatingMode::TurboHeat),
            3u8 => Some(OperatingMode::ExtendedHeat),
            4u8 => Some(OperatingMode::Cool),
            5u8 => Some(OperatingMode::Dry),
            6u8 => Some(OperatingMode::Wait),
            _ => None,
        }
    }
}

/// Shutdown reason reported at byte 17 of a status frame.
#[derive(Debug, Clone, Copy, PartialEq, Eq, Hash, Structural)]
pub enum ShutDownCode {
    Normal,
    InvalidADC,
    ThermistorTrackingError,
    FastOverTempTrip,
    SlowOverTempTrip,
    FanFailure,
    HeaterPowerStandby,
    ExtenderThermalTrip,
}

impl ShutDownCode {
    /// The wire discriminant of each shutdown code.
    pub open spec fn spec_to_u8(self) -> u8 {
        match self {
            ShutDownCode::Normal => 0,
            ShutDownCode::InvalidADC => 1,
            ShutDownCode::ThermistorTrackingError => 2,
            ShutDownCode::FastOverTempTrip => 3,
            ShutDownCode::SlowOverTempTrip => 4,
            ShutDownCode::FanFailure => 5,
            ShutDownCode::HeaterPowerStandby => 6,
            ShutDownCode::ExtenderThermalTrip => 7,
        }
    }

    /// The shutdown code a wire byte stands for, if any.
    pub open spec fn spec_from_u8(value: u8) -> Option<ShutDownCode> {
        if value == 0 {
            Some(ShutDownCode::Normal)
        } else if value == 1 {
            Some(ShutDownCode::InvalidADC)
        } else if value == 2 {
            Some(ShutDownCode::ThermistorTrackingError)
        } else if value == 3 {
            Some(ShutDownCode::FastOverTempTrip)
        } else if value == 4 {
            Some(ShutDownCode::SlowOverTempTrip)
        } else if value == 5 {
            Some(ShutDownCode::FanFailure)
        } else if value == 6 {
            Some(ShutDownCode::HeaterPowerStandby)
        } else if value == 7 {
            Some(ShutDownCode::ExtenderThermalTrip)
        } else {
            None
        }
    }

    pub fn from_u8(value: u8) -> (r: Option<ShutDownCode>)
        ensures
            r == Self::spec_from_u8(value),
    {
        match value {
            0u8 => Some(ShutDownCode::Normal),
            1u8 => Some(ShutDownCode::InvalidADC),
            2u8 => Some(ShutDownCode::ThermistorTrackingError),
            3u8 => Some(ShutDownCode::FastOverTempTrip),
            4u8 => Some(ShutDownCode::SlowOverTempTrip),
            5u8 => Some(ShutDownCode::FanFailure),
            6u8 => Some(ShutDownCode::HeaterPowerStandby),
            7u8 => Some(ShutDownCode::ExtenderThermalTrip),
            _ => None,
        }
    }
}

/// Firmware-update progress reported at byte 25 of a status frame. The wire
/// discriminants are sparse: 0 through 7, then 20 through 29.
#[derive(Debug, Clone, Copy, PartialEq, Eq, Hash, Structural)]
pub enum UpdateStatus {
    Idle,
    Starting,
    ConnectingToAP,
    GotIPAddress,
    CheckingConnection,
    CheckingForUpdate,
    Updating,
    RestartingBedJet,
    NoWiFiConfig,
    UnableToConnect,
    DHCPFailure,
    UnableToContactServer,
    ConnectionTestOK,
    ConnectionTestFailed,
    NoUpdateNeeded,
    RadioDisabled,
    RestartingBedJetTerminal,
    UpdateFailed,
}

impl UpdateStatus {
    /// The wire discriminant of each update status.
    pub open spec fn spec_to_u8(self) -> u8 {
        match self {
            UpdateStatus::Idle => 0,
            UpdateStatus::Starting => 1,
            UpdateStatus::ConnectingToAP => 2,
            UpdateStatus::GotIPAddress => 3,
            UpdateStatus::CheckingConnection => 4,
            UpdateStatus::CheckingForUpdate => 5,
            UpdateStatus::Updating => 6,
            UpdateStatus::RestartingBedJet => 7,
            UpdateStatus::NoWiFiConfig => 20,
            UpdateStatus::UnableToConnect => 21,
            UpdateStatus::DHCPFailure => 22,
            UpdateStatus::UnableToContactServer => 23,
            UpdateStatus::ConnectionTestOK => 24,
            UpdateStatus::ConnectionTestFailed => 25,
            UpdateStatus::NoUpdateNeeded => 26,
            UpdateStatus::RadioDisabled => 27,
            UpdateStatus::RestartingBedJetTerminal => 28,
            UpdateStatus::UpdateFailed => 29,
        }
    }

    /// The update status a wire byte stands for, if any.
    pub open spec fn spec_from_u8(value: u8) -> Option<UpdateStatus> {
        if value == 0 {
            Some(UpdateStatus::Idle)
        } else if value == 1 {
            Some(UpdateStatus::Starting)
        } else if value == 2 {
            Some(UpdateStatus::ConnectingToAP)
        } else if value == 3 {
            Some(UpdateStatus::GotIPAddress)
        } else if value == 4 {
            Some(UpdateStatus::CheckingConnection)
        } else if value == 5 {
            Some(UpdateStatus::CheckingForUpdate)
        } else if value == 6 {
            Some(UpdateStatus::Updating)
        } else if value == 7 {
            Some(UpdateStatus::RestartingBedJet)
        } else if value == 20 {
            Some(UpdateStatus::NoWiFiConfig)
        } else if value == 21 {
            Some(UpdateStatus::UnableToConnect)
        } else if value == 22 {
            Some(UpdateStatus::DHCPFailure)
        } else if value == 23 {
            Some(UpdateStatus::UnableToContactServer)
        } else if value == 24 {
            Some(UpdateStatus::ConnectionTestOK)
        } else if value == 25 {
            Some(UpdateStatus::ConnectionTestFailed)
        } else if value == 26 {
            Some(UpdateStatus::NoUpdateNeeded)
        } else if value == 27 {
            Some(UpdateStatus::RadioDisabled)
        } else if value == 28 {
            Some(UpdateStatus::RestartingBedJetTerminal)
        } else if value == 29 {
            Some(UpdateStatus::UpdateFailed)
        } else {
            None
        }
    }

    pub fn from_u8(value: u8) -> (r: Option<UpdateStatus>)
        ensures
            r == Self::spec_from_u8(value),
    {
        match value {
            0u8 => Some(UpdateStatus::Idle),
            1u8 => Some(UpdateStatus::Starting),
            2u8 => Some(UpdateStatus::ConnectingToAP),
            3u8 => Some(UpdateStatus::GotIPAddress),
            4u8 => Some(UpdateStatus::CheckingConnection),
            5u8 => Some(UpdateStatus::CheckingForUpdate),
            6u8 => Some(UpdateStatus::Updating),
            7u8 => Some(UpdateStatus::RestartingBedJet),
            20u8 => Some(UpdateStatus::NoWiFiConfig),
            21u8 => Some(UpdateStatus::UnableToConnect),
            22u8 => Some(UpdateStatus::DHCPFailure),
            23u8 => Some(UpdateStatus::UnableToContactServer),
            24u8 => Some(UpdateStatus::ConnectionTestOK),
            25u8 => Some(UpdateStatus::ConnectionTestFailed),
            26u8 => Some(UpdateStatus::NoUpdateNeeded),
            27u8 => Some(UpdateStatus::RadioDisabled),
            28u8 => Some(UpdateStatus::RestartingBedJetTerminal),
            29u8 => Some(UpdateStatus::UpdateFailed),
            _ => None,
        }
    }
}

/// Button press sent in a `Button` command.
#[derive(Debug, Clone, Copy, PartialEq, Eq, Hash, Structural)]
pub enum ButtonCode {
    Stop,
    Cool,
    Heat,
    Turbo,
    Dry,
    ExternalHeat,
    FanUp,
    FanDown,
    TempUp1C,
    TempDown1C,
    TempUp1F,
    TempDown1F,
    Memory1Recall,
    Memory2Recall,
    Memory3Recall,
    Memory1Store,
    Memory2Store,
    Memory3Store,
    StartConnectionTest,
    StartFirmwareUpdate,
    SetLowPowerMode,
    SetNormalPowerMode,
    EnableRingOfLight,
    DisableRingOfLight,
    MuteBeeper,
    UnmuteBeeper,
    ResetToFactorySettings,
    EnableWiFiBT,
    DisableWiFiBT,
    SetConfigCompleteFlag,
}

impl ButtonCode {
    /// The wire discriminant of each button.
    pub open spec fn spec_to_u8(self) -> u8 {
        match self {
            ButtonCode::Stop => 0x01,
            ButtonCode::Cool => 0x02,
            ButtonCode::Heat => 0x03,
            ButtonCode::Turbo => 0x04,
            ButtonCode::Dry => 0x05,
            ButtonCode::ExternalHeat => 0x06,
            ButtonCode::FanUp => 0x10,
            ButtonCode::FanDown => 0x11,
            ButtonCode::TempUp1C => 0x12,
            ButtonCode::TempDown1C => 0x13,
            ButtonCode::TempUp1F => 0x14,
            ButtonCode::TempDown1F => 0x15,
            ButtonCode::Memory1Recall => 0x20,
            ButtonCode::Memory2Recall => 0x21,
            ButtonCode::Memory3Recall => 0x22,
            ButtonCode::Memory1Store => 0x28,
            ButtonCode::Memory2Store => 0x29,
            ButtonCode::Memory3Store => 0x2a,
            ButtonCode::StartConnectionTest => 0x42,
            ButtonCode::StartFirmwareUpdate => 0x43,
            ButtonCode::SetLowPowerMode => 0x44,
            ButtonCode::SetNormalPowerMode => 0x45,
            ButtonCode::EnableRingOfLight => 0x46,
            ButtonCode::DisableRingOfLight => 0x47,
            ButtonCode::MuteBeeper => 0x48,
            ButtonCode::UnmuteBeeper => 0x49,
            ButtonCode::ResetToFactorySettings => 0x4c,
            ButtonCode::EnableWiFiBT => 0x4d,
            ButtonCode::DisableWiFiBT => 0x4e,
            ButtonCode::SetConfigCompleteFlag => 0x4f,
        }
    }

    pub fn to_u8(self) -> (r: u8)
        ensures
            r == self.spec_to_u8(),
    {
        match self {
            ButtonCode::Stop => 0x01,
            ButtonCode::Cool => 0x02,
            ButtonCode::Heat => 0x03,
            ButtonCode::Turbo => 0x04,
            ButtonCode::Dry => 0x05,
            ButtonCode::ExternalHeat => 0x06,
            ButtonCode::FanUp => 0x10,
            ButtonCode::FanDown => 0x11,
            ButtonCode::TempUp1C => 0x12,
            ButtonCode::TempDown1C => 0x13,
            ButtonCode::TempUp1F => 0x14,
            ButtonCode::TempDown1F => 0x15,
            ButtonCode::Memory1Recall => 0x20,
            ButtonCode::Memory2Recall => 0x21,
            ButtonCode::Memory3Recall => 0x22,
            ButtonCode::Memory1Store => 0x28,
            ButtonCode::Memory2Store => 0x29,
            ButtonCode::Memory3Store => 0x2a,
            ButtonCode::StartConnectionTest => 0x42,
            ButtonCode::StartFirmwareUpdate => 0x43,
            ButtonCode::SetLowPowerMode => 0x44,
            ButtonCode::SetNormalPowerMode => 0x45,
            ButtonCode::EnableRingOfLight => 0x46,
            ButtonCode::DisableRingOfLight => 0x47,
            ButtonCode::MuteBeeper => 0x48,
            ButtonCode::UnmuteBeeper => 0x49,
            ButtonCode::ResetToFactorySettings => 0x4c,
            ButtonCode::EnableWiFiBT => 0x4d,
            ButtonCode::DisableWiFiBT => 0x4e,
            ButtonCode::SetConfigCompleteFlag => 0x4f,
        }
    }
}

/// Parameter selector carried in a `SetParam` command.
#[derive(Debug, Clone, Copy, PartialEq, Eq, Hash, Structural)]
pub enum ParameterCode {
    DeviceName,
    MemoryName1,
    MemoryName2,
    MemoryName3,
    BiorhythmName1,
    BiorhythmName2,
    BiorhythmName3,
    Biorhythm1Fragment1,
    Biorhythm1Fragment2,
    Biorhythm1Fragment3,
    Biorhythm1Fragment4,
    Biorhythm2Fragment1,
    Biorhythm2Fragment2,
    Biorhythm2Fragment3,
    Biorhythm2Fragment4,
    Biorhythm3Fragment1,
    Biorhythm3Fragment2,
    Biorhythm3Fragment3,
    Biorhythm3Fragment4,
    FirmwareVersionCodes,
}

impl ParameterCode {
    /// The wire discriminant of each parameter selector.
    pub open spec fn spec_to_u8(self) -> u8 {
        match self {
            ParameterCode::DeviceName => 0x00,
            ParameterCode::MemoryName1 => 0x01,
            ParameterCode::MemoryName2 => 0x02,
            ParameterCode::MemoryName3 => 0x03,
            ParameterCode::BiorhythmName1 => 0x04,
            ParameterCode::BiorhythmName2 => 0x05,
            ParameterCode::BiorhythmName3 => 0x06,
            ParameterCode::Biorhythm1Fragment1 => 0x07,
            ParameterCode::Biorhythm1Fragment2 => 0x08,
            ParameterCode::Biorhythm1Fragment3 => 0x09,
            ParameterCode::Biorhythm1Fragment4 => 0x0a,
            ParameterCode::Biorhythm2Fragment1 => 0x0b,
            ParameterCode::Biorhythm2Fragment2 => 0x0c,
            ParameterCode::Biorhythm2Fragment3 => 0x0d,
            ParameterCode::Biorhythm2Fragment4 => 0x0e,
            ParameterCode::Biorhythm3Fragment1 => 0x0f,
            ParameterCode::Biorhythm3Fragment2 => 0x10,
            ParameterCode::Biorhythm3Fragment3 => 0x11,
            ParameterCode::Biorhythm3Fragment4 => 0x12,
            ParameterCode::FirmwareVersionCodes => 0x20,
        }
    }

    pub fn to_u8(self) -> (r: u8)
        ensures
            r == self.spec_to_u8(),
    {
        match self {
            ParameterCode::DeviceName => 0x00,
            ParameterCode::MemoryName1 => 0x01,
            ParameterCode::MemoryName2 => 0x02,
            ParameterCode::MemoryName3 => 0x03,
            ParameterCode::BiorhythmName1 => 0x04,
            ParameterCode::BiorhythmName2 => 0x05,
            ParameterCode::BiorhythmName3 => 0x06,
            ParameterCode::Biorhythm1Fragment1 => 0x07,
            ParameterCode::Biorhythm1Fragment2 => 0x08,
            ParameterCode::Biorhythm1Fragment3 => 0x09,
            ParameterCode::Biorhythm1Fragment4 => 0x0a,
            ParameterCode::Biorhythm2Fragment1 => 0x0b,
            ParameterCode::Biorhythm2Fragment2 => 0x0c,
            ParameterCode::Biorhythm2Fragment3 => 0x0d,
            ParameterCode::Biorhythm2Fragment4 => 0x0e,
            ParameterCode::Biorhythm3Fragment1 => 0x0f,
            ParameterCode::Biorhythm3Fragment2 => 0x10,
            ParameterCode::Biorhythm3Fragment3 => 0x11,
            ParameterCode::Biorhythm3Fragment4 => 0x12,
            ParameterCode::FirmwareVersionCodes => 0x20,
        }
    }
}

/// Leading class byte of each command frame.
#[derive(Debug, Clone, Copy, PartialEq, Eq, Hash, Structural)]
pub enum CommandClass {
    Button,
    SetTime,
    SetTemp,
    SetFan,
    SetClock,
    SetParameter,
}

impl CommandClass {
    /// The wire discriminant of each command class.
    pub open spec fn spec_to_u8(self) -> u8 {
        match self {
            CommandClass::Button => 0x01,
            CommandClass::SetTime => 0x02,
            CommandClass::SetTemp => 0x03,
            CommandClass::SetFan => 0x07,
            CommandClass::SetClock => 0x08,
            CommandClass::SetParameter => 0x40,
        }
    }

    pub fn to_u8(self) -> (r: u8)
        ensures
            r == self.spec_to_u8(),
    {
        match self {
            CommandClass::Button => 0x01,
            CommandClass::SetTime => 0x02,
            CommandClass::SetTemp => 0x03,
            CommandClass::SetFan => 0x07,
            CommandClass::SetClock => 0x08,
            CommandClass::SetParameter => 0x40,
        }
    }
}

/// Raw device status as laid out in a 27-byte wire frame.
#[derive(Debug, Clone, Copy, PartialEq, Eq, Structural)]
pub struct DeviceStatus {
    /// The total runtime left on the device
    pub remaining_hours: u8,
    pub remaining_minutes: u8,
    pub remaining_seconds: u8,
    /// Stored in units of 0.5 degrees celsius
    pub actual_temp: u8,
    /// Stored in units of 0.5 degrees celsius
    pub target_temp: u8,
    pub operating_mode: OperatingMode,
    /// Represented as a number between 0-19
    pub fan_step: u8,
    /// Maximum runtime for the current mode
    pub max_duration_hours: u8,
    pub max_duration_minutes: u8,
    /// Stored in units of 0.5 degrees celsius
    pub min_target_temp: u8,
    /// Stored in units of 0.5 degrees celsius
    pub max_target_temp: u8,
    /// Stored in units of 0.5 degrees celsius
    pub ambient_temp: u8,
    pub shutdown_code: ShutDownCode,
    pub update_status: UpdateStatus,
}

/// Every operating-mode discriminant decodes back to the mode it stands
/// for: the encode and decode tables agree.
pub proof fn lemma_operating_mode_code_roundtrip(mode: OperatingMode)
    ensures
        OperatingMode::spec_from_u8(mode.spec_to_u8()) == Some(mode),
{
}

/// Every shutdown-code discriminant decodes back to the code it stands for.
pub proof fn lemma_shutdown_code_roundtrip(code: ShutDownCode)
    ensures
        ShutDownCode::spec_from_u8(code.spec_to_u8()) == Some(code),
{
}

/// Every update-status discriminant decodes back to the status it stands
/// for, also across the gap in the sparse numbering.
pub proof fn lemma_update_status_code_roundtrip(status: UpdateStatus)
    ensures
        UpdateStatus::spec_from_u8(status.spec_to_u8()) == Some(status),
{
}

/// A status change of one device, keyed by its peripheral id.
#[derive(Debug, Clone, PartialEq)]
pub struct DeviceStatusEvent {
    pub id: String,
    pub status: DeviceStatus,
}

} // verus!
