//! Wire codec: encoding of outbound commands and decoding of inbound status
//! frames. Encoding never performs I/O and fails only on validation; decoding
//! demands the fixed 27-byte layout and known enum discriminants.

use vstd::prelude::*;
use vstd::utf8::encode_utf8;

use crate::proto::{
    ButtonCode, CommandClass, DeviceStatus, InterfaceError, OperatingMode, ParameterCode,
    ShutDownCode, UpdateStatus,
};

verus! {

/// A value with a fixed wire encoding, produced after parameter validation.
pub trait Encode: Sized {
    /// Whether the value's parameters are in range.
    spec fn spec_valid(&self) -> bool;

    /// The exact bytes the value encodes to; meaningful when `spec_valid`.
    spec fn spec_encode(&self) -> Seq<u8>;

    /// Encode the value. Fails exactly when a parameter is out of range.
    fn encode(&self) -> (r: Result<Vec<u8>, InterfaceError>)
        ensures
            match r {
                Ok(v) => self.spec_valid() && v@ == self.spec_encode(),
                Err(e) => !self.spec_valid() && e == InterfaceError::InvalidParameter,
            },
    ;
}

/// A value read back from a fixed wire layout.
pub trait Decode: Sized {
    /// What decoding yields on every byte sequence.
    spec fn spec_decode(data: Seq<u8>) -> Result<Self, InterfaceError>;

    /// Decode the value from the front of `data`.
    fn read_from(data: &[u8]) -> (r: Result<Self, InterfaceError>)
        ensures
            r == Self::spec_decode(data@),
    ;
}

/// A target temperature, in tenths of a degree. The device stores
/// temperatures in units of 0.5 degrees Celsius; encoding converts and
/// clamps to one byte.
#[derive(Debug, Clone, Copy, PartialEq, Eq, Structural)]
pub enum TempParam {
    /// The temperature in tenths of a degree Celsius
    Celsius(i32),
    /// The temperature in tenths of a degree Fahrenheit
    Fahrenheit(i32),
}

impl TempParam {
    /// The temperature in half-degree-Celsius units, truncated and clamped
    /// to one byte. A Fahrenheit value `f` (in tenths) is `(f - 320) / 9`
    /// half-degrees: `(f/10 - 32) * 5/9` degrees Celsius, doubled.
    pub open spec fn spec_half_degree_byte(self) -> u8 {
        match self {
            TempParam::Celsius(tenths) => {
                if tenths < 0 {
                    0u8
                } else if tenths / 5 > 255 {
                    255u8
                } else {
                    (tenths / 5) as u8
                }
            },
            TempParam::Fahrenheit(tenths) => {
                let d = tenths - 320;
                if d < 0 {
                    0u8
                } else if d / 9 > 255 {
                    255u8
                } else {
                    (d / 9) as u8
                }
            },
        }
    }

    /// Compute the clamped half-degree byte.
    pub fn half_degree_byte(self) -> (r: u8)
        ensures
            r == self.spec_half_degree_byte(),
    {
        match self {
            TempParam::Celsius(tenths) => {
                if tenths < 0 {
                    0
                } else {
                    let q = tenths / 5;
                    if q > 255 {
                        255
                    } else {
                        q as u8
                    }
                }
            },
            TempParam::Fahrenheit(tenths) => {
                let d: i64 = tenths as i64 - 320;
                if d < 0 {
                    0
                } else {
                    let q = d / 9;
                    if q > 255 {
                        255
                    } else {
                        q as u8
                    }
                }
            },
        }
    }
}

impl Encode for TempParam {
    open spec fn spec_valid(&self) -> bool {
        true
    }

    open spec fn spec_encode(&self) -> Seq<u8> {
        seq![self.spec_half_degree_byte()]
    }

    fn encode(&self) -> (r: Result<Vec<u8>, InterfaceError>) {
        let mut out: Vec<u8> = Vec::new();
        out.push(self.half_degree_byte());
        Ok(out)
    }
}

/// A fan setting, either a raw step (0-19) or a percentage (0-100).
#[derive(Debug, Clone, Copy, PartialEq, Eq, Hash, Structural)]
pub enum FanParam {
    Step(u8),
    Percent(u8),
}

impl FanParam {
    /// The raw step byte sent to the device. A percentage maps to
    /// `percent / 5 - 1`, saturating at zero; the mapping is intentionally
    /// lossy and matches firmware expectations.
    pub open spec fn spec_step_byte(self) -> u8 {
        match self {
            FanParam::Step(val) => val,
            FanParam::Percent(val) => {
                if val / 5 >= 1 {
                    (val / 5 - 1) as u8
                } else {
                    0u8
                }
            },
        }
    }

    /// Check the parameter range. Fails exactly when a step exceeds 19 or a
    /// percentage exceeds 100.
    pub fn validate(&self) -> (r: Result<(), InterfaceError>)
        ensures
            match r {
                Ok(_) => self.spec_valid(),
                Err(e) => !self.spec_valid() && e == InterfaceError::InvalidParameter,
            },
    {
        match self {
            FanParam::Step(val) => {
                if *val > 19 {
                    Err(InterfaceError::InvalidParameter)
                } else {
                    Ok(())
                }
            },
            FanParam::Percent(val) => {
                if *val > 100 {
                    Err(InterfaceError::InvalidParameter)
                } else {
                    Ok(())
                }
            },
        }
    }
}

impl Encode for FanParam {
    open spec fn spec_valid(&self) -> bool {
        match *self {
            FanParam::Step(val) => val <= 19,
            FanParam::Percent(val) => val <= 100,
        }
    }

    open spec fn spec_encode(&self) -> Seq<u8> {
        seq![self.spec_step_byte()]
    }

    fn encode(&self) -> (r: Result<Vec<u8>, InterfaceError>) {
        if let Err(e) = self.validate() {
            return Err(e);
        }
        let byte = match self {
            FanParam::Step(val) => *val,
            FanParam::Percent(val) => {
                let q = *val / 5;
                if q >= 1 {
                    q - 1
                } else {
                    0
                }
            },
        };
        let mut out: Vec<u8> = Vec::new();
        out.push(byte);
        Ok(out)
    }
}

/// A device parameter write.
#[derive(Debug, Clone, PartialEq, Eq, Hash)]
pub enum SetParamKind {
    /// Cannot contain a String longer than 15 bytes.
    DeviceName(String),
}

impl Encode for SetParamKind {
    open spec fn spec_valid(&self) -> bool {
        match self {
            SetParamKind::DeviceName(name) => encode_utf8(name@).len() <= 15,
        }
    }

    /// Two header bytes, then the name's UTF-8 bytes zero-padded to exactly
    /// 16 bytes.
    open spec fn spec_encode(&self) -> Seq<u8> {
        match self {
            SetParamKind::DeviceName(name) => {
                let bytes = encode_utf8(name@);
                seq![ParameterCode::DeviceName.spec_to_u8(), 0x10u8] + bytes + Seq::new(
                    (16 - bytes.len()) as nat,
                    |i: int| 0u8,
                )
            },
        }
    }

    fn encode(&self) -> (r: Result<Vec<u8>, InterfaceError>) {
        match self {
            SetParamKind::DeviceName(name) => {
                let bytes: &[u8] = name.as_str().as_bytes();
                // Validate that the name is within the allowed limit
                if bytes.len() > 15 {
                    return Err(InterfaceError::InvalidParameter);
                }
                let mut out: Vec<u8> = Vec::new();
                out.push(ParameterCode::DeviceName.to_u8());
                out.push(0x10);
                let mut i: usize = 0;
                while i < bytes.len()
                    invariant
                        i <= bytes@.len() <= 15,
                        bytes@ == encode_utf8(name@),
                        out@ == seq![ParameterCode::DeviceName.spec_to_u8(), 0x10u8]
                            + bytes@.take(i as int),
                    decreases bytes@.len() - i,
                {
                    out.push(bytes[i]);
                    i += 1;
                }
                while out.len() < 18
                    invariant
                        bytes@ == encode_utf8(name@),
                        bytes@.len() <= 15,
                        2 + bytes@.len() <= out@.len() <= 18,
                        out@.take(2 + bytes@.len() as int) == seq![
                            ParameterCode::DeviceName.spec_to_u8(),
                            0x10u8,
                        ] + bytes@,
                        forall|k: int|
                            2 + bytes@.len() <= k < out@.len() ==> out@[k] == 0u8,
                    decreases 18 - out@.len(),
                {
                    out.push(0);
                }
                proof {
                    assert(out@ =~= self.spec_encode());
                }
                Ok(out)
            },
        }
    }
}

/// A higher level enum containing the commands that can be sent to the
/// device, and the parameters to those commands
#[derive(Debug, Clone, PartialEq)]
pub enum Command {
    Button(ButtonCode),
    SetTime { hours: u8, minutes: u8 },
    SetTemp(TempParam),
    SetFan(FanParam),
    SetClock { hours: u8, minutes: u8 },
    SetParam(SetParamKind),
}

impl Encode for Command {
    open spec fn spec_valid(&self) -> bool {
        match self {
            Command::Button(_) => true,
            Command::SetTime { .. } => true,
            Command::SetTemp(temp) => temp.spec_valid(),
            Command::SetFan(fan) => fan.spec_valid(),
            Command::SetClock { .. } => true,
            Command::SetParam(param) => param.spec_valid(),
        }
    }

    /// The class byte of the command, then its parameter bytes.
    open spec fn spec_encode(&self) -> Seq<u8> {
        match self {
            Command::Button(code) => seq![
                CommandClass::Button.spec_to_u8(),
                code.spec_to_u8(),
            ],
            Command::SetTime { hours, minutes } => seq![
                CommandClass::SetTime.spec_to_u8(),
                *hours,
                *minutes,
            ],
            Command::SetTemp(temp) => seq![CommandClass::SetTemp.spec_to_u8()]
                + temp.spec_encode(),
            Command::SetFan(fan) => seq![CommandClass::SetFan.spec_to_u8()] + fan.spec_encode(),
            Command::SetClock { hours, minutes } => seq![
                CommandClass::SetClock.spec_to_u8(),
                *hours,
                *minutes,
            ],
            Command::SetParam(param) => seq![CommandClass::SetParameter.spec_to_u8()]
                + param.spec_encode(),
        }
    }

    fn encode(&self) -> (r: Result<Vec<u8>, InterfaceError>) {
        let mut out: Vec<u8> = Vec::new();
        match self {
            Command::Button(code) => {
                out.push(CommandClass::Button.to_u8());
                out.push(code.to_u8());
            },
            Command::SetTime { hours, minutes } => {
                out.push(CommandClass::SetTime.to_u8());
                out.push(*hours);
                out.push(*minutes);
            },
            Command::SetTemp(temp) => {
                out.push(CommandClass::SetTemp.to_u8());
                let mut sub = match temp.encode() {
                    Ok(v) => v,
                    Err(e) => {
                        return Err(e);
                    },
                };
                out.append(&mut sub);
            },
            Command::SetFan(fan) => {
                out.push(CommandClass::SetFan.to_u8());
                let mut sub = match fan.encode() {
                    Ok(v) => v,
                    Err(e) => {
                        return Err(e);
                    },
                };
                out.append(&mut sub);
            },
            Command::SetClock { hours, minutes } => {
                out.push(CommandClass::SetClock.to_u8());
                out.push(*hours);
                out.push(*minutes);
            },
            Command::SetParam(param) => {
                out.push(CommandClass::SetParameter.to_u8());
                let mut sub = match param.encode() {
                    Ok(v) => v,
                    Err(e) => {
                        return Err(e);
                    },
                };
                out.append(&mut sub);
            },
        }
        Ok(out)
    }
}

impl Decode for DeviceStatus {
    /// Decoding demands at least the fixed 27-byte frame at the front of
    /// `data`, and a known discriminant at each of the three enum offsets.
    open spec fn spec_decode(data: Seq<u8>) -> Result<DeviceStatus, InterfaceError> {
        if data.len() < 27 {
            Err(InterfaceError::NotEnoughData)
        } else {
            match (
                OperatingMode::spec_from_u8(data[8]),
                ShutDownCode::spec_from_u8(data[17]),
                UpdateStatus::spec_from_u8(data[25]),
            ) {
                (Some(operating_mode), Some(shutdown_code), Some(update_status)) => Ok(
                    DeviceStatus {
                        remaining_hours: data[3],
                        remaining_minutes: data[4],
                        remaining_seconds: data[5],
                        actual_temp: data[6],
                        target_temp: data[7],
                        operating_mode,
                        fan_step: data[9],
                        max_duration_hours: data[10],
                        max_duration_minutes: data[11],
                        min_target_temp: data[12],
                        max_target_temp: data[13],
                        ambient_temp: data[16],
                        shutdown_code,
                        update_status,
                    },
                ),
                _ => Err(InterfaceError::InvalidParameter),
            }
        }
    }

    fn read_from(data: &[u8]) -> (r: Result<DeviceStatus, InterfaceError>) {
        if data.len() < 27 {
            return Err(InterfaceError::NotEnoughData);
        }
        let operating_mode = match OperatingMode::from_u8(data[8]) {
            Some(m) => m,
            None => {
                return Err(InterfaceError::InvalidParameter);
            },
        };
        let shutdown_code = match ShutDownCode::from_u8(data[17]) {
            Some(c) => c,
            None => {
                return Err(InterfaceError::InvalidParameter);
            },
        };
        let update_status = match UpdateStatus::from_u8(data[25]) {
            Some(u) => u,
            None => {
                return Err(InterfaceError::InvalidParameter);
            },
        };
        Ok(DeviceStatus {
            remaining_hours: data[3],
            remaining_minutes: data[4],
            remaining_seconds: data[5],
            actual_temp: data[6],
            target_temp: data[7],
            operating_mode,
            fan_step: data[9],
            max_duration_hours: data[10],
            max_duration_minutes: data[11],
            min_target_temp: data[12],
            max_target_temp: data[13],
            ambient_temp: data[16],
            shutdown_code,
            update_status,
        })
    }
}

} // verus!
