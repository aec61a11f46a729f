//! The typed decoding layer: one result type per read command, with a
//! fallible conversion from the raw response frame.
//!
//! Every decoder first checks that the frame's command is the one the
//! decoder is bound to; a mismatch is surfaced as a recoverable
//! `ConvertedBadData` error, never a crash, so one bad frame cannot take the
//! dispatcher down. Fractional readings (estimates, currents, temperatures,
//! voltages) are carried as the raw bit patterns of their 4-byte wire
//! encoding; callers that want fractional arithmetic reinterpret the bits at
//! the boundary.

use vstd::prelude::*;

use crate::canframe::CANResponse;
use crate::error::{AxisError, EncoderError, MotorError, SensorlessError};
use crate::response::ODriveError;
use crate::state::{AxisState, ODriveCommand, ReadComm};
use crate::utils::{le32, le32_signed, le64, ResponseManip};
use crate::utils::{i32_from_le, u32_from_le, u64_from_le};

verus! {

/// A result type that can be decoded from a resolved frame.
///
/// `spec_try_from` pins down exactly which frames decode and to what value;
/// `try_from_frame` is its executable twin, answering `ConvertedBadData` for
/// every frame the specification rejects.
pub trait TryFromFrame: Sized {
    /// The value this frame decodes to, or `None` if the frame's command or
    /// payload does not fit this type.
    spec fn spec_try_from(response: CANResponse) -> Option<Self>;

    fn try_from_frame(response: CANResponse) -> (r: Result<Self, ODriveError>)
        ensures
            r == match Self::spec_try_from(response) {
                Some(v) => Ok::<Self, ODriveError>(v),
                None => Err::<Self, ODriveError>(ODriveError::ConvertedBadData),
            },
    ;
}

/// The periodic status report of one axis: its error register and its
/// current operating state.
///
/// Payload layout: bytes 0..4 the axis error register (little endian),
/// byte 4 the state, bytes 5..8 reserved.
#[derive(Clone, Copy, Debug, PartialEq, Eq, Structural)]
pub struct Heartbeat {
    pub axis_error: AxisError,
    pub current_state: AxisState,
}

impl TryFromFrame for Heartbeat {
    open spec fn spec_try_from(response: CANResponse) -> Option<Heartbeat> {
        if response.cmd == ODriveCommand::Read(ReadComm::GetHeartbeat) {
            match (
                AxisError::spec_from_raw(le32(response.data@.subrange(0, 4)) as u32),
                AxisState::spec_from_raw(response.data@[4]),
            ) {
                (Some(axis_error), Some(current_state)) => Some(
                    Heartbeat { axis_error, current_state },
                ),
                _ => None,
            }
        } else {
            None
        }
    }

    fn try_from_frame(response: CANResponse) -> (r: Result<Heartbeat, ODriveError>) {
        if response.cmd != ODriveCommand::Read(ReadComm::GetHeartbeat) {
            return Err(ODriveError::ConvertedBadData);
        }
        let (error_bytes, rest) = ResponseManip::split_32(response.data);
        let axis_error = match AxisError::from_raw(u32_from_le(error_bytes)) {
            Some(e) => e,
            None => {
                return Err(ODriveError::ConvertedBadData);
            },
        };
        let current_state = match AxisState::from_raw(rest[0]) {
            Some(s) => s,
            None => {
                return Err(ODriveError::ConvertedBadData);
            },
        };
        Ok(Heartbeat { axis_error, current_state })
    }
}

/// Position and velocity estimates of the encoder, as the bit patterns of
/// their 4-byte wire encodings (position in bytes 0..4, velocity in bytes
/// 4..8, both little endian).
#[derive(Clone, Copy, Debug, PartialEq, Eq, Structural)]
pub struct EncoderEstimates {
    pub position: u32,
    pub velocity: u32,
}

impl TryFromFrame for EncoderEstimates {
    open spec fn spec_try_from(response: CANResponse) -> Option<EncoderEstimates> {
        if response.cmd == ODriveCommand::Read(ReadComm::GetEncoderEstimates) {
            Some(
                EncoderEstimates {
                    position: le32(response.data@.subrange(0, 4)) as u32,
                    velocity: le32(response.data@.subrange(4, 8)) as u32,
                },
            )
        } else {
            None
        }
    }

    fn try_from_frame(response: CANResponse) -> (r: Result<EncoderEstimates, ODriveError>) {
        if response.cmd != ODriveCommand::Read(ReadComm::GetEncoderEstimates) {
            return Err(ODriveError::ConvertedBadData);
        }
        let (position_bytes, velocity_bytes) = ResponseManip::split_32(response.data);
        Ok(
            EncoderEstimates {
                position: u32_from_le(position_bytes),
                velocity: u32_from_le(velocity_bytes),
            },
        )
    }
}

/// Raw encoder counts: the shadow count in bytes 0..4 and the
/// count-per-revolution count in bytes 4..8, both little-endian signed.
#[derive(Clone, Copy, Debug, PartialEq, Eq, Structural)]
pub struct EncoderCount {
    pub shadow_count: i32,
    pub cpr_count: i32,
}

impl TryFromFrame for EncoderCount {
    open spec fn spec_try_from(response: CANResponse) -> Option<EncoderCount> {
        if response.cmd == ODriveCommand::Read(ReadComm::GetEncoderCount) {
            Some(
                EncoderCount {
                    shadow_count: le32_signed(response.data@.subrange(0, 4)) as i32,
                    cpr_count: le32_signed(response.data@.subrange(4, 8)) as i32,
                },
            )
        } else {
            None
        }
    }

    fn try_from_frame(response: CANResponse) -> (r: Result<EncoderCount, ODriveError>) {
        if response.cmd != ODriveCommand::Read(ReadComm::GetEncoderCount) {
            return Err(ODriveError::ConvertedBadData);
        }
        let (shadow_bytes, cpr_bytes) = ResponseManip::split_32(response.data);
        Ok(EncoderCount { shadow_count: i32_from_le(shadow_bytes), cpr_count: i32_from_le(cpr_bytes) })
    }
}

/// The commanded and measured quadrature current, as the bit patterns of
/// their 4-byte wire encodings (setpoint in bytes 0..4, measurement in bytes
/// 4..8).
#[derive(Clone, Copy, Debug, PartialEq, Eq, Structural)]
pub struct IQ {
    pub setpoint: u32,
    pub measured: u32,
}

impl TryFromFrame for IQ {
    open spec fn spec_try_from(response: CANResponse) -> Option<IQ> {
        if response.cmd == ODriveCommand::Read(ReadComm::GetIQ) {
            Some(
                IQ {
                    setpoint: le32(response.data@.subrange(0, 4)) as u32,
                    measured: le32(response.data@.subrange(4, 8)) as u32,
                },
            )
        } else {
            None
        }
    }

    fn try_from_frame(response: CANResponse) -> (r: Result<IQ, ODriveError>) {
        if response.cmd != ODriveCommand::Read(ReadComm::GetIQ) {
            return Err(ODriveError::ConvertedBadData);
        }
        let (setpoint_bytes, measured_bytes) = ResponseManip::split_32(response.data);
        Ok(IQ { setpoint: u32_from_le(setpoint_bytes), measured: u32_from_le(measured_bytes) })
    }
}

/// Inverter and motor temperatures, as the bit patterns of their 4-byte wire
/// encodings (inverter in bytes 0..4, motor in bytes 4..8).
#[derive(Clone, Copy, Debug, PartialEq, Eq, Structural)]
pub struct Temperature {
    pub inverter: u32,
    pub motor: u32,
}

impl TryFromFrame for Temperature {
    open spec fn spec_try_from(response: CANResponse) -> Option<Temperature> {
        if response.cmd == ODriveCommand::Read(ReadComm::GetTemperature) {
            Some(
                Temperature {
                    inverter: le32(response.data@.subrange(0, 4)) as u32,
                    motor: le32(response.data@.subrange(4, 8)) as u32,
                },
            )
        } else {
            None
        }
    }

    fn try_from_frame(response: CANResponse) -> (r: Result<Temperature, ODriveError>) {
        if response.cmd != ODriveCommand::Read(ReadComm::GetTemperature) {
            return Err(ODriveError::ConvertedBadData);
        }
        let (inverter_bytes, motor_bytes) = ResponseManip::split_32(response.data);
        Ok(Temperature { inverter: u32_from_le(inverter_bytes), motor: u32_from_le(motor_bytes) })
    }
}

/// Bus voltage and current, as the bit patterns of their 4-byte wire
/// encodings (voltage in bytes 0..4, current in bytes 4..8).
#[derive(Clone, Copy, Debug, PartialEq, Eq, Structural)]
pub struct Bus {
    pub voltage: u32,
    pub current: u32,
}

impl TryFromFrame for Bus {
    open spec fn spec_try_from(response: CANResponse) -> Option<Bus> {
        if response.cmd == ODriveCommand::Read(ReadComm::GetVBusVoltage) {
            Some(
                Bus {
                    voltage: le32(response.data@.subrange(0, 4)) as u32,
                    current: le32(response.data@.subrange(4, 8)) as u32,
                },
            )
        } else {
            None
        }
    }

    fn try_from_frame(response: CANResponse) -> (r: Result<Bus, ODriveError>) {
        if response.cmd != ODriveCommand::Read(ReadComm::GetVBusVoltage) {
            return Err(ODriveError::ConvertedBadData);
        }
        let (voltage_bytes, current_bytes) = ResponseManip::split_32(response.data);
        Ok(Bus { voltage: u32_from_le(voltage_bytes), current: u32_from_le(current_bytes) })
    }
}

impl TryFromFrame for MotorError {
    open spec fn spec_try_from(response: CANResponse) -> Option<MotorError> {
        if response.cmd == ODriveCommand::Read(ReadComm::MotorError) {
            MotorError::spec_from_raw(le64(response.data@) as u64)
        } else {
            None
        }
    }

    fn try_from_frame(response: CANResponse) -> (r: Result<MotorError, ODriveError>) {
        if response.cmd != ODriveCommand::Read(ReadComm::MotorError) {
            return Err(ODriveError::ConvertedBadData);
        }
        match MotorError::from_raw(u64_from_le(response.data)) {
            Some(e) => Ok(e),
            None => Err(ODriveError::ConvertedBadData),
        }
    }
}

impl TryFromFrame for EncoderError {
    open spec fn spec_try_from(response: CANResponse) -> Option<EncoderError> {
        if response.cmd == ODriveCommand::Read(ReadComm::EncoderError) {
            EncoderError::spec_from_raw(le32(response.data@.subrange(0, 4)) as u32)
        } else {
            None
        }
    }

    fn try_from_frame(response: CANResponse) -> (r: Result<EncoderError, ODriveError>) {
        if response.cmd != ODriveCommand::Read(ReadComm::EncoderError) {
            return Err(ODriveError::ConvertedBadData);
        }
        let (error_bytes, _rest) = ResponseManip::split_32(response.data);
        match EncoderError::from_raw(u32_from_le(error_bytes)) {
            Some(e) => Ok(e),
            None => Err(ODriveError::ConvertedBadData),
        }
    }
}

impl TryFromFrame for SensorlessError {
    open spec fn spec_try_from(response: CANResponse) -> Option<SensorlessError> {
        if response.cmd == ODriveCommand::Read(ReadComm::SensorlessError) {
            SensorlessError::spec_from_raw(le32(response.data@.subrange(0, 4)) as u32)
        } else {
            None
        }
    }

    fn try_from_frame(response: CANResponse) -> (r: Result<SensorlessError, ODriveError>) {
        if response.cmd != ODriveCommand::Read(ReadComm::SensorlessError) {
            return Err(ODriveError::ConvertedBadData);
        }
        let (error_bytes, _rest) = ResponseManip::split_32(response.data);
        match SensorlessError::from_raw(u32_from_le(error_bytes)) {
            Some(e) => Ok(e),
            None => Err(ODriveError::ConvertedBadData),
        }
    }
}

/// A write command resolves to the unit type: there is no body to decode,
/// only the acknowledgement. Asking for a unit out of a read frame is a
/// wiring mistake and is rejected as bad data.
impl TryFromFrame for () {
    open spec fn spec_try_from(response: CANResponse) -> Option<()> {
        if response.cmd is Write {
            Some(())
        } else {
            None
        }
    }

    fn try_from_frame(response: CANResponse) -> (r: Result<(), ODriveError>) {
        match response.cmd {
            ODriveCommand::Write(_) => Ok(()),
            ODriveCommand::Read(_) => Err(ODriveError::ConvertedBadData),
        }
    }
}

} // verus!
