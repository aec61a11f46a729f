//! The command registry: the closed numeric code spaces for read and write
//! commands, together with the axis-state and controller-mode enumerations
//! carried inside payloads.

use vstd::prelude::*;

verus! {

/// Commands that read a value back from an axis. Each command owns a stable
/// small integer code in the 5-bit command space of the arbitration id.
#[derive(Clone, Copy, Debug, PartialEq, Eq, Hash, Structural)]
pub enum ReadComm {
    GetHeartbeat,
    MotorError,
    EncoderError,
    SensorlessError,
    GetEncoderEstimates,
    GetEncoderCount,
    GetIQ,
    GetTemperature,
    GetVBusVoltage,
}

impl ReadComm {
    /// The wire code of this read command.
    pub open spec fn spec_code(self) -> u32 {
        match self {
            ReadComm::GetHeartbeat => 0x001,
            ReadComm::MotorError => 0x003,
            ReadComm::EncoderError => 0x004,
            ReadComm::SensorlessError => 0x005,
            ReadComm::GetEncoderEstimates => 0x009,
            ReadComm::GetEncoderCount => 0x00A,
            ReadComm::GetIQ => 0x014,
            ReadComm::GetTemperature => 0x015,
            ReadComm::GetVBusVoltage => 0x017,
        }
    }

    pub fn code(self) -> (c: u32)
        ensures
            c == self.spec_code(),
    {
        match self {
            ReadComm::GetHeartbeat => 0x001,
            ReadComm::MotorError => 0x003,
            ReadComm::EncoderError => 0x004,
            ReadComm::SensorlessError => 0x005,
            ReadComm::GetEncoderEstimates => 0x009,
            ReadComm::GetEncoderCount => 0x00A,
            ReadComm::GetIQ => 0x014,
            ReadComm::GetTemperature => 0x015,
            ReadComm::GetVBusVoltage => 0x017,
        }
    }

    /// The read command owning a wire code, if any.
    pub open spec fn spec_from_code(c: u32) -> Option<ReadComm> {
        if c == 0x001 {
            Some(ReadComm::GetHeartbeat)
        } else if c == 0x003 {
            Some(ReadComm::MotorError)
        } else if c == 0x004 {
            Some(ReadComm::EncoderError)
        } else if c == 0x005 {
            Some(ReadComm::SensorlessError)
        } else if c == 0x009 {
            Some(ReadComm::GetEncoderEstimates)
        } else if c == 0x00A {
            Some(ReadComm::GetEncoderCount)
        } else if c == 0x014 {
            Some(ReadComm::GetIQ)
        } else if c == 0x015 {
            Some(ReadComm::GetTemperature)
        } else if c == 0x017 {
            Some(ReadComm::GetVBusVoltage)
        } else {
            None
        }
    }

    pub fn from_code(c: u32) -> (r: Option<ReadComm>)
        ensures
            r == Self::spec_from_code(c),
    {
        match c {
            0x001 => Some(ReadComm::GetHeartbeat),
            0x003 => Some(ReadComm::MotorError),
            0x004 => Some(ReadComm::EncoderError),
            0x005 => Some(ReadComm::SensorlessError),
            0x009 => Some(ReadComm::GetEncoderEstimates),
            0x00A => Some(ReadComm::GetEncoderCount),
            0x014 => Some(ReadComm::GetIQ),
            0x015 => Some(ReadComm::GetTemperature),
            0x017 => Some(ReadComm::GetVBusVoltage),
            _ => None,
        }
    }
}

/// Commands that write a value to an axis and are answered by a bare
/// acknowledgement.
#[derive(Clone, Copy, Debug, PartialEq, Eq, Hash, Structural)]
pub enum WriteComm {
    EStop,
    SetAxisNodeID,
    SetAxisRequestedState,
    SetControllerMode,
    SetInputPosition,
    SetInputVelocity,
    SetInputTorque,
    SetLimits,
    StartAnticogging,
    SetTrajVelocityLim,
    SetTrajAccelLim,
    SetTrajInertia,
    RebootODrive,
    ClearErrors,
    SetLinearCount,
    SetPositionGain,
    SetVelocityGain,
}

impl WriteComm {
    /// The wire code of this write command.
    pub open spec fn spec_code(self) -> u32 {
        match self {
            WriteComm::EStop => 0x002,
            WriteComm::SetAxisNodeID => 0x006,
            WriteComm::SetAxisRequestedState => 0x007,
            WriteComm::SetControllerMode => 0x00B,
            WriteComm::SetInputPosition => 0x00C,
            WriteComm::SetInputVelocity => 0x00D,
            WriteComm::SetInputTorque => 0x00E,
            WriteComm::SetLimits => 0x00F,
            WriteComm::StartAnticogging => 0x010,
            WriteComm::SetTrajVelocityLim => 0x011,
            WriteComm::SetTrajAccelLim => 0x012,
            WriteComm::SetTrajInertia => 0x013,
            WriteComm::RebootODrive => 0x016,
            WriteComm::ClearErrors => 0x018,
            WriteComm::SetLinearCount => 0x019,
            WriteComm::SetPositionGain => 0x01A,
            WriteComm::SetVelocityGain => 0x01B,
        }
    }

    pub fn code(self) -> (c: u32)
        ensures
            c == self.spec_code(),
    {
        match self {
            WriteComm::EStop => 0x002,
            WriteComm::SetAxisNodeID => 0x006,
            WriteComm::SetAxisRequestedState => 0x007,
            WriteComm::SetControllerMode => 0x00B,
            WriteComm::SetInputPosition => 0x00C,
            WriteComm::SetInputVelocity => 0x00D,
            WriteComm::SetInputTorque => 0x00E,
            WriteComm::SetLimits => 0x00F,
            WriteComm::StartAnticogging => 0x010,
            WriteComm::SetTrajVelocityLim => 0x011,
            WriteComm::SetTrajAccelLim => 0x012,
            WriteComm::SetTrajInertia => 0x013,
            WriteComm::RebootODrive => 0x016,
            WriteComm::ClearErrors => 0x018,
            WriteComm::SetLinearCount => 0x019,
            WriteComm::SetPositionGain => 0x01A,
            WriteComm::SetVelocityGain => 0x01B,
        }
    }

    /// The write command owning a wire code, if any.
    pub open spec fn spec_from_code(c: u32) -> Option<WriteComm> {
        if c == 0x002 {
            Some(WriteComm::EStop)
        } else if c == 0x006 {
            Some(WriteComm::SetAxisNodeID)
        } else if c == 0x007 {
            Some(WriteComm::SetAxisRequestedState)
        } else if c == 0x00B {
            Some(WriteComm::SetControllerMode)
        } else if c == 0x00C {
            Some(WriteComm::SetInputPosition)
        } else if c == 0x00D {
            Some(WriteComm::SetInputVelocity)
        } else if c == 0x00E {
            Some(WriteComm::SetInputTorque)
        } else if c == 0x00F {
            Some(WriteComm::SetLimits)
        } else if c == 0x010 {
            Some(WriteComm::StartAnticogging)
        } else if c == 0x011 {
            Some(WriteComm::SetTrajVelocityLim)
        } else if c == 0x012 {
            Some(WriteComm::SetTrajAccelLim)
        } else if c == 0x013 {
            Some(WriteComm::SetTrajInertia)
        } else if c == 0x016 {
            Some(WriteComm::RebootODrive)
        } else if c == 0x018 {
            Some(WriteComm::ClearErrors)
        } else if c == 0x019 {
            Some(WriteComm::SetLinearCount)
        } else if c == 0x01A {
            Some(WriteComm::SetPositionGain)
        } else if c == 0x01B {
            Some(WriteComm::SetVelocityGain)
        } else {
            None
        }
    }

    pub fn from_code(c: u32) -> (r: Option<WriteComm>)
        ensures
            r == Self::spec_from_code(c),
    {
        match c {
            0x002 => Some(WriteComm::EStop),
            0x006 => Some(WriteComm::SetAxisNodeID),
            0x007 => Some(WriteComm::SetAxisRequestedState),
            0x00B => Some(WriteComm::SetControllerMode),
            0x00C => Some(WriteComm::SetInputPosition),
            0x00D => Some(WriteComm::SetInputVelocity),
            0x00E => Some(WriteComm::SetInputTorque),
            0x00F => Some(WriteComm::SetLimits),
            0x010 => Some(WriteComm::StartAnticogging),
            0x011 => Some(WriteComm::SetTrajVelocityLim),
            0x012 => Some(WriteComm::SetTrajAccelLim),
            0x013 => Some(WriteComm::SetTrajInertia),
            0x016 => Some(WriteComm::RebootODrive),
            0x018 => Some(WriteComm::ClearErrors),
            0x019 => Some(WriteComm::SetLinearCount),
            0x01A => Some(WriteComm::SetPositionGain),
            0x01B => Some(WriteComm::SetVelocityGain),
            _ => None,
        }
    }
}

/// A command addressed to one axis: either a read, which is answered with a
/// payload, or a write, which is answered with a bare acknowledgement. The
/// read and write code spaces are disjoint.
#[derive(Clone, Copy, Debug, PartialEq, Eq, Hash, Structural)]
pub enum ODriveCommand {
    Read(ReadComm),
    Write(WriteComm),
}

impl ODriveCommand {
    /// The wire code of this command inside the 5-bit field of the
    /// arbitration id.
    pub open spec fn spec_code(self) -> u32 {
        match self {
            ODriveCommand::Read(r) => r.spec_code(),
            ODriveCommand::Write(w) => w.spec_code(),
        }
    }

    pub fn code(self) -> (c: u32)
        ensures
            c == self.spec_code(),
    {
        match self {
            ODriveCommand::Read(r) => r.code(),
            ODriveCommand::Write(w) => w.code(),
        }
    }

    /// The command owning a wire code: the read table is consulted first,
    /// then the write table. A code found in neither table belongs to a
    /// foreign frame.
    pub open spec fn spec_from_code(c: u32) -> Option<ODriveCommand> {
        match ReadComm::spec_from_code(c) {
            Some(r) => Some(ODriveCommand::Read(r)),
            None => match WriteComm::spec_from_code(c) {
                Some(w) => Some(ODriveCommand::Write(w)),
                None => None,
            },
        }
    }

    pub fn from_code(c: u32) -> (r: Option<ODriveCommand>)
        ensures
            r == Self::spec_from_code(c),
    {
        match ReadComm::from_code(c) {
            Some(r) => Some(ODriveCommand::Read(r)),
            None => match WriteComm::from_code(c) {
                Some(w) => Some(ODriveCommand::Write(w)),
                None => None,
            },
        }
    }
}

/// The operating state an axis can be asked to enter (or reports itself in,
/// inside a heartbeat).
#[derive(Clone, Copy, Debug, PartialEq, Eq, Structural)]
pub enum AxisState {
    Undefined,
    Idle,
    StartupSequence,
    FullCalibrationSequence,
    MotorCalibration,
    EncoderIndexSearch,
    EncoderOffsetCalib,
    ClosedLoop,
    LockinSpin,
    EncoderDirFind,
    Homing,
    EncoderHallPolarityCalib,
    EncoderHallPhaseCalib,
}

impl AxisState {
    /// The wire value of this state.
    pub open spec fn spec_value(self) -> u8 {
        match self {
            AxisState::Undefined => 0x0,
            AxisState::Idle => 0x1,
            AxisState::StartupSequence => 0x2,
            AxisState::FullCalibrationSequence => 0x3,
            AxisState::MotorCalibration => 0x4,
            AxisState::EncoderIndexSearch => 0x5,
            AxisState::EncoderOffsetCalib => 0x7,
            AxisState::ClosedLoop => 0x8,
            AxisState::LockinSpin => 0x9,
            AxisState::EncoderDirFind => 0xA,
            AxisState::Homing => 0xB,
            AxisState::EncoderHallPolarityCalib => 0xC,
            AxisState::EncoderHallPhaseCalib => 0xD,
        }
    }

    pub fn value(self) -> (v: u8)
        ensures
            v == self.spec_value(),
    {
        match self {
            AxisState::Undefined => 0x0,
            AxisState::Idle => 0x1,
            AxisState::StartupSequence => 0x2,
            AxisState::FullCalibrationSequence => 0x3,
            AxisState::MotorCalibration => 0x4,
            AxisState::EncoderIndexSearch => 0x5,
            AxisState::EncoderOffsetCalib => 0x7,
            AxisState::ClosedLoop => 0x8,
            AxisState::LockinSpin => 0x9,
            AxisState::EncoderDirFind => 0xA,
            AxisState::Homing => 0xB,
            AxisState::EncoderHallPolarityCalib => 0xC,
            AxisState::EncoderHallPhaseCalib => 0xD,
        }
    }

    /// The state owning a wire value; decoding demands an exact match.
    pub open spec fn spec_from_raw(v: u8) -> Option<AxisState> {
        if v == 0x0 {
            Some(AxisState::Undefined)
        } else if v == 0x1 {
            Some(AxisState::Idle)
        } else if v == 0x2 {
            Some(AxisState::StartupSequence)
        } else if v == 0x3 {
            Some(AxisState::FullCalibrationSequence)
        } else if v == 0x4 {
            Some(AxisState::MotorCalibration)
        } else if v == 0x5 {
            Some(AxisState::EncoderIndexSearch)
        } else if v == 0x7 {
            Some(AxisState::EncoderOffsetCalib)
        } else if v == 0x8 {
            Some(AxisState::ClosedLoop)
        } else if v == 0x9 {
            Some(AxisState::LockinSpin)
        } else if v == 0xA {
            Some(AxisState::EncoderDirFind)
        } else if v == 0xB {
            Some(AxisState::Homing)
        } else if v == 0xC {
            Some(AxisState::EncoderHallPolarityCalib)
        } else if v == 0xD {
            Some(AxisState::EncoderHallPhaseCalib)
        } else {
            None
        }
    }

    pub fn from_raw(v: u8) -> (r: Option<AxisState>)
        ensures
            r == Self::spec_from_raw(v),
    {
        match v {
            0x0 => Some(AxisState::Undefined),
            0x1 => Some(AxisState::Idle),
            0x2 => Some(AxisState::StartupSequence),
            0x3 => Some(AxisState::FullCalibrationSequence),
            0x4 => Some(AxisState::MotorCalibration),
            0x5 => Some(AxisState::EncoderIndexSearch),
            0x7 => Some(AxisState::EncoderOffsetCalib),
            0x8 => Some(AxisState::ClosedLoop),
            0x9 => Some(AxisState::LockinSpin),
            0xA => Some(AxisState::EncoderDirFind),
            0xB => Some(AxisState::Homing),
            0xC => Some(AxisState::EncoderHallPolarityCalib),
            0xD => Some(AxisState::EncoderHallPhaseCalib),
            _ => None,
        }
    }
}

/// How the controller interprets its input values.
#[derive(Clone, Copy, Debug, PartialEq, Eq, Structural)]
pub enum ControlMode {
    VoltageControl,
    TorqueControl,
    VelocityControl,
    PositionControl,
}

impl ControlMode {
    /// The wire value of this mode, as packed into the first payload byte of
    /// a controller-mode write.
    pub open spec fn spec_value(self) -> u8 {
        match self {
            ControlMode::VoltageControl => 0x0,
            ControlMode::TorqueControl => 0x1,
            ControlMode::VelocityControl => 0x2,
            ControlMode::PositionControl => 0x3,
        }
    }

    pub fn value(self) -> (v: u8)
        ensures
            v == self.spec_value(),
    {
        match self {
            ControlMode::VoltageControl => 0x0,
            ControlMode::TorqueControl => 0x1,
            ControlMode::VelocityControl => 0x2,
            ControlMode::PositionControl => 0x3,
        }
    }
}

/// How raw input values are filtered before they reach the controller.
#[derive(Clone, Copy, Debug, PartialEq, Eq, Structural)]
pub enum InputMode {
    Inactive,
    Passthrough,
    VelRamp,
    PosFilter,
    MixChannels,
    TrapTraj,
    TorqueRamp,
    Mirror,
    Tuning,
}

impl InputMode {
    /// The wire value of this mode, as packed into the fifth payload byte of
    /// a controller-mode write.
    pub open spec fn spec_value(self) -> u8 {
        match self {
            InputMode::Inactive => 0x0,
            InputMode::Passthrough => 0x1,
            InputMode::VelRamp => 0x2,
            InputMode::PosFilter => 0x3,
            InputMode::MixChannels => 0x4,
            InputMode::TrapTraj => 0x5,
            InputMode::TorqueRamp => 0x6,
            InputMode::Mirror => 0x7,
            InputMode::Tuning => 0x8,
        }
    }

    pub fn value(self) -> (v: u8)
        ensures
            v == self.spec_value(),
    {
        match self {
            InputMode::Inactive => 0x0,
            InputMode::Passthrough => 0x1,
            InputMode::VelRamp => 0x2,
            InputMode::PosFilter => 0x3,
            InputMode::MixChannels => 0x4,
            InputMode::TrapTraj => 0x5,
            InputMode::TorqueRamp => 0x6,
            InputMode::Mirror => 0x7,
            InputMode::Tuning => 0x8,
        }
    }
}

} // verus!
