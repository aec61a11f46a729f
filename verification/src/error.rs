//! Bitmask error registers reported by an axis. Each named variant owns
//! exactly one power-of-two bit value, and decoding demands that the raw
//! field equal one declared variant's value exactly; any other raw value is
//! rejected as bad data.

use vstd::prelude::*;

verus! {

/// Fault conditions of the axis itself.
#[derive(Clone, Copy, Debug, PartialEq, Eq, Structural)]
pub enum AxisError {
    Initializing,
    SystemLevel,
    TimingError,
    MissingEstimate,
    BadConfig,
    DrvFault,
    DCBusOverVoltage,
    DCBusUnderVoltage,
    DCBusOverCurrent,
    DCBusOverRegenCurrent,
    CurrentLimitViolation,
    MotorOverTemp,
    InverterOverTemp,
    VelocityLimitViolation,
    PositionLimitViolation,
    WatchdogTimerExpired,
    EStopRequested,
    SpinoutDetected,
    OtherDeviceFailed,
}

impl AxisError {
    /// The single bit value owned by this variant.
    pub open spec fn spec_value(self) -> u32 {
        match self {
            AxisError::Initializing => 0x1,
            AxisError::SystemLevel => 0x2,
            AxisError::TimingError => 0x4,
            AxisError::MissingEstimate => 0x8,
            AxisError::BadConfig => 0x10,
            AxisError::DrvFault => 0x20,
            AxisError::DCBusOverVoltage => 0x100,
            AxisError::DCBusUnderVoltage => 0x200,
            AxisError::DCBusOverCurrent => 0x400,
            AxisError::DCBusOverRegenCurrent => 0x800,
            AxisError::CurrentLimitViolation => 0x1000,
            AxisError::MotorOverTemp => 0x2000,
            AxisError::InverterOverTemp => 0x4000,
            AxisError::VelocityLimitViolation => 0x8000,
            AxisError::PositionLimitViolation => 0x10000,
            AxisError::WatchdogTimerExpired => 0x1000000,
            AxisError::EStopRequested => 0x2000000,
            AxisError::SpinoutDetected => 0x4000000,
            AxisError::OtherDeviceFailed => 0x8000000,
        }
    }

    pub fn value(self) -> (v: u32)
        ensures
            v == self.spec_value(),
    {
        match self {
            AxisError::Initializing => 0x1,
            AxisError::SystemLevel => 0x2,
            AxisError::TimingError => 0x4,
            AxisError::MissingEstimate => 0x8,
            AxisError::BadConfig => 0x10,
            AxisError::DrvFault => 0x20,
            AxisError::DCBusOverVoltage => 0x100,
            AxisError::DCBusUnderVoltage => 0x200,
            AxisError::DCBusOverCurrent => 0x400,
            AxisError::DCBusOverRegenCurrent => 0x800,
            AxisError::CurrentLimitViolation => 0x1000,
            AxisError::MotorOverTemp => 0x2000,
            AxisError::InverterOverTemp => 0x4000,
            AxisError::VelocityLimitViolation => 0x8000,
            AxisError::PositionLimitViolation => 0x10000,
            AxisError::WatchdogTimerExpired => 0x1000000,
            AxisError::EStopRequested => 0x2000000,
            AxisError::SpinoutDetected => 0x4000000,
            AxisError::OtherDeviceFailed => 0x8000000,
        }
    }

    /// The variant owning a raw register value; decoding demands an exact
    /// match with one declared bit value.
    pub open spec fn spec_from_raw(v: u32) -> Option<AxisError> {
        if v == 0x1 {
            Some(AxisError::Initializing)
        } else if v == 0x2 {
            Some(AxisError::SystemLevel)
        } else if v == 0x4 {
            Some(AxisError::TimingError)
        } else if v == 0x8 {
            Some(AxisError::MissingEstimate)
        } else if v == 0x10 {
            Some(AxisError::BadConfig)
        } else if v == 0x20 {
            Some(AxisError::DrvFault)
        } else if v == 0x100 {
            Some(AxisError::DCBusOverVoltage)
        } else if v == 0x200 {
            Some(AxisError::DCBusUnderVoltage)
        } else if v == 0x400 {
            Some(AxisError::DCBusOverCurrent)
        } else if v == 0x800 {
            Some(AxisError::DCBusOverRegenCurrent)
        } else if v == 0x1000 {
            Some(AxisError::CurrentLimitViolation)
        } else if v == 0x2000 {
            Some(AxisError::MotorOverTemp)
        } else if v == 0x4000 {
            Some(AxisError::InverterOverTemp)
        } else if v == 0x8000 {
            Some(AxisError::VelocityLimitViolation)
        } else if v == 0x10000 {
            Some(AxisError::PositionLimitViolation)
        } else if v == 0x1000000 {
            Some(AxisError::WatchdogTimerExpired)
        } else if v == 0x2000000 {
            Some(AxisError::EStopRequested)
        } else if v == 0x4000000 {
            Some(AxisError::SpinoutDetected)
        } else if v == 0x8000000 {
            Some(AxisError::OtherDeviceFailed)
        } else {
            None
        }
    }

    pub fn from_raw(v: u32) -> (r: Option<AxisError>)
        ensures
            r == Self::spec_from_raw(v),
    {
        match v {
            0x1 => Some(AxisError::Initializing),
            0x2 => Some(AxisError::SystemLevel),
            0x4 => Some(AxisError::TimingError),
            0x8 => Some(AxisError::MissingEstimate),
            0x10 => Some(AxisError::BadConfig),
            0x20 => Some(AxisError::DrvFault),
            0x100 => Some(AxisError::DCBusOverVoltage),
            0x200 => Some(AxisError::DCBusUnderVoltage),
            0x400 => Some(AxisError::DCBusOverCurrent),
            0x800 => Some(AxisError::DCBusOverRegenCurrent),
            0x1000 => Some(AxisError::CurrentLimitViolation),
            0x2000 => Some(AxisError::MotorOverTemp),
            0x4000 => Some(AxisError::InverterOverTemp),
            0x8000 => Some(AxisError::VelocityLimitViolation),
            0x10000 => Some(AxisError::PositionLimitViolation),
            0x1000000 => Some(AxisError::WatchdogTimerExpired),
            0x2000000 => Some(AxisError::EStopRequested),
            0x4000000 => Some(AxisError::SpinoutDetected),
            0x8000000 => Some(AxisError::OtherDeviceFailed),
            _ => None,
        }
    }
}

/// Fault conditions of the motor driver.
#[derive(Clone, Copy, Debug, PartialEq, Eq, Structural)]
pub enum MotorError {
    PhaseResistanceOFR,
    PhaseInductanceOFR,
    DRVFault,
    ControlDeadlineMissed,
    ModulationMagnitude,
    CurrentSenseSaturation,
    CurrentLimitViolation,
    ModulationIsNAN,
    MotorThermistorOverTemp,
    FetThermistorOverTemp,
    TimerUpdateMissed,
    CurrentMeasurementUnavailable,
    ControllerFailed,
    IBusOFR,
    BrakeResistorDisarmed,
    SystemLevel,
    BadTiming,
    UnknownPhaseEstimate,
    UnknownPhaseVel,
    UnknownTorque,
    UnknownCurrentCommand,
    UnknownCurrentMeasurement,
    UnknownVBusVoltage,
    UnknownVoltageCommand,
    UnknownGains,
    ControllerInitializing,
    UnbalancedPhases,
}

impl MotorError {
    /// The single bit value owned by this variant.
    pub open spec fn spec_value(self) -> u64 {
        match self {
            MotorError::PhaseResistanceOFR => 0x1,
            MotorError::PhaseInductanceOFR => 0x2,
            MotorError::DRVFault => 0x8,
            MotorError::ControlDeadlineMissed => 0x10,
            MotorError::ModulationMagnitude => 0x80,
            MotorError::CurrentSenseSaturation => 0x400,
            MotorError::CurrentLimitViolation => 0x1000,
            MotorError::ModulationIsNAN => 0x10000,
            MotorError::MotorThermistorOverTemp => 0x20000,
            MotorError::FetThermistorOverTemp => 0x40000,
            MotorError::TimerUpdateMissed => 0x80000,
            MotorError::CurrentMeasurementUnavailable => 0x100000,
            MotorError::ControllerFailed => 0x200000,
            MotorError::IBusOFR => 0x400000,
            MotorError::BrakeResistorDisarmed => 0x800000,
            MotorError::SystemLevel => 0x1000000,
            MotorError::BadTiming => 0x2000000,
            MotorError::UnknownPhaseEstimate => 0x4000000,
            MotorError::UnknownPhaseVel => 0x8000000,
            MotorError::UnknownTorque => 0x10000000,
            MotorError::UnknownCurrentCommand => 0x20000000,
            MotorError::UnknownCurrentMeasurement => 0x40000000,
            MotorError::UnknownVBusVoltage => 0x80000000,
            MotorError::UnknownVoltageCommand => 0x100000000,
            MotorError::UnknownGains => 0x200000000,
            MotorError::ControllerInitializing => 0x400000000,
            MotorError::UnbalancedPhases => 0x800000000,
        }
    }

    pub fn value(self) -> (v: u64)
        ensures
            v == self.spec_value(),
    {
        match self {
            MotorError::PhaseResistanceOFR => 0x1,
            MotorError::PhaseInductanceOFR => 0x2,
            MotorError::DRVFault => 0x8,
            MotorError::ControlDeadlineMissed => 0x10,
            MotorError::ModulationMagnitude => 0x80,
            MotorError::CurrentSenseSaturation => 0x400,
            MotorError::CurrentLimitViolation => 0x1000,
            MotorError::ModulationIsNAN => 0x10000,
            MotorError::MotorThermistorOverTemp => 0x20000,
            MotorError::FetThermistorOverTemp => 0x40000,
            MotorError::TimerUpdateMissed => 0x80000,
            MotorError::CurrentMeasurementUnavailable => 0x100000,
            MotorError::ControllerFailed => 0x200000,
            MotorError::IBusOFR => 0x400000,
            MotorError::BrakeResistorDisarmed => 0x800000,
            MotorError::SystemLevel => 0x1000000,
            MotorError::BadTiming => 0x2000000,
            MotorError::UnknownPhaseEstimate => 0x4000000,
            MotorError::UnknownPhaseVel => 0x8000000,
            MotorError::UnknownTorque => 0x10000000,
            MotorError::UnknownCurrentCommand => 0x20000000,
            MotorError::UnknownCurrentMeasurement => 0x40000000,
            MotorError::UnknownVBusVoltage => 0x80000000,
            MotorError::UnknownVoltageCommand => 0x100000000,
            MotorError::UnknownGains => 0x200000000,
            MotorError::ControllerInitializing => 0x400000000,
            MotorError::UnbalancedPhases => 0x800000000,
        }
    }

    /// The variant owning a raw register value; decoding demands an exact
    /// match with one declared bit value.
    pub open spec fn spec_from_raw(v: u64) -> Option<MotorError> {
        if v == 0x1 {
            Some(MotorError::PhaseResistanceOFR)
        } else if v == 0x2 {
            Some(MotorError::PhaseInductanceOFR)
        } else if v == 0x8 {
            Some(MotorError::DRVFault)
        } else if v == 0x10 {
            Some(MotorError::ControlDeadlineMissed)
        } else if v == 0x80 {
            Some(MotorError::ModulationMagnitude)
        } else if v == 0x400 {
            Some(MotorError::CurrentSenseSaturation)
        } else if v == 0x1000 {
            Some(MotorError::CurrentLimitViolation)
        } else if v == 0x10000 {
            Some(MotorError::ModulationIsNAN)
        } else if v == 0x20000 {
            Some(MotorError::MotorThermistorOverTemp)
        } else if v == 0x40000 {
            Some(MotorError::FetThermistorOverTemp)
        } else if v == 0x80000 {
            Some(MotorError::TimerUpdateMissed)
        } else if v == 0x100000 {
            Some(MotorError::CurrentMeasurementUnavailable)
        } else if v == 0x200000 {
            Some(MotorError::ControllerFailed)
        } else if v == 0x400000 {
            Some(MotorError::IBusOFR)
        } else if v == 0x800000 {
            Some(MotorError::BrakeResistorDisarmed)
        } else if v == 0x1000000 {
            Some(MotorError::SystemLevel)
        } else if v == 0x2000000 {
            Some(MotorError::BadTiming)
        } else if v == 0x4000000 {
            Some(MotorError::UnknownPhaseEstimate)
        } else if v == 0x8000000 {
            Some(MotorError::UnknownPhaseVel)
        } else if v == 0x10000000 {
            Some(MotorError::UnknownTorque)
        } else if v == 0x20000000 {
            Some(MotorError::UnknownCurrentCommand)
        } else if v == 0x40000000 {
            Some(MotorError::UnknownCurrentMeasurement)
        } else if v == 0x80000000 {
            Some(MotorError::UnknownVBusVoltage)
        } else if v == 0x100000000 {
            Some(MotorError::UnknownVoltageCommand)
        } else if v == 0x200000000 {
            Some(MotorError::UnknownGains)
        } else if v == 0x400000000 {
            Some(MotorError::ControllerInitializing)
        } else if v == 0x800000000 {
            Some(MotorError::UnbalancedPhases)
        } else {
            None
        }
    }

    pub fn from_raw(v: u64) -> (r: Option<MotorError>)
        ensures
            r == Self::spec_from_raw(v),
    {
        match v {
            0x1 => Some(MotorError::PhaseResistanceOFR),
            0x2 => Some(MotorError::PhaseInductanceOFR),
            0x8 => Some(MotorError::DRVFault),
            0x10 => Some(MotorError::ControlDeadlineMissed),
            0x80 => Some(MotorError::ModulationMagnitude),
            0x400 => Some(MotorError::CurrentSenseSaturation),
            0x1000 => Some(MotorError::CurrentLimitViolation),
            0x10000 => Some(MotorError::ModulationIsNAN),
            0x20000 => Some(MotorError::MotorThermistorOverTemp),
            0x40000 => Some(MotorError::FetThermistorOverTemp),
            0x80000 => Some(MotorError::TimerUpdateMissed),
            0x100000 => Some(MotorError::CurrentMeasurementUnavailable),
            0x200000 => Some(MotorError::ControllerFailed),
            0x400000 => Some(MotorError::IBusOFR),
            0x800000 => Some(MotorError::BrakeResistorDisarmed),
            0x1000000 => Some(MotorError::SystemLevel),
            0x2000000 => Some(MotorError::BadTiming),
            0x4000000 => Some(MotorError::UnknownPhaseEstimate),
            0x8000000 => Some(MotorError::UnknownPhaseVel),
            0x10000000 => Some(MotorError::UnknownTorque),
            0x20000000 => Some(MotorError::UnknownCurrentCommand),
            0x40000000 => Some(MotorError::UnknownCurrentMeasurement),
            0x80000000 => Some(MotorError::UnknownVBusVoltage),
            0x100000000 => Some(MotorError::UnknownVoltageCommand),
            0x200000000 => Some(MotorError::UnknownGains),
            0x400000000 => Some(MotorError::ControllerInitializing),
            0x800000000 => Some(MotorError::UnbalancedPhases),
            _ => None,
        }
    }
}

/// Fault conditions of the position encoder.
#[derive(Clone, Copy, Debug, PartialEq, Eq, Structural)]
pub enum EncoderError {
    UnstableGain,
    CPRPolepairsMismatch,
    NoResponse,
    UnsupportedEncoderMode,
    IllegalHallState,
    IndexNotFoundYet,
    AbsSpiTimeout,
    AbsSpiComFail,
    AbsSpiNotReady,
    HallNotCalibratedYet,
}

impl EncoderError {
    /// The single bit value owned by this variant.
    pub open spec fn spec_value(self) -> u32 {
        match self {
            EncoderError::UnstableGain => 0x1,
            EncoderError::CPRPolepairsMismatch => 0x2,
            EncoderError::NoResponse => 0x4,
            EncoderError::UnsupportedEncoderMode => 0x8,
            EncoderError::IllegalHallState => 0x10,
            EncoderError::IndexNotFoundYet => 0x20,
            EncoderError::AbsSpiTimeout => 0x40,
            EncoderError::AbsSpiComFail => 0x80,
            EncoderError::AbsSpiNotReady => 0x100,
            EncoderError::HallNotCalibratedYet => 0x200,
        }
    }

    pub fn value(self) -> (v: u32)
        ensures
            v == self.spec_value(),
    {
        match self {
            EncoderError::UnstableGain => 0x1,
            EncoderError::CPRPolepairsMismatch => 0x2,
            EncoderError::NoResponse => 0x4,
            EncoderError::UnsupportedEncoderMode => 0x8,
            EncoderError::IllegalHallState => 0x10,
            EncoderError::IndexNotFoundYet => 0x20,
            EncoderError::AbsSpiTimeout => 0x40,
            EncoderError::AbsSpiComFail => 0x80,
            EncoderError::AbsSpiNotReady => 0x100,
            EncoderError::HallNotCalibratedYet => 0x200,
        }
    }

    /// The variant owning a raw register value; decoding demands an exact
    /// match with one declared bit value.
    pub open spec fn spec_from_raw(v: u32) -> Option<EncoderError> {
        if v == 0x1 {
            Some(EncoderError::UnstableGain)
        } else if v == 0x2 {
            Some(EncoderError::CPRPolepairsMismatch)
        } else if v == 0x4 {
            Some(EncoderError::NoResponse)
        } else if v == 0x8 {
            Some(EncoderError::UnsupportedEncoderMode)
        } else if v == 0x10 {
            Some(EncoderError::IllegalHallState)
        } else if v == 0x20 {
            Some(EncoderError::IndexNotFoundYet)
        } else if v == 0x40 {
            Some(EncoderError::AbsSpiTimeout)
        } else if v == 0x80 {
            Some(EncoderError::AbsSpiComFail)
        } else if v == 0x100 {
            Some(EncoderError::AbsSpiNotReady)
        } else if v == 0x200 {
            Some(EncoderError::HallNotCalibratedYet)
        } else {
            None
        }
    }

    pub fn from_raw(v: u32) -> (r: Option<EncoderError>)
        ensures
            r == Self::spec_from_raw(v),
    {
        match v {
            0x1 => Some(EncoderError::UnstableGain),
            0x2 => Some(EncoderError::CPRPolepairsMismatch),
            0x4 => Some(EncoderError::NoResponse),
            0x8 => Some(EncoderError::UnsupportedEncoderMode),
            0x10 => Some(EncoderError::IllegalHallState),
            0x20 => Some(EncoderError::IndexNotFoundYet),
            0x40 => Some(EncoderError::AbsSpiTimeout),
            0x80 => Some(EncoderError::AbsSpiComFail),
            0x100 => Some(EncoderError::AbsSpiNotReady),
            0x200 => Some(EncoderError::HallNotCalibratedYet),
            _ => None,
        }
    }
}

/// Fault conditions of the sensorless estimator.
#[derive(Clone, Copy, Debug, PartialEq, Eq, Structural)]
pub enum SensorlessError {
    UnstableGain,
    UnknownCurrentMeasurement,
}

impl SensorlessError {
    /// The single bit value owned by this variant.
    pub open spec fn spec_value(self) -> u32 {
        match self {
            SensorlessError::UnstableGain => 0x1,
            SensorlessError::UnknownCurrentMeasurement => 0x2,
        }
    }

    pub fn value(self) -> (v: u32)
        ensures
            v == self.spec_value(),
    {
        match self {
            SensorlessError::UnstableGain => 0x1,
            SensorlessError::UnknownCurrentMeasurement => 0x2,
        }
    }

    /// The variant owning a raw register value; decoding demands an exact
    /// match with one declared bit value.
    pub open spec fn spec_from_raw(v: u32) -> Option<SensorlessError> {
        if v == 0x1 {
            Some(SensorlessError::UnstableGain)
        } else if v == 0x2 {
            Some(SensorlessError::UnknownCurrentMeasurement)
        } else {
            None
        }
    }

    pub fn from_raw(v: u32) -> (r: Option<SensorlessError>)
        ensures
            r == Self::spec_from_raw(v),
    {
        match v {
            0x1 => Some(SensorlessError::UnstableGain),
            0x2 => Some(SensorlessError::UnknownCurrentMeasurement),
            _ => None,
        }
    }
}

/// Exactness of bitmask decoding, stated for the motor register: a raw value
/// decodes to a variant exactly when it equals that variant's declared bit
/// value, so a combination of set bits decodes to nothing.
pub proof fn lemma_motor_error_exact(v: u64)
    ensures
        match MotorError::spec_from_raw(v) {
            Some(e) => e.spec_value() == v,
            None => forall|e: MotorError| e.spec_value() != v,
        },
{
}

/// Exactness of bitmask decoding, stated for the axis register.
pub proof fn lemma_axis_error_exact(v: u32)
    ensures
        match AxisError::spec_from_raw(v) {
            Some(e) => e.spec_value() == v,
            None => forall|e: AxisError| e.spec_value() != v,
        },
{
}

} // verus!
