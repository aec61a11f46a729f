//! Command builders: pure functions turning a domain intent addressed to
//! one axis into a wire-ready request frame. This module is the only place
//! that decides which value goes into which byte range of a payload.

use vstd::prelude::*;

use crate::canframe::{ticket, AxisID, CANRequest};
use crate::state::{AxisState, ControlMode, InputMode, ODriveCommand, ReadComm, WriteComm};
use crate::utils::{le32, u32_to_le, ResponseManip};

verus! {

/// The all-zero payload of a request that carries no arguments.
pub open spec fn spec_zero_payload() -> Seq<u8> {
    seq![0u8, 0u8, 0u8, 0u8, 0u8, 0u8, 0u8, 0u8]
}

/// The view of one managed axis: generates the common request frames, and
/// carries the motor- and encoder-specific builders.
#[derive(Clone, Copy, Debug, PartialEq, Eq, Structural)]
pub struct Axis {
    pub id: AxisID,
    pub motor: Motor,
    pub encoder: Encoder,
}

/// Builders for the motor-side commands of one axis.
#[derive(Clone, Copy, Debug, PartialEq, Eq, Structural)]
pub struct Motor {
    pub id: AxisID,
}

/// Builders for the encoder-side commands of one axis.
#[derive(Clone, Copy, Debug, PartialEq, Eq, Structural)]
pub struct Encoder {
    pub id: AxisID,
}

/// The axis view addressed to `id`.
pub open spec fn spec_axis(id: AxisID) -> Axis {
    Axis { id, motor: Motor { id }, encoder: Encoder { id } }
}

impl Axis {
    pub fn new(id: AxisID) -> (ax: Axis)
        ensures
            ax == spec_axis(id),
    {
        Axis { id, motor: Motor::new(id), encoder: Encoder::new(id) }
    }

    /// The request for this axis's heartbeat.
    pub fn get_heartbeat(&self) -> (r: CANRequest)
        ensures
            r.axis == self.id,
            r.cmd == ODriveCommand::Read(ReadComm::GetHeartbeat),
            r.data@ == spec_zero_payload(),
    {
        let r = ticket(self.id, ODriveCommand::Read(ReadComm::GetHeartbeat), [0u8; 8]);
        assert(r.data@ =~= spec_zero_payload());
        r
    }

    /// The request that asks this axis to enter `state`; the state's wire
    /// value travels in the first payload byte.
    pub fn set_state(&self, state: AxisState) -> (r: CANRequest)
        ensures
            r.axis == self.id,
            r.cmd == ODriveCommand::Write(WriteComm::SetAxisRequestedState),
            r.data@ == seq![
                state.spec_value(),
                0u8,
                0u8,
                0u8,
                0u8,
                0u8,
                0u8,
                0u8,
            ],
    {
        let r = ticket(
            self.id,
            ODriveCommand::Write(WriteComm::SetAxisRequestedState),
            [state.value(), 0, 0, 0, 0, 0, 0, 0],
        );
        assert(r.data@ =~= seq![state.spec_value(), 0u8, 0u8, 0u8, 0u8, 0u8, 0u8, 0u8]);
        r
    }

    /// The request for this axis's temperatures.
    pub fn get_temperatures(&self) -> (r: CANRequest)
        ensures
            r.axis == self.id,
            r.cmd == ODriveCommand::Read(ReadComm::GetTemperature),
            r.data@ == spec_zero_payload(),
    {
        let r = ticket(self.id, ODriveCommand::Read(ReadComm::GetTemperature), [0u8; 8]);
        assert(r.data@ =~= spec_zero_payload());
        r
    }
}

impl Encoder {
    pub fn new(id: AxisID) -> (e: Encoder)
        ensures
            e == (Encoder { id }),
    {
        Encoder { id }
    }

    /// The request for this axis's encoder error register.
    pub fn get_error(&self) -> (r: CANRequest)
        ensures
            r.axis == self.id,
            r.cmd == ODriveCommand::Read(ReadComm::EncoderError),
            r.data@ == spec_zero_payload(),
    {
        let r = ticket(self.id, ODriveCommand::Read(ReadComm::EncoderError), [0u8; 8]);
        assert(r.data@ =~= spec_zero_payload());
        r
    }

    /// The request for this axis's raw encoder counts.
    pub fn get_count(&self) -> (r: CANRequest)
        ensures
            r.axis == self.id,
            r.cmd == ODriveCommand::Read(ReadComm::GetEncoderCount),
            r.data@ == spec_zero_payload(),
    {
        let r = ticket(self.id, ODriveCommand::Read(ReadComm::GetEncoderCount), [0u8; 8]);
        assert(r.data@ =~= spec_zero_payload());
        r
    }

    /// The request for this axis's position and velocity estimates.
    pub fn get_estimates(&self) -> (r: CANRequest)
        ensures
            r.axis == self.id,
            r.cmd == ODriveCommand::Read(ReadComm::GetEncoderEstimates),
            r.data@ == spec_zero_payload(),
    {
        let r = ticket(self.id, ODriveCommand::Read(ReadComm::GetEncoderEstimates), [0u8; 8]);
        assert(r.data@ =~= spec_zero_payload());
        r
    }
}

impl Motor {
    pub fn new(id: AxisID) -> (m: Motor)
        ensures
            m == (Motor { id }),
    {
        Motor { id }
    }

    /// The request for this axis's motor error register.
    pub fn get_errors(&self) -> (r: CANRequest)
        ensures
            r.axis == self.id,
            r.cmd == ODriveCommand::Read(ReadComm::MotorError),
            r.data@ == spec_zero_payload(),
    {
        let r = ticket(self.id, ODriveCommand::Read(ReadComm::MotorError), [0u8; 8]);
        assert(r.data@ =~= spec_zero_payload());
        r
    }

    /// The request for this axis's sensorless-estimator error register.
    pub fn get_sensorless_error(&self) -> (r: CANRequest)
        ensures
            r.axis == self.id,
            r.cmd == ODriveCommand::Read(ReadComm::SensorlessError),
            r.data@ == spec_zero_payload(),
    {
        let r = ticket(self.id, ODriveCommand::Read(ReadComm::SensorlessError), [0u8; 8]);
        assert(r.data@ =~= spec_zero_payload());
        r
    }

    /// The request that selects the control mode (first payload byte) and
    /// the input mode (fifth payload byte) of this axis's controller.
    pub fn set_control_mode(&self, control: ControlMode, input: InputMode) -> (r: CANRequest)
        ensures
            r.axis == self.id,
            r.cmd == ODriveCommand::Write(WriteComm::SetControllerMode),
            r.data@ == seq![
                control.spec_value(),
                0u8,
                0u8,
                0u8,
                input.spec_value(),
                0u8,
                0u8,
                0u8,
            ],
    {
        let r = ticket(
            self.id,
            ODriveCommand::Write(WriteComm::SetControllerMode),
            [control.value(), 0, 0, 0, input.value(), 0, 0, 0],
        );
        assert(r.data@ =~= seq![
            control.spec_value(),
            0u8,
            0u8,
            0u8,
            input.spec_value(),
            0u8,
            0u8,
            0u8,
        ]);
        r
    }

    /// The request that commands an input position, given as the bit
    /// pattern of its 4-byte wire encoding; it travels little-endian in the
    /// first payload half.
    pub fn set_input_pos(&self, rot: u32) -> (r: CANRequest)
        ensures
            r.axis == self.id,
            r.cmd == ODriveCommand::Write(WriteComm::SetInputPosition),
            le32(r.data@.subrange(0, 4)) == rot,
            r.data@.subrange(4, 8) == seq![0u8, 0u8, 0u8, 0u8],
            r.data@.len() == 8,
    {
        let low = u32_to_le(rot);
        let data = ResponseManip::combine_32(low, [0u8; 4]);
        let r = ticket(self.id, ODriveCommand::Write(WriteComm::SetInputPosition), data);
        proof {
            assert(r.data@.subrange(0, 4) =~= low@);
            assert(r.data@.subrange(4, 8) =~= seq![0u8, 0u8, 0u8, 0u8]);
        }
        r
    }

    /// The request that commands an input velocity, given as the bit
    /// pattern of its 4-byte wire encoding; it travels little-endian in the
    /// first payload half.
    pub fn set_input_vel(&self, speed: u32) -> (r: CANRequest)
        ensures
            r.axis == self.id,
            r.cmd == ODriveCommand::Write(WriteComm::SetInputVelocity),
            le32(r.data@.subrange(0, 4)) == speed,
            r.data@.subrange(4, 8) == seq![0u8, 0u8, 0u8, 0u8],
            r.data@.len() == 8,
    {
        let low = u32_to_le(speed);
        let data = ResponseManip::combine_32(low, [0u8; 4]);
        let r = ticket(self.id, ODriveCommand::Write(WriteComm::SetInputVelocity), data);
        proof {
            assert(r.data@.subrange(0, 4) =~= low@);
            assert(r.data@.subrange(4, 8) =~= seq![0u8, 0u8, 0u8, 0u8]);
        }
        r
    }
}

} // verus!
