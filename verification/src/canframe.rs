//! CAN frames and the arbitration-id codec.
//!
//! An arbitration id packs the axis id and the command code as
//! `(axis << 5) | code`; the low five bits are the command space, everything
//! above them is the axis.

use vstd::prelude::*;

use crate::state::ODriveCommand;

verus! {

/// One more than the largest axis id that still fits the arbitration-id
/// layout: the axis field occupies the bits of a `u32` above the 5-bit
/// command code.
pub const AXIS_ID_BOUND: usize = 0x0800_0000;

/// Identifier of one physical axis (motor-controller node) on the bus.
pub type AxisID = usize;

/// One CAN frame as this protocol sees it: the decoded arbitration-id fields
/// and the fixed 8-byte payload.
#[derive(Clone, Copy, Debug, PartialEq, Eq)]
pub struct ODriveCANFrame {
    pub axis: AxisID,
    pub cmd: ODriveCommand,
    pub data: [u8; 8],
}

/// A frame built by this side, ready for transmission.
pub type CANRequest = ODriveCANFrame;

/// A frame received from the bus.
pub type CANResponse = ODriveCANFrame;

/// Builds a request frame for one axis.
pub fn ticket(axis: AxisID, cmd: ODriveCommand, data: [u8; 8]) -> (r: CANRequest)
    ensures
        r == (ODriveCANFrame { axis, cmd, data }),
{
    ODriveCANFrame { axis, cmd, data }
}

/// The arbitration id carrying `axis` and `cmd`.
pub open spec fn spec_encode_id(axis: AxisID, cmd: ODriveCommand) -> u32 {
    ((axis as u32) << 5) | cmd.spec_code()
}

pub fn encode_id(axis: AxisID, cmd: ODriveCommand) -> (id: u32)
    requires
        axis < AXIS_ID_BOUND,
    ensures
        id == spec_encode_id(axis, cmd),
{
    ((axis as u32) << 5) | cmd.code()
}

/// The `(axis, command)` pair named by an arbitration id, or `None` for a
/// code outside both command tables (a foreign frame, to be discarded).
pub open spec fn spec_decode_id(id: u32) -> Option<(AxisID, ODriveCommand)> {
    match ODriveCommand::spec_from_code(id & 0x1F) {
        Some(cmd) => Some(((id >> 5) as usize, cmd)),
        None => None,
    }
}

pub fn decode_id(id: u32) -> (r: Option<(AxisID, ODriveCommand)>)
    ensures
        r == spec_decode_id(id),
{
    match ODriveCommand::from_code(id & 0x1F) {
        Some(cmd) => Some(((id >> 5) as usize, cmd)),
        None => None,
    }
}

/// Every command code fits the 5-bit field, and looking a command's own code
/// back up (read table first, then write table) returns that command: the
/// two code spaces are disjoint.
pub proof fn lemma_command_code_round_trip(cmd: ODriveCommand)
    ensures
        cmd.spec_code() < 32,
        ODriveCommand::spec_from_code(cmd.spec_code()) == Some(cmd),
{
}

/// Round trip of the arbitration-id codec: decoding the encoding of any
/// valid `(axis, command)` pair returns exactly that pair.
pub proof fn lemma_arbitration_id_round_trip(axis: AxisID, cmd: ODriveCommand)
    requires
        axis < AXIS_ID_BOUND,
    ensures
        spec_decode_id(spec_encode_id(axis, cmd)) == Some((axis, cmd)),
{
    lemma_command_code_round_trip(cmd);
    let a = axis as u32;
    let c = cmd.spec_code();
    assert((((a << 5) | c) & 0x1F) == c && (((a << 5) | c) >> 5) == a) by (bit_vector)
        requires
            a < 0x0800_0000u32,
            c < 32u32,
    ;
    assert(a as usize == axis);
}

} // verus!
