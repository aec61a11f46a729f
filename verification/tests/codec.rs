use rustodrive::canframe::{decode_id, encode_id, ticket};
use rustodrive::state::{ODriveCommand, ReadComm, WriteComm};
use rustodrive::utils::{i32_from_le, u32_from_le, u32_to_le, u64_from_le, ResponseManip};

#[test]
fn test_combine_split_round_trip() {
    let a = [1u8, 2, 3, 4];
    let b = [5u8, 6, 7, 8];
    let combined = ResponseManip::combine_32(a, b);
    assert_eq!(combined, [1, 2, 3, 4, 5, 6, 7, 8]);
    // The combination starts with the first half.
    assert_eq!(&combined[..4], &a);
    let (left, right) = ResponseManip::split_32(combined);
    assert_eq!((left, right), (a, b));

    let c = [9u8, 10];
    let d = [11u8, 12];
    let combined16 = ResponseManip::combine_16(c, d);
    assert_eq!(ResponseManip::split_16(combined16), (c, d));

    let e = [13u8];
    let f = [14u8];
    let combined8 = ResponseManip::combine_8(e, f);
    assert_eq!(ResponseManip::split_8(combined8), (e, f));
}

#[test]
fn test_combine_split_slices() {
    let a = [1u8, 2, 3];
    let b = [4u8, 5, 6];
    let combined = ResponseManip::combine(&a, &b);
    assert_eq!(combined, vec![1, 2, 3, 4, 5, 6]);
    let (left, right) = ResponseManip::split(&combined);
    assert_eq!(left, vec![1, 2, 3]);
    assert_eq!(right, vec![4, 5, 6]);
}

#[test]
fn test_little_endian_helpers() {
    assert_eq!(u32_from_le([0x78, 0x56, 0x34, 0x12]), 0x12345678);
    assert_eq!(u32_to_le(0x12345678), [0x78, 0x56, 0x34, 0x12]);
    assert_eq!(u32_from_le(u32_to_le(0xDEADBEEF)), 0xDEADBEEF);
    assert_eq!(i32_from_le(i32::to_le_bytes(-1)), -1);
    assert_eq!(i32_from_le(i32::to_le_bytes(i32::MIN)), i32::MIN);
    assert_eq!(i32_from_le(i32::to_le_bytes(69420)), 69420);
    assert_eq!(
        u64_from_le([0xEF, 0xCD, 0xAB, 0x89, 0x67, 0x45, 0x23, 0x01]),
        0x0123456789ABCDEF
    );
}

#[test]
fn test_arbitration_id_layout() {
    // arbitration id = (axis << 5) | command code
    assert_eq!(encode_id(2, ODriveCommand::Read(ReadComm::GetTemperature)), (2 << 5) | 0x15);
    assert_eq!(encode_id(0, ODriveCommand::Read(ReadComm::GetHeartbeat)), 0x01);
    assert_eq!(
        encode_id(1, ODriveCommand::Write(WriteComm::SetAxisRequestedState)),
        (1 << 5) | 0x07
    );
}

#[test]
fn test_arbitration_id_round_trip() {
    let pairs = [
        (0usize, ODriveCommand::Read(ReadComm::GetHeartbeat)),
        (1, ODriveCommand::Write(WriteComm::SetAxisRequestedState)),
        (5, ODriveCommand::Read(ReadComm::GetVBusVoltage)),
        (63, ODriveCommand::Write(WriteComm::SetVelocityGain)),
        (0x07FF_FFFF, ODriveCommand::Write(WriteComm::EStop)),
    ];
    for (axis, cmd) in pairs {
        assert_eq!(decode_id(encode_id(axis, cmd)), Some((axis, cmd)));
    }
}

#[test]
fn test_decode_rejects_foreign_code() {
    // 0x1F belongs to neither command table: a foreign frame.
    assert_eq!(decode_id((3 << 5) | 0x1F), None);
    assert_eq!(decode_id(0x00), None);
}

#[test]
fn test_read_table_consulted_first() {
    // Each 5-bit code belongs to exactly one table, so decoding gives back
    // exactly the command that was encoded, read or write.
    let read_id = encode_id(4, ODriveCommand::Read(ReadComm::MotorError));
    assert_eq!(decode_id(read_id), Some((4, ODriveCommand::Read(ReadComm::MotorError))));
    let write_id = encode_id(4, ODriveCommand::Write(WriteComm::EStop));
    assert_eq!(decode_id(write_id), Some((4, ODriveCommand::Write(WriteComm::EStop))));
}

#[test]
fn test_ticket_builds_frame() {
    let frame = ticket(7, ODriveCommand::Read(ReadComm::GetHeartbeat), [0; 8]);
    assert_eq!(frame.axis, 7);
    assert_eq!(frame.cmd, ODriveCommand::Read(ReadComm::GetHeartbeat));
    assert_eq!(frame.data, [0; 8]);
}
