use rustodrive::canframe::{CANResponse, ODriveCANFrame};
use rustodrive::casts::{Bus, EncoderCount, EncoderEstimates, Heartbeat, TryFromFrame, IQ};
use rustodrive::casts::Temperature;
use rustodrive::error::{AxisError, EncoderError, MotorError, SensorlessError};
use rustodrive::state::{AxisState, ODriveCommand, ReadComm, WriteComm};
use rustodrive::utils::ResponseManip;

fn bad_convert_test<BadType: TryFromFrame>(data: CANResponse) {
    // A frame handed to a decoder bound to another command is rejected as
    // bad data rather than crashing the process.
    let result_wrong_type = BadType::try_from_frame(data);
    assert!(result_wrong_type.is_err());
}

#[test]
fn test_to_heartbeat() {
    // Test that it successfully converts the frame if it is the proper command
    let axis_error_bytes = u32::to_le_bytes(AxisError::SystemLevel.value());
    let axis_state = u32::to_le_bytes(AxisState::ClosedLoop.value() as u32);

    let combined = ResponseManip::combine_32(axis_error_bytes, axis_state);

    let fake_response = ODriveCANFrame {
        axis: 1,
        cmd: ODriveCommand::Read(ReadComm::GetHeartbeat),
        data: combined,
    };

    let expected = Heartbeat {
        axis_error: AxisError::SystemLevel,
        current_state: AxisState::ClosedLoop,
    };

    assert_eq!(Heartbeat::try_from_frame(fake_response.clone()).unwrap(), expected);

    bad_convert_test::<Temperature>(fake_response);
}

#[test]
fn test_to_encoder_estimate() {
    let encoder_pos_est = f32::to_le_bytes(0.0);
    let encoder_vel_est = f32::to_le_bytes(10.0);

    let dat = ResponseManip::combine_32(encoder_pos_est, encoder_vel_est);

    let fake_response = ODriveCANFrame {
        axis: 1,
        cmd: ODriveCommand::Read(ReadComm::GetEncoderEstimates),
        data: dat,
    };

    let expected = EncoderEstimates {
        position: f32::to_bits(0.0),
        velocity: f32::to_bits(10.0),
    };

    let decoded = EncoderEstimates::try_from_frame(fake_response).unwrap();
    assert_eq!(decoded, expected);
    assert_eq!(f32::from_bits(decoded.position), 0.0);
    assert_eq!(f32::from_bits(decoded.velocity), 10.0);

    bad_convert_test::<Heartbeat>(fake_response);
}

#[test]
fn test_encoder_count() {
    let expected = EncoderCount { shadow_count: 69420, cpr_count: 8192 };
    let shadow_count = i32::to_le_bytes(expected.shadow_count);
    let cpr_count = i32::to_le_bytes(expected.cpr_count);

    let dat = ResponseManip::combine_32(shadow_count, cpr_count);

    let fake_response = ODriveCANFrame {
        axis: 1,
        cmd: ODriveCommand::Read(ReadComm::GetEncoderCount),
        data: dat,
    };

    assert_eq!(EncoderCount::try_from_frame(fake_response).unwrap(), expected);

    bad_convert_test::<Temperature>(fake_response);
}

#[test]
fn test_negative_encoder_count() {
    let dat = ResponseManip::combine_32(i32::to_le_bytes(-5), i32::to_le_bytes(-8192));

    let fake_response = ODriveCANFrame {
        axis: 1,
        cmd: ODriveCommand::Read(ReadComm::GetEncoderCount),
        data: dat,
    };

    let decoded = EncoderCount::try_from_frame(fake_response).unwrap();
    assert_eq!(decoded.shadow_count, -5);
    assert_eq!(decoded.cpr_count, -8192);
}

#[test]
fn test_to_iq() {
    let iq_setpoint = f32::to_le_bytes(100.0);
    let iq_measured = f32::to_le_bytes(0.0);

    let dat = ResponseManip::combine_32(iq_setpoint, iq_measured);

    let fake_response = ODriveCANFrame {
        axis: 1,
        cmd: ODriveCommand::Read(ReadComm::GetIQ),
        data: dat,
    };

    let expected = IQ { setpoint: f32::to_bits(100.0), measured: f32::to_bits(0.0) };

    assert_eq!(IQ::try_from_frame(fake_response).unwrap(), expected);

    bad_convert_test::<Temperature>(fake_response);
}

#[test]
fn test_to_temperature() {
    let (inverter, motor) = (100.0f32, 150.0f32);
    let (inverter_bytes, motor_bytes) = (f32::to_le_bytes(inverter), f32::to_le_bytes(motor));

    let data = ResponseManip::combine_32(inverter_bytes, motor_bytes);

    let fake_response = ODriveCANFrame {
        axis: 1,
        cmd: ODriveCommand::Read(ReadComm::GetTemperature),
        data: data,
    };

    let expected = Temperature { inverter: inverter.to_bits(), motor: motor.to_bits() };

    assert_eq!(Temperature::try_from_frame(fake_response).unwrap(), expected);

    bad_convert_test::<Heartbeat>(fake_response);
}

#[test]
fn test_to_bus() {
    let (voltage, current) = (24.1f32, 10.02f32);
    let (voltage_bytes, current_bytes) = (f32::to_le_bytes(voltage), f32::to_le_bytes(current));

    let data = ResponseManip::combine_32(voltage_bytes, current_bytes);

    let fake_response = ODriveCANFrame {
        axis: 1,
        cmd: ODriveCommand::Read(ReadComm::GetVBusVoltage),
        data: data,
    };

    let expected = Bus { voltage: voltage.to_bits(), current: current.to_bits() };

    assert_eq!(Bus::try_from_frame(fake_response).unwrap(), expected);

    bad_convert_test::<Temperature>(fake_response);
}

#[test]
fn test_to_motor_error() {
    let expected = MotorError::ControlDeadlineMissed;

    let fake_response = ODriveCANFrame {
        axis: 1,
        cmd: ODriveCommand::Read(ReadComm::MotorError),
        data: u64::to_le_bytes(expected.value()),
    };

    assert_eq!(MotorError::try_from_frame(fake_response).unwrap(), expected);

    bad_convert_test::<Temperature>(fake_response);
}

#[test]
fn test_to_encoder_error() {
    let expected = EncoderError::CPRPolepairsMismatch;

    let fake_response = ODriveCANFrame {
        axis: 1,
        cmd: ODriveCommand::Read(ReadComm::EncoderError),
        data: u64::to_le_bytes(expected.value() as u64),
    };

    assert_eq!(EncoderError::try_from_frame(fake_response).unwrap(), expected);

    bad_convert_test::<Temperature>(fake_response);
}

#[test]
fn test_to_sensorless_error() {
    let expected = SensorlessError::UnstableGain;
    let error_bytes = u32::to_le_bytes(expected.value());

    let fake_response = ODriveCANFrame {
        axis: 1,
        cmd: ODriveCommand::Read(ReadComm::SensorlessError),
        data: ResponseManip::combine_32(error_bytes, [0u8; 4]),
    };

    assert_eq!(SensorlessError::try_from_frame(fake_response).unwrap(), expected);

    bad_convert_test::<Temperature>(fake_response);
}

#[test]
fn test_to_void_write_only() {
    // A write command is the only command that can resolve to ()
    let fake_response = ODriveCANFrame {
        axis: 1,
        cmd: ODriveCommand::Write(WriteComm::SetAxisRequestedState),
        data: [AxisState::Idle.value(), 0, 0, 0, 0, 0, 0, 0],
    };

    <() as TryFromFrame>::try_from_frame(fake_response).unwrap();

    // Asking for () out of a read command's frame is rejected as bad data.
    let fake_response = ODriveCANFrame {
        axis: 1,
        cmd: ODriveCommand::Read(ReadComm::MotorError),
        data: u64::to_le_bytes(MotorError::DRVFault.value()),
    };

    let cant_convert = <() as TryFromFrame>::try_from_frame(fake_response);
    assert!(cant_convert.is_err());
}

#[test]
fn test_bad_data_conversion() {
    // A raw register value that matches no declared variant is rejected.
    assert!(SensorlessError::from_raw(10).is_none());
    assert!(AxisError::from_raw(10).is_none());
    assert!(MotorError::from_raw(10).is_none());
    assert!(EncoderError::from_raw(10 as u32).is_none());
}

#[test]
fn test_bitmask_exactness() {
    // A combination of two set bits is not a declared variant, a single
    // declared bit is.
    assert!(AxisError::from_raw(0x3).is_none());
    assert_eq!(AxisError::from_raw(0x2), Some(AxisError::SystemLevel));
    assert!(MotorError::from_raw(0x3).is_none());
    assert_eq!(MotorError::from_raw(0x2), Some(MotorError::PhaseInductanceOFR));
    assert!(EncoderError::from_raw(0x3).is_none());
    assert_eq!(EncoderError::from_raw(0x2), Some(EncoderError::CPRPolepairsMismatch));
    assert!(SensorlessError::from_raw(0x3).is_none());
    assert_eq!(SensorlessError::from_raw(0x2), Some(SensorlessError::UnknownCurrentMeasurement));
}

#[test]
fn test_heartbeat_bad_state_rejected() {
    // 0x6 is a hole in the axis-state table.
    let data = ResponseManip::combine_32(u32::to_le_bytes(0x1), u32::to_le_bytes(0x6));
    let fake_response = ODriveCANFrame {
        axis: 1,
        cmd: ODriveCommand::Read(ReadComm::GetHeartbeat),
        data,
    };
    assert!(Heartbeat::try_from_frame(fake_response).is_err());
}
