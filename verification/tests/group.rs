use rustodrive::can_manager::LoopbackCANThread;
use rustodrive::canframe::{CANRequest, ODriveCANFrame};
use rustodrive::casts::Temperature;
use rustodrive::odrivegroup::ODriveGroup;
use rustodrive::response::{ODriveError, ResultAll, Success};
use rustodrive::state::{AxisState, ControlMode, InputMode, ODriveCommand, ReadComm, WriteComm};
use rustodrive::utils::ResponseManip;

#[test]
fn test_axes() {
    let expected_request = ODriveCANFrame {
        axis: 1,
        cmd: ODriveCommand::Read(ReadComm::GetTemperature),
        data: [0, 0, 0, 0, 0, 0, 0, 0],
    };

    let mut odrives = ODriveGroup::new(LoopbackCANThread::new(), &[0, 1, 2, 3, 4, 5]);
    let response: Success<Temperature> = odrives.axis(&1, |ax| ax.get_temperatures()).unwrap();

    assert_eq!(response.sent_request, expected_request);
}

#[test]
fn test_all_axes() {
    let mut expected_requests = Vec::new();
    for i in 0..6 {
        expected_requests.push(ODriveCANFrame {
            axis: i,
            cmd: ODriveCommand::Write(WriteComm::SetAxisRequestedState),
            data: [AxisState::FullCalibrationSequence.value(), 0, 0, 0, 0, 0, 0, 0],
        })
    }

    let mut odrives = ODriveGroup::new(LoopbackCANThread::new(), &[0, 1, 2, 3, 4, 5]);
    let responses: Vec<Success<()>> =
        odrives.all_axes(|ax| ax.set_state(AxisState::FullCalibrationSequence)).unwrap_all();

    // all the results come back in the order the requests were sent
    for (request, response) in expected_requests.into_iter().zip(responses) {
        assert_eq!(response.sent_request, request);
    }
}

#[test]
fn test_all_axes_order_independent_of_arrival() {
    // The loopback delivers echoes in reverse transmission order, so the
    // frame for the highest axis arrives first; the batch still comes back
    // in canonical axis order.
    let mut odrives = ODriveGroup::new(LoopbackCANThread::new(), &[0, 1, 2]);
    let responses: Vec<Success<Temperature>> =
        odrives.all_axes(|ax| ax.get_temperatures()).unwrap_all();
    let axes: Vec<usize> = responses.iter().map(|s| s.axis).collect();
    assert_eq!(axes, vec![0, 1, 2]);
}

#[test]
fn test_canonical_order_fixed_at_construction() {
    // Managed ids are sorted ascending whatever order (and multiplicity)
    // they were given in.
    let mut odrives = ODriveGroup::new(LoopbackCANThread::new(), &[2, 0, 1, 2]);
    let responses: Vec<Success<Temperature>> =
        odrives.all_axes(|ax| ax.get_temperatures()).unwrap_all();
    let axes: Vec<usize> = responses.iter().map(|s| s.axis).collect();
    assert_eq!(axes, vec![0, 1, 2]);
}

#[test]
fn test_expect_all() {
    let mut odrives = ODriveGroup::new(LoopbackCANThread::new(), &[0, 1]);
    let responses: Vec<Success<Temperature>> = odrives
        .all_axes(|ax| ax.get_temperatures())
        .expect_all(String::from("temperature readout failed"));
    assert_eq!(responses.len(), 2);
}

#[test]
fn test_unknown_axis() {
    let mut odrives = ODriveGroup::new(LoopbackCANThread::new(), &[0, 1]);
    let result: Result<Success<Temperature>, _> = odrives.axis(&9, |ax| ax.get_temperatures());
    let err = result.unwrap_err();
    assert_eq!(err.err, ODriveError::UnknownAxis);
    assert_eq!(err.request.axis, 9);
    assert_eq!(err.request.cmd, ODriveCommand::Read(ReadComm::GetTemperature));
}

#[test]
fn test_empty_group() {
    let mut odrives = ODriveGroup::new(LoopbackCANThread::new(), &[]);
    let responses: Vec<Result<Success<Temperature>, _>> =
        odrives.all_axes(|ax| ax.get_temperatures());
    assert!(responses.is_empty());
}

#[test]
fn test_set_input_vel_payload_round_trip() {
    // Build a "set input velocity" request for axis 1 with value 12.5,
    // then decode the payload back with the matching float layout.
    let mut odrives = ODriveGroup::new(LoopbackCANThread::new(), &[0, 1]);
    let speed = 12.5f32;
    let result: Result<Success<()>, _> =
        odrives.axis(&1, |ax| ax.motor.set_input_vel(speed.to_bits()));
    let sent: CANRequest = result.unwrap().sent_request;

    assert_eq!(sent.axis, 1);
    assert_eq!(sent.cmd, ODriveCommand::Write(WriteComm::SetInputVelocity));
    let (speed_bytes, rest) = ResponseManip::split_32(sent.data);
    assert_eq!(f32::from_le_bytes(speed_bytes), 12.5);
    assert_eq!(rest, [0u8; 4]);
}

#[test]
fn test_set_input_pos_payload_round_trip() {
    let mut odrives = ODriveGroup::new(LoopbackCANThread::new(), &[0]);
    let rot = -1.25f32;
    let result: Result<Success<()>, _> =
        odrives.axis(&0, |ax| ax.motor.set_input_pos(rot.to_bits()));
    let sent = result.unwrap().sent_request;
    let (rot_bytes, _) = ResponseManip::split_32(sent.data);
    assert_eq!(f32::from_le_bytes(rot_bytes), -1.25);
}

#[test]
fn test_decode_failure_isolated_per_axis() {
    // Asking every axis for a heartbeat but decoding as Temperature fails
    // per element with ConvertedBadData; no panic, every element present.
    let mut odrives = ODriveGroup::new(LoopbackCANThread::new(), &[0, 1]);
    let responses: Vec<Result<Success<Temperature>, _>> =
        odrives.all_axes(|ax| ax.get_heartbeat());
    assert_eq!(responses.len(), 2);
    for r in responses {
        assert_eq!(r.unwrap_err().err, ODriveError::ConvertedBadData);
    }
}

#[test]
fn test_reboot_needs_axes() {
    let mut odrives = ODriveGroup::new(LoopbackCANThread::new(), &[3, 4]);
    odrives.reboot();
}

#[test]
fn test_set_control_mode_payload() {
    let mut odrives = ODriveGroup::new(LoopbackCANThread::new(), &[0]);
    let result: Result<Success<()>, _> = odrives.axis(&0, |ax| {
        ax.motor.set_control_mode(ControlMode::VelocityControl, InputMode::PosFilter)
    });
    let sent = result.unwrap().sent_request;
    assert_eq!(sent.cmd, ODriveCommand::Write(WriteComm::SetControllerMode));
    assert_eq!(sent.data, [0x2, 0, 0, 0, 0x3, 0, 0, 0]);
}
