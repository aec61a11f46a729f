use rustodrive::can_manager::{CANManager, CANThreadCommunicator, LoopbackCANThread, ODriveMessage};
use rustodrive::canframe::{encode_id, ticket};
use rustodrive::response::{ODriveError, ResponseType};
use rustodrive::state::{ODriveCommand, ReadComm};

#[test]
fn test_can_id() {
    let msg = ODriveMessage {
        request: ticket(1, ODriveCommand::Read(ReadComm::GetHeartbeat), [0; 8]),
        caller: 0,
        deadline: 0,
    };
    assert_eq!(msg.can_id(), (1 << 5) | 0x01);
}

#[test]
fn test_frame_matching_resolves_pending() {
    let mut manager = CANManager::new();
    let request = ticket(2, ODriveCommand::Read(ReadComm::GetTemperature), [0; 8]);
    assert!(!manager.has_pending(2, ODriveCommand::Read(ReadComm::GetTemperature)));
    manager.register(request, 9, 100);
    assert!(manager.has_pending(2, ODriveCommand::Read(ReadComm::GetTemperature)));

    let payload = [1, 2, 3, 4, 5, 6, 7, 8];
    let id = encode_id(2, ODriveCommand::Read(ReadComm::GetTemperature));
    let resolution = manager.on_frame(id, payload).expect("matching frame must resolve");
    assert_eq!(resolution.caller, 9);
    match resolution.response.unwrap() {
        ResponseType::Body { request: answered, response } => {
            assert_eq!(answered, request);
            assert_eq!(response.axis, 2);
            assert_eq!(response.cmd, ODriveCommand::Read(ReadComm::GetTemperature));
            assert_eq!(response.data, payload);
        }
        ResponseType::Bodyless { .. } => panic!("a read resolves with a body"),
    }
    // The entry is gone once matched.
    assert!(!manager.has_pending(2, ODriveCommand::Read(ReadComm::GetTemperature)));
}

#[test]
fn test_unsolicited_and_foreign_frames_discarded() {
    let mut manager = CANManager::new();
    // A recognized key with no pending entry is discarded.
    let id = encode_id(1, ODriveCommand::Read(ReadComm::GetHeartbeat));
    assert!(manager.on_frame(id, [0; 8]).is_none());
    // A code outside both command tables is discarded.
    assert!(manager.on_frame((1 << 5) | 0x1F, [0; 8]).is_none());
}

#[test]
fn test_timeout_sweep() {
    let mut manager = CANManager::new();
    let request = ticket(3, ODriveCommand::Read(ReadComm::GetHeartbeat), [0; 8]);
    manager.register(request, 4, 10);

    // Before the deadline nothing expires.
    let early = manager.sweep_expired(10);
    assert!(early.is_empty());
    assert!(manager.has_pending(3, ODriveCommand::Read(ReadComm::GetHeartbeat)));

    // Past the deadline the caller gets NoResponse and the entry is gone.
    let late = manager.sweep_expired(11);
    assert_eq!(late.len(), 1);
    assert_eq!(late[0].caller, 4);
    let err = late[0].response.clone().unwrap_err();
    assert_eq!(err.request, request);
    assert_eq!(err.err, ODriveError::NoResponse);
    assert!(!manager.has_pending(3, ODriveCommand::Read(ReadComm::GetHeartbeat)));
}

#[test]
fn test_second_request_same_key_rejected() {
    // The duplicate policy: while a request is unresolved, a second request
    // with the same (axis, command) key is rejected outright, never merged.
    let mut transport = LoopbackCANThread::new();
    let request = ticket(1, ODriveCommand::Read(ReadComm::GetHeartbeat), [0; 8]);
    let batch = vec![request, request];
    let responses = transport.request_many(batch);
    assert_eq!(responses.len(), 2);
    assert!(responses[0].is_ok());
    let rejected = responses[1].clone().unwrap_err();
    assert_eq!(rejected.request, request);
    assert_eq!(rejected.err, ODriveError::FailedToSend);
}

#[test]
fn test_key_free_again_after_match() {
    // Once the pending entry is resolved, the same key may go out again.
    let mut manager = CANManager::new();
    let request = ticket(1, ODriveCommand::Read(ReadComm::GetHeartbeat), [0; 8]);
    manager.register(request, 0, 100);
    assert_eq!(manager.pending_len(), 1);
    let id = encode_id(1, ODriveCommand::Read(ReadComm::GetHeartbeat));
    assert!(manager.on_frame(id, [0; 8]).is_some());
    assert_eq!(manager.pending_len(), 0);
    manager.register(request, 1, 200);
    assert!(manager.has_pending(1, ODriveCommand::Read(ReadComm::GetHeartbeat)));
}

#[test]
fn test_loopback_single_request() {
    let mut transport = LoopbackCANThread::new();
    let request = ticket(1, ODriveCommand::Read(ReadComm::GetEncoderCount), [0; 8]);
    match transport.request(request).unwrap() {
        ResponseType::Body { request: answered, response } => {
            assert_eq!(answered, request);
            assert_eq!(response.axis, 1);
            assert_eq!(response.cmd, request.cmd);
        }
        ResponseType::Bodyless { .. } => panic!("a read resolves with a body"),
    }
}
