use hidtovpad::commands::{AttachCommand, Command, DetachCommand, PingCommand, WriteCommand};
use hidtovpad::controller_manager::{ControllerManager, PadSnapshot};
use hidtovpad::models::{AttachResponse, Controller};
use hidtovpad::poller::ControllerSet;
use hidtovpad::session::{ControlChannel, ControlRequest};

fn centered(pressed: Vec<hidtovpad::controller_manager::Button>) -> PadSnapshot {
    PadSnapshot {
        pressed,
        left_stick_x: Some(0x80),
        left_stick_y: Some(0x80),
        right_stick_x: Some(0x80),
        right_stick_y: Some(0x80),
        left_z: Some(0x00),
        right_z: Some(0x00),
    }
}

#[test]
fn attach_frame_bytes() {
    let command = AttachCommand::new(1234, 0x7331, 0x1337, 1);
    assert_eq!(
        command.byte_data(),
        &vec![0x01, 0x00, 0x00, 0x04, 0xD2, 0x73, 0x31, 0x13, 0x37]
    );
}

#[test]
fn attach_request_bytes_use_fixed_ids() {
    let bytes = ControlChannel::request_bytes(ControlRequest::Attach(1234));
    assert_eq!(bytes, vec![0x01, 0x00, 0x00, 0x04, 0xD2, 0x73, 0x31, 0x13, 0x37]);
}

#[test]
fn attach_frame_negative_handle() {
    let command = AttachCommand::new(-2, 0x7331, 0x1337, 1);
    assert_eq!(
        command.byte_data(),
        &vec![0x01, 0xFF, 0xFF, 0xFF, 0xFE, 0x73, 0x31, 0x13, 0x37]
    );
}

#[test]
fn detach_frame_bytes() {
    let command = DetachCommand::new(1234, 1);
    assert_eq!(command.byte_data(), &vec![0x02, 0x00, 0x00, 0x04, 0xD2]);
    let bytes = ControlChannel::request_bytes(ControlRequest::Detach(1234));
    assert_eq!(bytes, vec![0x02, 0x00, 0x00, 0x04, 0xD2]);
}

#[test]
fn ping_frame_bytes() {
    assert_eq!(PingCommand::new().byte_data(), &vec![0xF0]);
    assert_eq!(ControlChannel::request_bytes(ControlRequest::Ping), vec![0xF0]);
}

#[test]
fn repeated_detach_and_attach_are_identical() {
    let first = DetachCommand::new(0x0102_0304, 1);
    let second = DetachCommand::new(0x0102_0304, 7);
    assert_eq!(first.byte_data(), second.byte_data());
    let first = AttachCommand::new(99, 0x7331, 0x1337, 1);
    let second = AttachCommand::new(99, 0x7331, 0x1337, 3);
    assert_eq!(first.byte_data(), second.byte_data());
}

#[test]
fn data_frame_one_controller_centered() {
    let manager = ControllerManager::new();
    let payload = manager.poll(&centered(vec![]));
    assert_eq!(payload, vec![0x80, 0x80, 0x80, 0x80, 0x00, 0x00, 0x00, 0x00]);
    let controller = Controller { id: 1233, handle: 1234, device_slot: 6, pad_slot: 0 };
    let items = vec![(&controller, payload)];
    let command = WriteCommand::new(&items, 1);
    assert_eq!(
        command.byte_data(),
        &vec![
            0x03, 0x01, 0x00, 0x00, 0x04, 0xD2, 0x00, 0x06, 0x00, 0x08, 0x80, 0x80, 0x80, 0x80,
            0x00, 0x00, 0x00, 0x00
        ]
    );
}

#[test]
fn data_frame_through_controller_set() {
    let mut set = ControllerSet::new();
    let added = set.add_attached(1233, Some(AttachResponse { device_slot: 6, pad_slot: 0 }));
    assert!(added);
    let manager = ControllerManager::new();
    let payloads = vec![manager.poll(&centered(vec![]))];
    let command = set.data_command(payloads).unwrap();
    assert_eq!(
        command.byte_data(),
        &vec![
            0x03, 0x01, 0x00, 0x00, 0x04, 0xD2, 0x00, 0x06, 0x00, 0x08, 0x80, 0x80, 0x80, 0x80,
            0x00, 0x00, 0x00, 0x00
        ]
    );
}

#[test]
fn data_frame_empty_set_sends_nothing() {
    let set = ControllerSet::new();
    assert!(set.data_command(vec![]).is_none());
}

#[test]
fn data_frame_two_controllers_in_order() {
    let a = Controller { id: 0, handle: 1, device_slot: 0x0102, pad_slot: 3 };
    let b = Controller { id: 1, handle: 2, device_slot: 0, pad_slot: 1 };
    let items = vec![(&a, vec![0xAA]), (&b, vec![])];
    let command = WriteCommand::new(&items, 1);
    assert_eq!(
        command.byte_data(),
        &vec![
            0x03, 0x02, 0x00, 0x00, 0x00, 0x01, 0x01, 0x02, 0x03, 0x01, 0xAA, 0x00, 0x00, 0x00,
            0x02, 0x00, 0x00, 0x01, 0x00
        ]
    );
}

#[test]
fn data_frame_count_truncated_at_256() {
    let controller = Controller { id: 0, handle: 1, device_slot: 0, pad_slot: 0 };
    let items: Vec<(&Controller, Vec<u8>)> = (0..256).map(|_| (&controller, vec![])).collect();
    let command = WriteCommand::new(&items, 1);
    let bytes = command.byte_data();
    assert_eq!(bytes[0], 0x03);
    assert_eq!(bytes[1], 0x00);
    assert_eq!(bytes.len(), 2 + 256 * 8);
    let items: Vec<(&Controller, Vec<u8>)> = (0..257).map(|_| (&controller, vec![])).collect();
    let command = WriteCommand::new(&items, 1);
    assert_eq!(command.byte_data()[1], 0x01);
}

#[test]
fn data_frame_payload_length_low_byte() {
    let controller = Controller { id: 0, handle: 1, device_slot: 0, pad_slot: 0 };
    let items = vec![(&controller, vec![7u8; 300])];
    let command = WriteCommand::new(&items, 1);
    let bytes = command.byte_data();
    assert_eq!(bytes[9], (300 % 256) as u8);
    assert_eq!(bytes.len(), 10 + 300);
}
