use hidtovpad::handle_factory::HandleFactory;
use hidtovpad::models::{ApplicationState, AttachResponse, Controller, PingResponse, Rumble};
use hidtovpad::poller::{attached_controller, gamepad_id_to_handle, ControllerSet, RumbleAction};
use hidtovpad::protocol::{
    attach_answer_complete, decode_attach_response, handshake_accepted, handshake_echo,
    parse_rumble, ping_outcome, AttachOutcome, BaseProtocol, ProtocolVersion, TcpProtocol,
    UdpProtocol,
};
use hidtovpad::session::{
    polling_quota, supervisor_step, worker_step, ControlChannel, ControlReply, ControlRequest,
    ControlStep, PollingRateError, SupervisorStep, WorkerStep,
};

#[test]
fn handshake_success_connects() {
    assert_eq!(handshake_echo(0x14), Some(0x14));
    assert!(handshake_accepted(0x14));
    let mut channel = ControlChannel::new();
    assert_eq!(channel.next_step(ApplicationState::Disconnected), ControlStep::Connect);
    channel.connected();
    assert_eq!(channel.next_step(ApplicationState::Connected), ControlStep::Serve);
    assert_eq!(ApplicationState::Disconnected.after_handshake(), ApplicationState::Connected);
    assert_eq!(ApplicationState::Connected.after_handshake(), ApplicationState::Connected);
    assert_eq!(ApplicationState::Exiting.after_handshake(), ApplicationState::Exiting);
}

#[test]
fn handshake_version_mismatch_stays_disconnected() {
    assert_eq!(handshake_echo(0x13), None);
    assert_eq!(handshake_echo(0x12), None);
    assert_eq!(handshake_echo(0x00), None);
    let state = ApplicationState::Disconnected.after_connection_lost();
    assert_eq!(state, ApplicationState::Disconnected);
    assert_eq!(ApplicationState::Exiting.after_connection_lost(), ApplicationState::Exiting);
}

#[test]
fn handshake_final_byte_must_name_a_version() {
    assert!(handshake_accepted(0x12));
    assert!(handshake_accepted(0x13));
    assert!(!handshake_accepted(0x00));
    assert!(!handshake_accepted(0x30));
    assert!(!handshake_accepted(0x15));
}

#[test]
fn attach_scenario_gives_controller() {
    let outcome = decode_attach_response(&[0xE0, 0xE8, 0x00, 0x06, 0x00]);
    let response = AttachResponse { device_slot: 6, pad_slot: 0 };
    assert_eq!(outcome, AttachOutcome::Attached(response));
    let mut channel = ControlChannel::new();
    channel.connected();
    let reply = channel.complete(
        ControlRequest::Attach(1234),
        true,
        &[0xE0, 0xE8, 0x00, 0x06, 0x00],
    );
    assert_eq!(reply, ControlReply::Attach(Some(response)));
    assert_eq!(channel.next_step(ApplicationState::Connected), ControlStep::Serve);
    let controller = attached_controller(1233, Some(response)).unwrap();
    assert_eq!(controller, Controller { id: 1233, handle: 1234, device_slot: 6, pad_slot: 0 });
}

#[test]
fn attach_answer_decoding_cases() {
    assert_eq!(
        decode_attach_response(&[0xE1, 0xE9, 0x01, 0x06, 0x02]),
        AttachOutcome::Attached(AttachResponse { device_slot: 0x0106, pad_slot: 2 })
    );
    assert_eq!(
        decode_attach_response(&[0x55, 0x66, 0x00, 0x01, 0x00]),
        AttachOutcome::Attached(AttachResponse { device_slot: 1, pad_slot: 0 })
    );
    assert_eq!(decode_attach_response(&[0x00]), AttachOutcome::Failed);
    assert_eq!(decode_attach_response(&[0xE0, 0x00]), AttachOutcome::Failed);
    assert_eq!(decode_attach_response(&[0xE0, 0xE8, 0x00, 0x06]), AttachOutcome::Failed);
    assert_eq!(decode_attach_response(&[]), AttachOutcome::Failed);
    assert_eq!(decode_attach_response(&[0xE0, 0xE8, 0xFF, 0xFF, 0x00]), AttachOutcome::Refused);
    assert_eq!(decode_attach_response(&[0xE0, 0xE8, 0x00, 0x01, 0x80]), AttachOutcome::Refused);
}

#[test]
fn attach_answer_completion() {
    assert!(!attach_answer_complete(&[]));
    assert!(attach_answer_complete(&[0x00]));
    assert!(!attach_answer_complete(&[0xE0]));
    assert!(attach_answer_complete(&[0xE0, 0x00]));
    assert!(!attach_answer_complete(&[0xE0, 0xE8, 0x00, 0x00]));
    assert!(attach_answer_complete(&[0xE0, 0xE8, 0x00, 0x00, 0x00]));
    assert!(!ControlChannel::answer_complete(ControlRequest::Ping, &[]));
    assert!(ControlChannel::answer_complete(ControlRequest::Ping, &[0xF1]));
    assert!(ControlChannel::answer_complete(ControlRequest::Detach(1), &[]));
}

#[test]
fn attach_failures_mark_connection() {
    let mut channel = ControlChannel::new();
    channel.connected();
    let reply = channel.complete(ControlRequest::Attach(5), true, &[0xE0, 0xE8, 0xFF, 0xFE, 0x00]);
    assert_eq!(reply, ControlReply::Attach(None));
    assert_eq!(channel.next_step(ApplicationState::Connected), ControlStep::Serve);
    let reply = channel.complete(ControlRequest::Attach(5), true, &[0x00]);
    assert_eq!(reply, ControlReply::Attach(None));
    assert_eq!(channel.next_step(ApplicationState::Connected), ControlStep::Reset);
    let mut other = ControlChannel::new();
    other.connected();
    assert_eq!(other.complete(ControlRequest::Attach(5), false, &[]), ControlReply::Attach(None));
    assert_eq!(other.next_step(ApplicationState::Connected), ControlStep::Reset);
}

#[test]
fn ping_failure_disconnects() {
    let mut channel = ControlChannel::new();
    channel.connected();
    let reply = channel.complete(ControlRequest::Ping, true, &[]);
    assert_eq!(reply, ControlReply::Ping(PingResponse::Disconnect));
    assert_eq!(channel.next_step(ApplicationState::Connected), ControlStep::Reset);
    assert_eq!(ApplicationState::Connected.after_connection_lost(), ApplicationState::Disconnected);
    channel.reset();
    assert_eq!(channel.next_step(ApplicationState::Disconnected), ControlStep::Connect);
}

#[test]
fn ping_success_and_wrong_byte() {
    let mut channel = ControlChannel::new();
    channel.connected();
    assert_eq!(
        channel.complete(ControlRequest::Ping, true, &[0xF1]),
        ControlReply::Ping(PingResponse::Pong)
    );
    assert_eq!(channel.next_step(ApplicationState::Connected), ControlStep::Serve);
    assert_eq!(
        channel.complete(ControlRequest::Ping, true, &[0xF0]),
        ControlReply::Ping(PingResponse::Disconnect)
    );
    assert_eq!(channel.next_step(ApplicationState::Connected), ControlStep::Reset);
    assert_eq!(ping_outcome(Some(0xF1)), PingResponse::Pong);
    assert_eq!(ping_outcome(None), PingResponse::Disconnect);
}

#[test]
fn detach_write_failure_marks_connection() {
    let mut channel = ControlChannel::new();
    channel.connected();
    assert_eq!(channel.complete(ControlRequest::Detach(3), true, &[]), ControlReply::Detach);
    assert_eq!(channel.next_step(ApplicationState::Connected), ControlStep::Serve);
    assert_eq!(channel.complete(ControlRequest::Detach(3), false, &[]), ControlReply::Detach);
    assert_eq!(channel.next_step(ApplicationState::Connected), ControlStep::Reset);
}

#[test]
fn exiting_shuts_control_channel() {
    let mut channel = ControlChannel::new();
    assert_eq!(
        channel.next_step(ApplicationState::Exiting),
        ControlStep::Shutdown { send_abort: false }
    );
    channel.connected();
    assert_eq!(
        channel.next_step(ApplicationState::Exiting),
        ControlStep::Shutdown { send_abort: true }
    );
    channel.complete(ControlRequest::Ping, false, &[]);
    assert_eq!(
        channel.next_step(ApplicationState::Exiting),
        ControlStep::Shutdown { send_abort: false }
    );
}

#[test]
fn worker_and_supervisor_steps() {
    assert_eq!(worker_step(ApplicationState::Disconnected), WorkerStep::Idle);
    assert_eq!(worker_step(ApplicationState::Connected), WorkerStep::Work);
    assert_eq!(worker_step(ApplicationState::Exiting), WorkerStep::Return);
    assert_eq!(supervisor_step(ApplicationState::Disconnected), SupervisorStep::Wait);
    assert_eq!(supervisor_step(ApplicationState::Connected), SupervisorStep::Ping);
    assert_eq!(supervisor_step(ApplicationState::Exiting), SupervisorStep::Join);
}

#[test]
fn rumble_start_scenario() {
    assert_eq!(
        parse_rumble(&[0x01, 0x00, 0x00, 0x04, 0xD2, 0x01], true),
        Some(Rumble::Start(1234))
    );
}

#[test]
fn rumble_parsing_cases() {
    assert_eq!(
        parse_rumble(&[0x01, 0x00, 0x00, 0x04, 0xD2, 0x00], true),
        Some(Rumble::Stop(1234))
    );
    assert_eq!(
        parse_rumble(&[0x01, 0x80, 0x00, 0x00, 0x01, 0x02, 0x09], true),
        Some(Rumble::Stop(i32::MIN + 1))
    );
    assert_eq!(parse_rumble(&[0x01, 0x00, 0x00, 0x04, 0xD2, 0x01], false), None);
    assert_eq!(parse_rumble(&[0x01, 0x00, 0x00, 0x04, 0xD2], true), None);
    assert_eq!(parse_rumble(&[0x03, 0x00, 0x00, 0x04, 0xD2, 0x01], true), None);
}

#[test]
fn rumble_reaches_controller_by_handle() {
    let mut set = ControllerSet::new();
    assert!(set.add_attached(1233, Some(AttachResponse { device_slot: 6, pad_slot: 0 })));
    assert_eq!(set.rumble_action(Rumble::Start(1234)), Some(RumbleAction::Play(1233)));
    assert_eq!(set.rumble_action(Rumble::Stop(1234)), Some(RumbleAction::Stop(1233)));
    assert_eq!(set.rumble_action(Rumble::Start(77)), None);
    assert_eq!(set.find_by_handle(1234), Some(0));
}

#[test]
fn controller_set_bookkeeping() {
    let mut set = ControllerSet::new();
    let good = Some(AttachResponse { device_slot: 1, pad_slot: 2 });
    assert!(set.add_attached(4, good));
    assert!(!set.add_attached(4, good));
    assert!(!set.add_attached(5, None));
    assert!(!set.add_attached(5, Some(AttachResponse { device_slot: -1, pad_slot: 0 })));
    assert!(!set.add_attached(5, Some(AttachResponse { device_slot: 0, pad_slot: -1 })));
    assert!(set.add_attached(6, good));
    assert_eq!(set.len(), 2);
    assert!(set.contains_id(6));
    assert!(!set.reattach(0, None));
    assert_eq!(set.controllers()[0].device_slot, 1);
    assert!(!set.reattach(0, Some(AttachResponse { device_slot: -3, pad_slot: 0 })));
    assert_eq!(set.controllers()[0].device_slot, 1);
    assert!(set.reattach(0, Some(AttachResponse { device_slot: 9, pad_slot: 8 })));
    assert_eq!(
        set.controllers()[0],
        Controller { id: 4, handle: 5, device_slot: 9, pad_slot: 8 }
    );
    assert!(set.remove_id(4));
    assert!(!set.remove_id(4));
    assert_eq!(set.len(), 1);
    assert_eq!(set.controllers()[0].id, 6);
    for c in set.controllers() {
        assert!(c.device_slot >= 0 && c.pad_slot >= 0);
    }
}

#[test]
fn controller_set_refuses_shared_handle() {
    let mut set = ControllerSet::new();
    let good = Some(AttachResponse { device_slot: 0, pad_slot: 0 });
    assert!(set.add_attached(0, good));
    let same_handle = (i32::MAX - 1) as usize;
    assert_eq!(gamepad_id_to_handle(same_handle), 1);
    assert!(!set.add_attached(same_handle, good));
    assert_eq!(set.len(), 1);
}

#[test]
fn handles_from_gamepad_ids() {
    assert_eq!(gamepad_id_to_handle(0), 1);
    assert_eq!(gamepad_id_to_handle(1233), 1234);
    assert_eq!(gamepad_id_to_handle((i32::MAX - 1) as usize), 1);
    assert_eq!(gamepad_id_to_handle((i32::MAX - 2) as usize), i32::MAX - 1);
}

#[test]
fn handle_factory_counts_up() {
    let mut factory = HandleFactory::new();
    assert_eq!(factory.next(), 2);
    assert_eq!(factory.next(), 3);
    assert_eq!(factory.next(), 4);
}

#[test]
fn polling_rate_bounds() {
    assert_eq!(polling_quota(19), Err(PollingRateError::TooLow));
    assert_eq!(polling_quota(20), Ok(10));
    assert_eq!(polling_quota(250), Ok(125));
    assert_eq!(polling_quota(1000), Ok(500));
    assert_eq!(polling_quota(1001), Err(PollingRateError::TooHigh));
}

#[test]
fn opcodes_and_ports() {
    assert_eq!(TcpProtocol::TcpCommandAttach.byte(), 0x01);
    assert_eq!(TcpProtocol::TcpCommandDetach.byte(), 0x02);
    assert_eq!(TcpProtocol::TcpCommandPing.byte(), 0xF0);
    assert_eq!(TcpProtocol::TcpCommandPong.byte(), 0xF1);
    assert_eq!(TcpProtocol::TcpCommandAttachConfigFound.byte(), 0xE0);
    assert_eq!(TcpProtocol::TcpCommandAttachConfigNotFound.byte(), 0xE1);
    assert_eq!(TcpProtocol::TcpCommandAttachUserdataOkay.byte(), 0xE8);
    assert_eq!(TcpProtocol::TcpCommandAttachUserdataBad.byte(), 0xE9);
    assert_eq!(UdpProtocol::UdpCommandData.byte(), 0x03);
    assert_eq!(UdpProtocol::UdpCommandRumble.byte(), 0x01);
    assert_eq!(BaseProtocol::TcpPort.port(), 8112);
    assert_eq!(BaseProtocol::UdpPort.port(), 8113);
    assert_eq!(BaseProtocol::UdpServerPort.port(), 8114);
    assert_eq!(ProtocolVersion::Abort.byte(), 0x30);
    assert_eq!(ProtocolVersion::from_byte(0x14), ProtocolVersion::Version3);
    assert_eq!(ProtocolVersion::from_byte(0x30), ProtocolVersion::Abort);
    assert_eq!(ProtocolVersion::from_byte(0x99), ProtocolVersion::Unknown);
}
