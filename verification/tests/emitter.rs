use sight_lidar_core::control_frame::encode_frame;
use sight_lidar_core::emitter::{complete_command, EmitterCore};
use sight_lidar_core::frames::{Cmd, CommandError, CommonResp, Heartbeat, Record, SampleCtrlReq};

#[test]
fn sequence_numbers_count_up_and_wrap() {
    // Sequence-number wrap: counting from the sequence-zero command,
    // after 65535 further successful commands the next command uses
    // sequence number zero again.
    let mut core = EmitterCore::new();
    let heartbeat = Heartbeat::new().cmd();
    for expected in 0..=65535u16 {
        let seq = core.begin_command(heartbeat).unwrap();
        assert_eq!(seq, expected);
        assert!(core.deliver(heartbeat));
    }
    assert_eq!(core.begin_command(heartbeat).unwrap(), 0);
}

#[test]
fn per_command_latch_blocks_second_waiter() {
    let mut core = EmitterCore::new();
    let cmd = Cmd::new(0x00, 0x04);
    let seq = core.begin_command(cmd).unwrap();
    assert_eq!(seq, 0);
    // The same command pair cannot take a second waiter while pending.
    assert!(core.begin_command(cmd).is_none());
    // A different command pair can.
    assert_eq!(core.begin_command(Cmd::new(0x00, 0x03)).unwrap(), 1);
    // Once the reply is delivered, the pair is free again.
    assert!(core.deliver(cmd));
    assert_eq!(core.begin_command(cmd).unwrap(), 2);
}

#[test]
fn deliver_without_waiter_is_ignored() {
    let mut core = EmitterCore::new();
    assert!(!core.deliver(Cmd::new(0x01, 0x02)));
}

#[test]
fn receive_worker_dispatches_reply_by_command_pair() {
    let mut core = EmitterCore::new();
    let cmd = SampleCtrlReq::new(0).cmd();
    core.begin_command(cmd).unwrap();

    // The device echoes the request's command pair in a CommonResp body;
    // replies correlate by that pair, not by sequence number.
    let resp = CommonResp::new(cmd, 0);
    let frame = encode_frame(1, 5, &resp.encode_body());
    let (got_cmd, body) = core.handle_datagram(&frame).unwrap();
    assert_eq!(got_cmd, cmd);
    let finished = complete_command(got_cmd, &body).unwrap();
    assert_eq!(finished, resp);
}

#[test]
fn device_status_error_reaches_caller() {
    // S5: a CommonResp with ret_code 1 produces DeviceStatus(1).
    let mut core = EmitterCore::new();
    let cmd = Cmd::new(0x00, 0x01);
    core.begin_command(cmd).unwrap();
    let body = CommonResp::new(cmd, 1).encode_body();
    let frame = encode_frame(1, 0, &body);
    let (got_cmd, got_body) = core.handle_datagram(&frame).unwrap();
    assert_eq!(complete_command(got_cmd, &got_body), Err(CommandError::DeviceStatus(1)));
}

#[test]
fn corrupt_datagram_is_tolerated() {
    // The receive worker drops malformed packets and keeps the state.
    let mut core = EmitterCore::new();
    let cmd = Cmd::new(0x00, 0x03);
    core.begin_command(cmd).unwrap();
    let body = CommonResp::new(cmd, 0).encode_body();
    let mut frame = encode_frame(1, 0, &body);
    frame[10] ^= 0x20;
    assert!(core.handle_datagram(&frame).is_none());
    // The waiter is still pending and the good packet still lands.
    let good = encode_frame(1, 0, &body);
    assert!(core.handle_datagram(&good).is_some());
}

#[test]
fn reply_for_idle_command_is_ignored() {
    let mut core = EmitterCore::new();
    let body = CommonResp::new(Cmd::new(0x00, 0x06), 0).encode_body();
    let frame = encode_frame(1, 3, &body);
    assert!(core.handle_datagram(&frame).is_none());
}
