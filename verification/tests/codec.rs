use sight_lidar_core::control_frame::{
    decode_frame, encode_frame, CmdType, ControlFrame, ProtocolError,
};
use sight_lidar_core::frames::{
    Broadcast, ChangeCoordReq, CheckStatus, Cmd, CommandError, CommonResp, DeviceInfoReq,
    DisconnectReq, GetReturnMode, Handshake, Heartbeat, IpConfigReq, IpInfoReq, Len, ModeSwitchReq,
    ReadOuterParams, RebootReq, Record, SampleCtrlReq, SetReturnMode, UpdateUtcSyncTime,
    WriteFlashReq, WriteOuterParams,
};

fn encode<T: Record>(seq: u16, data: T) -> Vec<u8> {
    ControlFrame::new(CmdType::Cmd, seq, data).serialize().unwrap()
}

#[test]
fn handshake_header_layout() {
    let req = Handshake::new([192, 168, 1, 50], 50001, 50002, 50003);
    let buf = encode(0x11, req);
    // sof, version
    assert_eq!(buf[0], 0xAA);
    assert_eq!(buf[1], 0x01);
    // total length field counts the complete wire representation
    assert_eq!(buf.len(), 25);
    assert_eq!(u16::from_le_bytes([buf[2], buf[3]]) as usize, buf.len());
    // cmd_type and sequence number
    assert_eq!(buf[4], 0x00);
    assert_eq!(u16::from_le_bytes([buf[5], buf[6]]), 0x11);
    // the body starts with the command pair
    assert_eq!(buf[9], 0x00);
    assert_eq!(buf[10], 0x01);
    // body fields, little endian, no padding
    assert_eq!(&buf[11..15], &[192, 168, 1, 50]);
    assert_eq!(u16::from_le_bytes([buf[15], buf[16]]), 50001);
    assert_eq!(u16::from_le_bytes([buf[17], buf[18]]), 50002);
    assert_eq!(u16::from_le_bytes([buf[19], buf[20]]), 50003);
}

#[test]
fn handshake_round_trip() {
    let req = Handshake::new([192, 168, 1, 50], 50001, 50002, 50003);
    let buf = encode(0x11, req);
    let mut frame = ControlFrame::new(CmdType::Ack, 0, Handshake::new([0, 0, 0, 0], 0, 0, 0));
    frame.deserialize(&buf).unwrap();
    assert_eq!(frame.sof, 0xAA);
    assert_eq!(frame.version, 0x01);
    assert_eq!(frame.cmd_type, CmdType::Cmd);
    assert_eq!(frame.seq_num, 0x11);
    assert_eq!(frame.data, req);
}

#[test]
fn sample_start_round_trip() {
    let req = SampleCtrlReq::new(0);
    let buf = encode(0, req);
    let mut frame = ControlFrame::new(CmdType::Ack, 9, SampleCtrlReq::new(7));
    frame.deserialize(&buf).unwrap();
    assert_eq!(frame.seq_num, 0);
    assert_eq!(frame.data.ctrl, 0);
    assert_eq!(frame.data, req);
}

#[test]
fn corrupt_header_crc_byte() {
    let req = SampleCtrlReq::new(0);
    let mut buf = encode(3, req);
    buf[7] ^= 0xFF;
    let mut frame = ControlFrame::new(CmdType::Cmd, 0, SampleCtrlReq::new(0));
    assert_eq!(frame.deserialize(&buf), Err(ProtocolError::HeaderCrcFail));
}

#[test]
fn corrupt_body_byte_fails_frame_crc() {
    let req = SampleCtrlReq::new(0);
    let mut buf = encode(3, req);
    buf[11] ^= 0x01;
    assert_eq!(decode_frame(&buf).unwrap_err(), ProtocolError::FrameCrcFail);
}

#[test]
fn single_bit_flips_are_detected() {
    // Flipping any single bit of a serialized envelope fails decoding with
    // a checksum error, except in the length field, where the length check
    // itself reports the damage first.
    let req = Handshake::new([10, 0, 0, 1], 60001, 60002, 60003);
    let good = encode(0x42, req);
    assert!(decode_frame(&good).is_ok());
    for byte in 0..good.len() {
        for bit in 0..8 {
            let mut buf = good.clone();
            buf[byte] ^= 1u8 << bit;
            let err = decode_frame(&buf).unwrap_err();
            if byte == 2 || byte == 3 {
                assert_eq!(err, ProtocolError::LengthMismatch);
            } else if byte < 9 {
                assert_eq!(err, ProtocolError::HeaderCrcFail);
            } else {
                assert_eq!(err, ProtocolError::FrameCrcFail);
            }
        }
    }
}

fn check_length<T: Record + Copy>(data: T) {
    let buf = encode(5, data);
    assert_eq!(u16::from_le_bytes([buf[2], buf[3]]) as usize, buf.len());
    assert_eq!(buf.len(), T::len() as usize + 13);
}

#[test]
fn length_field_counts_whole_frame_for_every_record() {
    // P4 at runtime, over the whole catalog.
    check_length(Broadcast::new());
    check_length(Handshake::new([1, 2, 3, 4], 1, 2, 3));
    check_length(DeviceInfoReq::new());
    check_length(Heartbeat::new());
    check_length(SampleCtrlReq::new(1));
    check_length(ChangeCoordReq::new(1));
    check_length(DisconnectReq::new());
    check_length(IpConfigReq::new(0, [192, 168, 1, 2], [255, 255, 255, 0], [192, 168, 1, 1]));
    check_length(IpInfoReq::new());
    check_length(RebootReq::new(100));
    check_length(WriteFlashReq::new(true, false, 3));
    check_length(ModeSwitchReq::new(1));
    check_length(WriteOuterParams::new(0x3F800000, 0x40000000, 0x40400000, -10, 20, -30));
    check_length(ReadOuterParams::new());
    check_length(SetReturnMode::new(2));
    check_length(GetReturnMode::new());
    check_length(UpdateUtcSyncTime::new(24, 12, 31, 23, 999_999));
}

fn check_round_trip<T: Record + Copy + PartialEq + std::fmt::Debug>(seq: u16, data: T) {
    let buf = encode(seq, data);
    let (t, got_seq, body) = decode_frame(&buf).unwrap();
    assert_eq!(t, CmdType::Cmd);
    assert_eq!(got_seq, seq);
    let decoded = T::decode_body(&body).unwrap();
    assert_eq!(decoded, data);
}

#[test]
fn catalog_round_trips() {
    // P3 at runtime: decode(encode(seq, r)) == (seq, r) across the catalog.
    check_round_trip(1, Broadcast::new());
    check_round_trip(2, Handshake::new([172, 16, 0, 9], 8001, 8002, 8003));
    check_round_trip(3, DeviceInfoReq::new());
    check_round_trip(4, Heartbeat::new());
    check_round_trip(5, SampleCtrlReq::new(1));
    check_round_trip(6, ChangeCoordReq::new(0));
    check_round_trip(7, DisconnectReq::new());
    check_round_trip(8, IpConfigReq::new(1, [10, 1, 2, 3], [255, 0, 0, 0], [10, 1, 2, 1]));
    check_round_trip(9, IpInfoReq::new());
    check_round_trip(10, RebootReq::new(65535));
    check_round_trip(11, WriteFlashReq::new(false, true, 255));
    check_round_trip(12, ModeSwitchReq::new(3));
    check_round_trip(13, WriteOuterParams::new(0, 0xFFFFFFFF, 0x7F800000, i32::MIN, i32::MAX, 0));
    check_round_trip(14, ReadOuterParams::new());
    check_round_trip(15, SetReturnMode::new(0));
    check_round_trip(16, GetReturnMode::new());
    check_round_trip(0xFFFF, UpdateUtcSyncTime::new(0, 1, 1, 0, 0));
}

#[test]
fn declared_lengths_match_catalog() {
    assert_eq!(Broadcast::len(), 21);
    assert_eq!(Handshake::len(), 12);
    assert_eq!(DeviceInfoReq::len(), 2);
    assert_eq!(Heartbeat::len(), 2);
    assert_eq!(SampleCtrlReq::len(), 3);
    assert_eq!(ChangeCoordReq::len(), 3);
    assert_eq!(DisconnectReq::len(), 2);
    assert_eq!(IpConfigReq::len(), 15);
    assert_eq!(IpInfoReq::len(), 2);
    assert_eq!(RebootReq::len(), 4);
    assert_eq!(WriteFlashReq::len(), 17);
    assert_eq!(ModeSwitchReq::len(), 3);
    assert_eq!(WriteOuterParams::len(), 26);
    assert_eq!(ReadOuterParams::len(), 2);
    assert_eq!(SetReturnMode::len(), 3);
    assert_eq!(GetReturnMode::len(), 2);
    assert_eq!(UpdateUtcSyncTime::len(), 10);
}

#[test]
fn length_mismatch_is_reported() {
    let buf = encode(1, Heartbeat::new());
    let mut truncated = buf.clone();
    truncated.pop();
    assert_eq!(decode_frame(&truncated).unwrap_err(), ProtocolError::LengthMismatch);
    assert_eq!(decode_frame(&buf[..5]).unwrap_err(), ProtocolError::LengthMismatch);
    assert_eq!(decode_frame(&[]).unwrap_err(), ProtocolError::LengthMismatch);
}

#[test]
fn bad_cmd_type_is_reported() {
    let body = Heartbeat::new().encode_body();
    let buf = encode_frame(3, 7, &body);
    assert_eq!(decode_frame(&buf).unwrap_err(), ProtocolError::BadCmdType);
    let ok = encode_frame(2, 7, &body);
    let (t, seq, _) = decode_frame(&ok).unwrap();
    assert_eq!(t, CmdType::Msg);
    assert_eq!(seq, 7);
}

#[test]
fn body_decode_errors() {
    // Wrong record type for a valid envelope.
    let buf = encode(1, Heartbeat::new());
    let (_, _, body) = decode_frame(&buf).unwrap();
    assert!(matches!(SampleCtrlReq::decode_body(&body), Err(ProtocolError::BodyDecode)));
    // Wrong length for the requested record.
    assert!(matches!(Heartbeat::decode_body(&[0x00]), Err(ProtocolError::BodyDecode)));
    // A boolean byte that is neither 0 nor 1.
    let mut flash = WriteFlashReq::new(true, true, 1).encode_body();
    flash[6] = 2;
    assert!(matches!(WriteFlashReq::decode_body(&flash), Err(ProtocolError::BodyDecode)));
}

#[test]
fn write_flash_tlv_layout() {
    let body = WriteFlashReq::new(true, false, 9).encode_body();
    assert_eq!(
        body,
        vec![
            0x00, 0x0B, 0x01, 0x00, 0x01, 0x00, 1, 0x02, 0x00, 0x01, 0x00, 0, 0x03, 0x00, 0x01,
            0x00, 9
        ]
    );
}

#[test]
fn common_resp_round_trip_and_status() {
    let resp = CommonResp::new(Cmd::new(0x00, 0x04), 0);
    let body = resp.encode_body();
    assert_eq!(body, vec![0x00, 0x04, 0x00]);
    let back = CommonResp::decode_body(&body).unwrap();
    assert_eq!(back, resp);
    assert!(back.check_status().is_ok());

    // S5: a non-zero ret_code is a device-status failure.
    let failing = CommonResp::new(Cmd::new(0x00, 0x01), 1);
    assert_eq!(failing.check_status(), Err(CommandError::DeviceStatus(1)));
}

#[test]
fn cmd_accessors() {
    assert_eq!(Heartbeat::new().cmd(), Cmd::new(0x00, 0x03));
    assert_eq!(Handshake::new([0, 0, 0, 0], 0, 0, 0).cmd(), Cmd::new(0x00, 0x01));
    assert_eq!(DisconnectReq::new().cmd(), Cmd::new(0x00, 0x06));
    assert_eq!(SampleCtrlReq::new(0).cmd(), Cmd::new(0x00, 0x04));
    assert_eq!(UpdateUtcSyncTime::new(1, 2, 3, 4, 5).cmd(), Cmd::new(0x01, 0x0A));
}

#[test]
fn decode_ignores_sof_and_version_bytes() {
    // The decoder validates length and checksums, not the sof byte; a
    // frame that was built with different leading bytes fails the header
    // checksum instead.
    let req = Heartbeat::new();
    let mut buf = encode(0, req);
    buf[0] = 0x55;
    assert_eq!(decode_frame(&buf).unwrap_err(), ProtocolError::HeaderCrcFail);
}
