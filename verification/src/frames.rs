//! The command catalog of the control protocol.
//!
//! Every operation is a typed record whose body is a packed little-endian
//! byte sequence starting with the two command-identifier bytes.  Fields
//! follow in declaration order with no padding; booleans are one byte;
//! fixed arrays of bytes are written as-is; nested records are inlined.

use vstd::prelude::*;
use vstd::bytes::{
    spec_u16_from_le_bytes, spec_u16_to_le_bytes, spec_u32_from_le_bytes, spec_u32_to_le_bytes,
};
use vstd::slice::slice_index_get;
use crate::control_frame::{ProtocolError, FRAME_OVERHEAD};
use crate::wire::{
    lemma_u16_le_round_trip, lemma_u32_le_round_trip, push_u16_le, push_u32_le, u16_le_at,
    u32_le_at,
};

verus! {

/// The two leading bytes identifying an operation.
#[derive(Clone, Copy, Debug, PartialEq, Eq, Hash, Structural)]
pub struct Cmd {
    pub cmd_set: u8,
    pub cmd_id: u8,
}

impl Cmd {
    /// Build a command pair.
    pub fn new(cmd_set: u8, cmd_id: u8) -> (r: Cmd)
        ensures
            r == (Cmd { cmd_set, cmd_id }),
    {
        Cmd { cmd_set, cmd_id }
    }
}

/// An error surfaced to the caller of a command.
#[derive(Clone, Copy, Debug, PartialEq, Eq, Structural)]
pub enum CommandError {
    /// A framing violation in the reply.
    Protocol(ProtocolError),
    /// The device replied with a non-zero `ret_code`.
    DeviceStatus(u8),
    /// The session was shut down while the command was pending.
    Shutdown,
}

/// Declared static length of a record body.
pub trait Len {
    /// The declared body length in bytes, cmd bytes included.
    spec fn spec_len() -> int;

    /// The declared body length in bytes, cmd bytes included.
    fn len() -> (r: u16)
        ensures
            r as int == Self::spec_len(),
    ;
}

/// A typed command record with a fixed command pair and a packed body.
pub trait Record: Len + Sized {
    /// The fixed command pair of this record type.
    spec fn spec_cmd() -> Cmd;

    /// The packed little-endian body, including the two leading cmd bytes.
    spec fn body(&self) -> Seq<u8>;

    /// The record a body decodes to, if the body is well formed.
    spec fn spec_decode_body(b: Seq<u8>) -> Option<Self>;

    /// The command pair identifying this operation.
    fn cmd(&self) -> (r: Cmd)
        ensures
            r == Self::spec_cmd(),
    ;

    /// Encode the body.
    fn encode_body(&self) -> (r: Vec<u8>)
        ensures
            r@ == self.body(),
    ;

    /// Decode a body; any malformed body is a `BodyDecode` error.
    fn decode_body(b: &[u8]) -> (r: Result<Self, ProtocolError>)
        ensures
            match r {
                Ok(x) => Self::spec_decode_body(b@) == Some(x),
                Err(e) => Self::spec_decode_body(b@) is None && e == ProtocolError::BodyDecode,
            },
    ;

    /// The body round-trips through decoding, has the declared length,
    /// fits inside a frame, and starts with the command pair.
    proof fn lemma_wf(&self)
        ensures
            Self::spec_decode_body(self.body()) == Some(*self),
            self.body().len() == Self::spec_len(),
            2 <= Self::spec_len(),
            Self::spec_len() + FRAME_OVERHEAD <= u16::MAX,
            self.body()[0] == Self::spec_cmd().cmd_set,
            self.body()[1] == Self::spec_cmd().cmd_id,
    ;
}

/// A reply that carries a status code to be checked.
pub trait CheckStatus {
    /// Whether the reply reports success.
    spec fn spec_status_ok(&self) -> bool;

    /// The error reported when the reply is not a success.
    spec fn spec_status_err(&self) -> CommandError;

    /// Check the reply status; success exactly when the device reported it.
    fn check_status(&self) -> (r: Result<(), CommandError>)
        ensures
            match r {
                Ok(_) => self.spec_status_ok(),
                Err(e) => !self.spec_status_ok() && e == self.spec_status_err(),
            },
    ;
}

/// Keepalive request (set 0x00, id 0x03); empty body.
#[derive(Clone, Copy, Debug, PartialEq, Eq)]
pub struct Heartbeat {}

impl Heartbeat {
    /// Build a keepalive request.
    pub fn new() -> (r: Heartbeat) {
        Heartbeat {  }
    }
}

impl Len for Heartbeat {
    open spec fn spec_len() -> int {
        2
    }

    fn len() -> u16 {
        2
    }
}

impl Record for Heartbeat {
    open spec fn spec_cmd() -> Cmd {
        Cmd { cmd_set: 0x00, cmd_id: 0x03 }
    }

    open spec fn body(&self) -> Seq<u8> {
        seq![0x00u8, 0x03u8]
    }

    open spec fn spec_decode_body(b: Seq<u8>) -> Option<Heartbeat> {
        if b.len() == 2 && b[0] == 0x00 && b[1] == 0x03 {
            Some(Heartbeat {  })
        } else {
            None
        }
    }

    fn cmd(&self) -> Cmd {
        Cmd { cmd_set: 0x00, cmd_id: 0x03 }
    }

    fn encode_body(&self) -> (r: Vec<u8>) {
        let mut buf: Vec<u8> = Vec::new();
        buf.push(0x00);
        buf.push(0x03);
        assert(buf@ =~= self.body());
        buf
    }

    fn decode_body(b: &[u8]) -> (r: Result<Heartbeat, ProtocolError>) {
        if b.len() == 2 && *slice_index_get(b, 0) == 0x00 && *slice_index_get(b, 1) == 0x03 {
            Ok(Heartbeat {  })
        } else {
            Err(ProtocolError::BodyDecode)
        }
    }

    proof fn lemma_wf(&self) {
    }
}

/// Start or end sampling (set 0x00, id 0x04); `ctrl` is 0 to start, 1 to end.
#[derive(Clone, Copy, Debug, PartialEq, Eq)]
pub struct SampleCtrlReq {
    pub ctrl: u8,
}

impl SampleCtrlReq {
    /// Build a sampling control request.
    pub fn new(ctrl: u8) -> (r: SampleCtrlReq)
        ensures
            r == (SampleCtrlReq { ctrl }),
    {
        SampleCtrlReq { ctrl }
    }
}

impl Len for SampleCtrlReq {
    open spec fn spec_len() -> int {
        3
    }

    fn len() -> u16 {
        3
    }
}

impl Record for SampleCtrlReq {
    open spec fn spec_cmd() -> Cmd {
        Cmd { cmd_set: 0x00, cmd_id: 0x04 }
    }

    open spec fn body(&self) -> Seq<u8> {
        seq![0x00u8, 0x04u8, self.ctrl]
    }

    open spec fn spec_decode_body(b: Seq<u8>) -> Option<SampleCtrlReq> {
        if b.len() == 3 && b[0] == 0x00 && b[1] == 0x04 {
            Some(SampleCtrlReq { ctrl: b[2] })
        } else {
            None
        }
    }

    fn cmd(&self) -> Cmd {
        Cmd { cmd_set: 0x00, cmd_id: 0x04 }
    }

    fn encode_body(&self) -> (r: Vec<u8>) {
        let mut buf: Vec<u8> = Vec::new();
        buf.push(0x00);
        buf.push(0x04);
        buf.push(self.ctrl);
        assert(buf@ =~= self.body());
        buf
    }

    fn decode_body(b: &[u8]) -> (r: Result<SampleCtrlReq, ProtocolError>) {
        if b.len() == 3 && *slice_index_get(b, 0) == 0x00 && *slice_index_get(b, 1) == 0x04 {
            Ok(SampleCtrlReq { ctrl: *slice_index_get(b, 2) })
        } else {
            Err(ProtocolError::BodyDecode)
        }
    }

    proof fn lemma_wf(&self) {
    }
}

/// Handshake request (set 0x00, id 0x01): the host's address and the three
/// ports the device should talk back to.
#[derive(Clone, Copy, Debug, PartialEq, Eq)]
pub struct Handshake {
    pub user_ip: [u8; 4],
    pub data_port: u16,
    pub cmd_port: u16,
    pub imu_port: u16,
}

impl Handshake {
    /// Build a handshake request.
    pub fn new(user_ip: [u8; 4], data_port: u16, cmd_port: u16, imu_port: u16) -> (r: Handshake)
        ensures
            r == (Handshake { user_ip, data_port, cmd_port, imu_port }),
    {
        Handshake { user_ip, data_port, cmd_port, imu_port }
    }
}

impl Len for Handshake {
    open spec fn spec_len() -> int {
        12
    }

    fn len() -> u16 {
        12
    }
}

impl Record for Handshake {
    open spec fn spec_cmd() -> Cmd {
        Cmd { cmd_set: 0x00, cmd_id: 0x01 }
    }

    open spec fn body(&self) -> Seq<u8> {
        seq![0x00u8, 0x01u8] + self.user_ip@ + spec_u16_to_le_bytes(self.data_port)
            + spec_u16_to_le_bytes(self.cmd_port) + spec_u16_to_le_bytes(self.imu_port)
    }

    open spec fn spec_decode_body(b: Seq<u8>) -> Option<Handshake> {
        if b.len() == 12 && b[0] == 0x00 && b[1] == 0x01 {
            Some(
                Handshake {
                    user_ip: [b[2], b[3], b[4], b[5]],
                    data_port: spec_u16_from_le_bytes(b.subrange(6, 8)),
                    cmd_port: spec_u16_from_le_bytes(b.subrange(8, 10)),
                    imu_port: spec_u16_from_le_bytes(b.subrange(10, 12)),
                },
            )
        } else {
            None
        }
    }

    fn cmd(&self) -> Cmd {
        Cmd { cmd_set: 0x00, cmd_id: 0x01 }
    }

    fn encode_body(&self) -> (r: Vec<u8>) {
        let mut buf: Vec<u8> = Vec::new();
        buf.push(0x00);
        buf.push(0x01);
        buf.push(self.user_ip[0]);
        buf.push(self.user_ip[1]);
        buf.push(self.user_ip[2]);
        buf.push(self.user_ip[3]);
        push_u16_le(&mut buf, self.data_port);
        push_u16_le(&mut buf, self.cmd_port);
        push_u16_le(&mut buf, self.imu_port);
        assert(buf@ =~= self.body());
        buf
    }

    fn decode_body(b: &[u8]) -> (r: Result<Handshake, ProtocolError>) {
        if b.len() == 12 && *slice_index_get(b, 0) == 0x00 && *slice_index_get(b, 1) == 0x01 {
            let user_ip = [
                *slice_index_get(b, 2),
                *slice_index_get(b, 3),
                *slice_index_get(b, 4),
                *slice_index_get(b, 5),
            ];
            let data_port = u16_le_at(b, 6);
            let cmd_port = u16_le_at(b, 8);
            let imu_port = u16_le_at(b, 10);
            Ok(Handshake { user_ip, data_port, cmd_port, imu_port })
        } else {
            Err(ProtocolError::BodyDecode)
        }
    }

    proof fn lemma_wf(&self) {
        lemma_u16_le_round_trip(self.data_port);
        lemma_u16_le_round_trip(self.cmd_port);
        lemma_u16_le_round_trip(self.imu_port);
        let b = self.body();
        assert(b.subrange(6, 8) =~= spec_u16_to_le_bytes(self.data_port));
        assert(b.subrange(8, 10) =~= spec_u16_to_le_bytes(self.cmd_port));
        assert(b.subrange(10, 12) =~= spec_u16_to_le_bytes(self.imu_port));
        let decoded = Self::spec_decode_body(b);
        assert(decoded is Some);
        broadcast use vstd::array::axiom_array_ext_equal;

        assert(decoded->0.user_ip =~= self.user_ip);
    }
}

/// Generic reply (echoing the request's command pair) with a status code;
/// `ret_code` 0 means success.
#[derive(Clone, Copy, Debug, PartialEq, Eq)]
pub struct CommonResp {
    pub cmd: Cmd,
    pub ret_code: u8,
}

impl CommonResp {
    /// Build a reply record.
    pub fn new(cmd: Cmd, ret_code: u8) -> (r: CommonResp)
        ensures
            r == (CommonResp { cmd, ret_code }),
    {
        CommonResp { cmd, ret_code }
    }

    /// The packed body: the echoed command pair, then the status code.
    pub open spec fn body(&self) -> Seq<u8> {
        seq![self.cmd.cmd_set, self.cmd.cmd_id, self.ret_code]
    }

    /// The reply a body decodes to, if it has the right length.
    pub open spec fn spec_decode_body(b: Seq<u8>) -> Option<CommonResp> {
        if b.len() == 3 {
            Some(CommonResp { cmd: Cmd { cmd_set: b[0], cmd_id: b[1] }, ret_code: b[2] })
        } else {
            None
        }
    }

    /// Encode the body.
    pub fn encode_body(&self) -> (r: Vec<u8>)
        ensures
            r@ == self.body(),
    {
        let mut buf: Vec<u8> = Vec::new();
        buf.push(self.cmd.cmd_set);
        buf.push(self.cmd.cmd_id);
        buf.push(self.ret_code);
        assert(buf@ =~= self.body());
        buf
    }

    /// Decode a body.
    pub fn decode_body(b: &[u8]) -> (r: Result<CommonResp, ProtocolError>)
        ensures
            match r {
                Ok(x) => Self::spec_decode_body(b@) == Some(x),
                Err(e) => Self::spec_decode_body(b@) is None && e == ProtocolError::BodyDecode,
            },
    {
        if b.len() == 3 {
            Ok(
                CommonResp {
                    cmd: Cmd { cmd_set: *slice_index_get(b, 0), cmd_id: *slice_index_get(b, 1) },
                    ret_code: *slice_index_get(b, 2),
                },
            )
        } else {
            Err(ProtocolError::BodyDecode)
        }
    }

    /// The body encoding round-trips.
    pub proof fn lemma_round_trip(&self)
        ensures
            Self::spec_decode_body(self.body()) == Some(*self),
            self.body().len() == 3,
    {
    }
}

impl CheckStatus for CommonResp {
    open spec fn spec_status_ok(&self) -> bool {
        self.ret_code == 0
    }

    open spec fn spec_status_err(&self) -> CommandError {
        CommandError::DeviceStatus(self.ret_code)
    }

    fn check_status(&self) -> (r: Result<(), CommandError>) {
        if self.ret_code == 0 {
            Ok(())
        } else {
            Err(CommandError::DeviceStatus(self.ret_code))
        }
    }
}


/// Device broadcast (set 0x00, id 0x00): the code and type a device
/// announces itself with.
#[derive(Clone, Copy, Debug, PartialEq, Eq)]
pub struct Broadcast {
    pub broadcast_code: [u8; 16],
    pub dev_type: u8,
    pub reserved: u16,
}

impl Broadcast {
    /// Build an all-zero broadcast record.
    pub fn new() -> (r: Broadcast)
        ensures
            r.broadcast_code@ == Seq::<u8>::new(16, |i: int| 0u8),
            r.dev_type == 0,
            r.reserved == 0,
    {
        let broadcast_code = [0u8; 16];
        proof {
            assert(broadcast_code@ =~= Seq::<u8>::new(16, |i: int| 0u8));
        }
        Broadcast { broadcast_code, dev_type: 0x00, reserved: 0x0000 }
    }
}

impl Len for Broadcast {
    open spec fn spec_len() -> int {
        21
    }

    fn len() -> u16 {
        21
    }
}

impl Record for Broadcast {
    open spec fn spec_cmd() -> Cmd {
        Cmd { cmd_set: 0x00, cmd_id: 0x00 }
    }

    open spec fn body(&self) -> Seq<u8> {
        seq![0x00u8, 0x00u8] + self.broadcast_code@ + seq![self.dev_type]
            + spec_u16_to_le_bytes(self.reserved)
    }

    open spec fn spec_decode_body(b: Seq<u8>) -> Option<Broadcast> {
        if b.len() == 21 && b[0] == 0x00 && b[1] == 0x00 {
            Some(
                Broadcast {
                    broadcast_code: [
                        b[2],
                        b[3],
                        b[4],
                        b[5],
                        b[6],
                        b[7],
                        b[8],
                        b[9],
                        b[10],
                        b[11],
                        b[12],
                        b[13],
                        b[14],
                        b[15],
                        b[16],
                        b[17],
                    ],
                    dev_type: b[18],
                    reserved: spec_u16_from_le_bytes(b.subrange(19, 21)),
                },
            )
        } else {
            None
        }
    }

    fn cmd(&self) -> Cmd {
        Cmd { cmd_set: 0x00, cmd_id: 0x00 }
    }

    fn encode_body(&self) -> (r: Vec<u8>) {
        let mut buf: Vec<u8> = Vec::new();
        buf.push(0x00);
        buf.push(0x00);
        let mut i: usize = 0;
        while i < 16
            invariant
                i <= 16,
                buf@ == seq![0x00u8, 0x00u8] + self.broadcast_code@.subrange(0, i as int),
            decreases 16 - i,
        {
            buf.push(self.broadcast_code[i]);
            assert(buf@ =~= seq![0x00u8, 0x00u8] + self.broadcast_code@.subrange(0, i + 1));
            i = i + 1;
        }
        assert(self.broadcast_code@.subrange(0, 16) =~= self.broadcast_code@);
        buf.push(self.dev_type);
        push_u16_le(&mut buf, self.reserved);
        assert(buf@ =~= self.body());
        buf
    }

    fn decode_body(b: &[u8]) -> (r: Result<Broadcast, ProtocolError>) {
        if b.len() == 21 && *slice_index_get(b, 0) == 0x00 && *slice_index_get(b, 1) == 0x00 {
            let broadcast_code = [
                *slice_index_get(b, 2),
                *slice_index_get(b, 3),
                *slice_index_get(b, 4),
                *slice_index_get(b, 5),
                *slice_index_get(b, 6),
                *slice_index_get(b, 7),
                *slice_index_get(b, 8),
                *slice_index_get(b, 9),
                *slice_index_get(b, 10),
                *slice_index_get(b, 11),
                *slice_index_get(b, 12),
                *slice_index_get(b, 13),
                *slice_index_get(b, 14),
                *slice_index_get(b, 15),
                *slice_index_get(b, 16),
                *slice_index_get(b, 17),
            ];
            let dev_type = *slice_index_get(b, 18);
            let reserved = u16_le_at(b, 19);
            Ok(Broadcast { broadcast_code, dev_type, reserved })
        } else {
            Err(ProtocolError::BodyDecode)
        }
    }

    proof fn lemma_wf(&self) {
        lemma_u16_le_round_trip(self.reserved);
        let b = self.body();
        assert(b.subrange(19, 21) =~= spec_u16_to_le_bytes(self.reserved));
        let decoded = Self::spec_decode_body(b);
        assert(decoded is Some);
        broadcast use vstd::array::axiom_array_ext_equal;

        assert(decoded->0.broadcast_code =~= self.broadcast_code);
    }
}


/// Device information request (set 0x00, id 0x02); empty body.
#[derive(Clone, Copy, Debug, PartialEq, Eq)]
pub struct DeviceInfoReq {}

impl DeviceInfoReq {
    /// Build a device information request.
    pub fn new() -> (r: DeviceInfoReq) {
        DeviceInfoReq {  }
    }
}

impl Len for DeviceInfoReq {
    open spec fn spec_len() -> int {
        2
    }

    fn len() -> u16 {
        2
    }
}

impl Record for DeviceInfoReq {
    open spec fn spec_cmd() -> Cmd {
        Cmd { cmd_set: 0x00, cmd_id: 0x02 }
    }

    open spec fn body(&self) -> Seq<u8> {
        seq![0x00u8, 0x02u8]
    }

    open spec fn spec_decode_body(b: Seq<u8>) -> Option<DeviceInfoReq> {
        if b.len() == 2 && b[0] == 0x00 && b[1] == 0x02 {
            Some(DeviceInfoReq {  })
        } else {
            None
        }
    }

    fn cmd(&self) -> Cmd {
        Cmd { cmd_set: 0x00, cmd_id: 0x02 }
    }

    fn encode_body(&self) -> (r: Vec<u8>) {
        let mut buf: Vec<u8> = Vec::new();
        buf.push(0x00);
        buf.push(0x02);
        assert(buf@ =~= self.body());
        buf
    }

    fn decode_body(b: &[u8]) -> (r: Result<DeviceInfoReq, ProtocolError>) {
        if b.len() == 2 && *slice_index_get(b, 0) == 0x00 && *slice_index_get(b, 1) == 0x02 {
            Ok(DeviceInfoReq {  })
        } else {
            Err(ProtocolError::BodyDecode)
        }
    }

    proof fn lemma_wf(&self) {
    }
}

/// Disconnect request (set 0x00, id 0x06); empty body.
#[derive(Clone, Copy, Debug, PartialEq, Eq)]
pub struct DisconnectReq {}

impl DisconnectReq {
    /// Build a disconnect request.
    pub fn new() -> (r: DisconnectReq) {
        DisconnectReq {  }
    }
}

impl Len for DisconnectReq {
    open spec fn spec_len() -> int {
        2
    }

    fn len() -> u16 {
        2
    }
}

impl Record for DisconnectReq {
    open spec fn spec_cmd() -> Cmd {
        Cmd { cmd_set: 0x00, cmd_id: 0x06 }
    }

    open spec fn body(&self) -> Seq<u8> {
        seq![0x00u8, 0x06u8]
    }

    open spec fn spec_decode_body(b: Seq<u8>) -> Option<DisconnectReq> {
        if b.len() == 2 && b[0] == 0x00 && b[1] == 0x06 {
            Some(DisconnectReq {  })
        } else {
            None
        }
    }

    fn cmd(&self) -> Cmd {
        Cmd { cmd_set: 0x00, cmd_id: 0x06 }
    }

    fn encode_body(&self) -> (r: Vec<u8>) {
        let mut buf: Vec<u8> = Vec::new();
        buf.push(0x00);
        buf.push(0x06);
        assert(buf@ =~= self.body());
        buf
    }

    fn decode_body(b: &[u8]) -> (r: Result<DisconnectReq, ProtocolError>) {
        if b.len() == 2 && *slice_index_get(b, 0) == 0x00 && *slice_index_get(b, 1) == 0x06 {
            Ok(DisconnectReq {  })
        } else {
            Err(ProtocolError::BodyDecode)
        }
    }

    proof fn lemma_wf(&self) {
    }
}

/// IP configuration query (set 0x00, id 0x09); empty body.
#[derive(Clone, Copy, Debug, PartialEq, Eq)]
pub struct IpInfoReq {}

impl IpInfoReq {
    /// Build an IP information request.
    pub fn new() -> (r: IpInfoReq) {
        IpInfoReq {  }
    }
}

impl Len for IpInfoReq {
    open spec fn spec_len() -> int {
        2
    }

    fn len() -> u16 {
        2
    }
}

impl Record for IpInfoReq {
    open spec fn spec_cmd() -> Cmd {
        Cmd { cmd_set: 0x00, cmd_id: 0x09 }
    }

    open spec fn body(&self) -> Seq<u8> {
        seq![0x00u8, 0x09u8]
    }

    open spec fn spec_decode_body(b: Seq<u8>) -> Option<IpInfoReq> {
        if b.len() == 2 && b[0] == 0x00 && b[1] == 0x09 {
            Some(IpInfoReq {  })
        } else {
            None
        }
    }

    fn cmd(&self) -> Cmd {
        Cmd { cmd_set: 0x00, cmd_id: 0x09 }
    }

    fn encode_body(&self) -> (r: Vec<u8>) {
        let mut buf: Vec<u8> = Vec::new();
        buf.push(0x00);
        buf.push(0x09);
        assert(buf@ =~= self.body());
        buf
    }

    fn decode_body(b: &[u8]) -> (r: Result<IpInfoReq, ProtocolError>) {
        if b.len() == 2 && *slice_index_get(b, 0) == 0x00 && *slice_index_get(b, 1) == 0x09 {
            Ok(IpInfoReq {  })
        } else {
            Err(ProtocolError::BodyDecode)
        }
    }

    proof fn lemma_wf(&self) {
    }
}

/// Extrinsic parameter query (set 0x01, id 0x02); empty body.
#[derive(Clone, Copy, Debug, PartialEq, Eq)]
pub struct ReadOuterParams {}

impl ReadOuterParams {
    /// Build an extrinsic parameter query.
    pub fn new() -> (r: ReadOuterParams) {
        ReadOuterParams {  }
    }
}

impl Len for ReadOuterParams {
    open spec fn spec_len() -> int {
        2
    }

    fn len() -> u16 {
        2
    }
}

impl Record for ReadOuterParams {
    open spec fn spec_cmd() -> Cmd {
        Cmd { cmd_set: 0x01, cmd_id: 0x02 }
    }

    open spec fn body(&self) -> Seq<u8> {
        seq![0x01u8, 0x02u8]
    }

    open spec fn spec_decode_body(b: Seq<u8>) -> Option<ReadOuterParams> {
        if b.len() == 2 && b[0] == 0x01 && b[1] == 0x02 {
            Some(ReadOuterParams {  })
        } else {
            None
        }
    }

    fn cmd(&self) -> Cmd {
        Cmd { cmd_set: 0x01, cmd_id: 0x02 }
    }

    fn encode_body(&self) -> (r: Vec<u8>) {
        let mut buf: Vec<u8> = Vec::new();
        buf.push(0x01);
        buf.push(0x02);
        assert(buf@ =~= self.body());
        buf
    }

    fn decode_body(b: &[u8]) -> (r: Result<ReadOuterParams, ProtocolError>) {
        if b.len() == 2 && *slice_index_get(b, 0) == 0x01 && *slice_index_get(b, 1) == 0x02 {
            Ok(ReadOuterParams {  })
        } else {
            Err(ProtocolError::BodyDecode)
        }
    }

    proof fn lemma_wf(&self) {
    }
}

/// Return-mode query (set 0x01, id 0x07); empty body.
#[derive(Clone, Copy, Debug, PartialEq, Eq)]
pub struct GetReturnMode {}

impl GetReturnMode {
    /// Build a return-mode query.
    pub fn new() -> (r: GetReturnMode) {
        GetReturnMode {  }
    }
}

impl Len for GetReturnMode {
    open spec fn spec_len() -> int {
        2
    }

    fn len() -> u16 {
        2
    }
}

impl Record for GetReturnMode {
    open spec fn spec_cmd() -> Cmd {
        Cmd { cmd_set: 0x01, cmd_id: 0x07 }
    }

    open spec fn body(&self) -> Seq<u8> {
        seq![0x01u8, 0x07u8]
    }

    open spec fn spec_decode_body(b: Seq<u8>) -> Option<GetReturnMode> {
        if b.len() == 2 && b[0] == 0x01 && b[1] == 0x07 {
            Some(GetReturnMode {  })
        } else {
            None
        }
    }

    fn cmd(&self) -> Cmd {
        Cmd { cmd_set: 0x01, cmd_id: 0x07 }
    }

    fn encode_body(&self) -> (r: Vec<u8>) {
        let mut buf: Vec<u8> = Vec::new();
        buf.push(0x01);
        buf.push(0x07);
        assert(buf@ =~= self.body());
        buf
    }

    fn decode_body(b: &[u8]) -> (r: Result<GetReturnMode, ProtocolError>) {
        if b.len() == 2 && *slice_index_get(b, 0) == 0x01 && *slice_index_get(b, 1) == 0x07 {
            Ok(GetReturnMode {  })
        } else {
            Err(ProtocolError::BodyDecode)
        }
    }

    proof fn lemma_wf(&self) {
    }
}

/// Coordinate system selection (set 0x00, id 0x05); `coord` is 0 for
/// Cartesian, 1 for spherical.
#[derive(Clone, Copy, Debug, PartialEq, Eq)]
pub struct ChangeCoordReq {
    pub coord: u8,
}

impl ChangeCoordReq {
    /// Build a coordinate selection request.
    pub fn new(coord: u8) -> (r: ChangeCoordReq)
        ensures
            r == (ChangeCoordReq { coord }),
    {
        ChangeCoordReq { coord }
    }
}

impl Len for ChangeCoordReq {
    open spec fn spec_len() -> int {
        3
    }

    fn len() -> u16 {
        3
    }
}

impl Record for ChangeCoordReq {
    open spec fn spec_cmd() -> Cmd {
        Cmd { cmd_set: 0x00, cmd_id: 0x05 }
    }

    open spec fn body(&self) -> Seq<u8> {
        seq![0x00u8, 0x05u8, self.coord]
    }

    open spec fn spec_decode_body(b: Seq<u8>) -> Option<ChangeCoordReq> {
        if b.len() == 3 && b[0] == 0x00 && b[1] == 0x05 {
            Some(ChangeCoordReq { coord: b[2] })
        } else {
            None
        }
    }

    fn cmd(&self) -> Cmd {
        Cmd { cmd_set: 0x00, cmd_id: 0x05 }
    }

    fn encode_body(&self) -> (r: Vec<u8>) {
        let mut buf: Vec<u8> = Vec::new();
        buf.push(0x00);
        buf.push(0x05);
        buf.push(self.coord);
        assert(buf@ =~= self.body());
        buf
    }

    fn decode_body(b: &[u8]) -> (r: Result<ChangeCoordReq, ProtocolError>) {
        if b.len() == 3 && *slice_index_get(b, 0) == 0x00 && *slice_index_get(b, 1) == 0x05 {
            Ok(ChangeCoordReq { coord: *slice_index_get(b, 2) })
        } else {
            Err(ProtocolError::BodyDecode)
        }
    }

    proof fn lemma_wf(&self) {
    }
}

/// Power mode switch (set 0x01, id 0x00); `mode` is 1 normal, 2 low power,
/// 3 standby.
#[derive(Clone, Copy, Debug, PartialEq, Eq)]
pub struct ModeSwitchReq {
    pub mode: u8,
}

impl ModeSwitchReq {
    /// Build a power mode switch request.
    pub fn new(mode: u8) -> (r: ModeSwitchReq)
        ensures
            r == (ModeSwitchReq { mode }),
    {
        ModeSwitchReq { mode }
    }
}

impl Len for ModeSwitchReq {
    open spec fn spec_len() -> int {
        3
    }

    fn len() -> u16 {
        3
    }
}

impl Record for ModeSwitchReq {
    open spec fn spec_cmd() -> Cmd {
        Cmd { cmd_set: 0x01, cmd_id: 0x00 }
    }

    open spec fn body(&self) -> Seq<u8> {
        seq![0x01u8, 0x00u8, self.mode]
    }

    open spec fn spec_decode_body(b: Seq<u8>) -> Option<ModeSwitchReq> {
        if b.len() == 3 && b[0] == 0x01 && b[1] == 0x00 {
            Some(ModeSwitchReq { mode: b[2] })
        } else {
            None
        }
    }

    fn cmd(&self) -> Cmd {
        Cmd { cmd_set: 0x01, cmd_id: 0x00 }
    }

    fn encode_body(&self) -> (r: Vec<u8>) {
        let mut buf: Vec<u8> = Vec::new();
        buf.push(0x01);
        buf.push(0x00);
        buf.push(self.mode);
        assert(buf@ =~= self.body());
        buf
    }

    fn decode_body(b: &[u8]) -> (r: Result<ModeSwitchReq, ProtocolError>) {
        if b.len() == 3 && *slice_index_get(b, 0) == 0x01 && *slice_index_get(b, 1) == 0x00 {
            Ok(ModeSwitchReq { mode: *slice_index_get(b, 2) })
        } else {
            Err(ProtocolError::BodyDecode)
        }
    }

    proof fn lemma_wf(&self) {
    }
}

/// Return-mode selection (set 0x01, id 0x06); `mode` ranges over 0 to 3.
#[derive(Clone, Copy, Debug, PartialEq, Eq)]
pub struct SetReturnMode {
    pub mode: u8,
}

impl SetReturnMode {
    /// Build a return-mode selection request.
    pub fn new(mode: u8) -> (r: SetReturnMode)
        ensures
            r == (SetReturnMode { mode }),
    {
        SetReturnMode { mode }
    }
}

impl Len for SetReturnMode {
    open spec fn spec_len() -> int {
        3
    }

    fn len() -> u16 {
        3
    }
}

impl Record for SetReturnMode {
    open spec fn spec_cmd() -> Cmd {
        Cmd { cmd_set: 0x01, cmd_id: 0x06 }
    }

    open spec fn body(&self) -> Seq<u8> {
        seq![0x01u8, 0x06u8, self.mode]
    }

    open spec fn spec_decode_body(b: Seq<u8>) -> Option<SetReturnMode> {
        if b.len() == 3 && b[0] == 0x01 && b[1] == 0x06 {
            Some(SetReturnMode { mode: b[2] })
        } else {
            None
        }
    }

    fn cmd(&self) -> Cmd {
        Cmd { cmd_set: 0x01, cmd_id: 0x06 }
    }

    fn encode_body(&self) -> (r: Vec<u8>) {
        let mut buf: Vec<u8> = Vec::new();
        buf.push(0x01);
        buf.push(0x06);
        buf.push(self.mode);
        assert(buf@ =~= self.body());
        buf
    }

    fn decode_body(b: &[u8]) -> (r: Result<SetReturnMode, ProtocolError>) {
        if b.len() == 3 && *slice_index_get(b, 0) == 0x01 && *slice_index_get(b, 1) == 0x06 {
            Ok(SetReturnMode { mode: *slice_index_get(b, 2) })
        } else {
            Err(ProtocolError::BodyDecode)
        }
    }

    proof fn lemma_wf(&self) {
    }
}

/// Reboot request (set 0x00, id 0x0A) with a timeout in milliseconds.
#[derive(Clone, Copy, Debug, PartialEq, Eq)]
pub struct RebootReq {
    pub timeout: u16,
}

impl RebootReq {
    /// Build a reboot request.
    pub fn new(timeout: u16) -> (r: RebootReq)
        ensures
            r == (RebootReq { timeout }),
    {
        RebootReq { timeout }
    }
}

impl Len for RebootReq {
    open spec fn spec_len() -> int {
        4
    }

    fn len() -> u16 {
        4
    }
}

impl Record for RebootReq {
    open spec fn spec_cmd() -> Cmd {
        Cmd { cmd_set: 0x00, cmd_id: 0x0A }
    }

    open spec fn body(&self) -> Seq<u8> {
        seq![0x00u8, 0x0Au8] + spec_u16_to_le_bytes(self.timeout)
    }

    open spec fn spec_decode_body(b: Seq<u8>) -> Option<RebootReq> {
        if b.len() == 4 && b[0] == 0x00 && b[1] == 0x0A {
            Some(RebootReq { timeout: spec_u16_from_le_bytes(b.subrange(2, 4)) })
        } else {
            None
        }
    }

    fn cmd(&self) -> Cmd {
        Cmd { cmd_set: 0x00, cmd_id: 0x0A }
    }

    fn encode_body(&self) -> (r: Vec<u8>) {
        let mut buf: Vec<u8> = Vec::new();
        buf.push(0x00);
        buf.push(0x0A);
        push_u16_le(&mut buf, self.timeout);
        assert(buf@ =~= self.body());
        buf
    }

    fn decode_body(b: &[u8]) -> (r: Result<RebootReq, ProtocolError>) {
        if b.len() == 4 && *slice_index_get(b, 0) == 0x00 && *slice_index_get(b, 1) == 0x0A {
            Ok(RebootReq { timeout: u16_le_at(b, 2) })
        } else {
            Err(ProtocolError::BodyDecode)
        }
    }

    proof fn lemma_wf(&self) {
        lemma_u16_le_round_trip(self.timeout);
        let b = self.body();
        assert(b.subrange(2, 4) =~= spec_u16_to_le_bytes(self.timeout));
    }
}


/// Static IP configuration (set 0x00, id 0x08): DHCP/static mode, address,
/// netmask and gateway.
#[derive(Clone, Copy, Debug, PartialEq, Eq)]
pub struct IpConfigReq {
    pub mode: u8,
    pub ip: [u8; 4],
    pub mask: [u8; 4],
    pub gw: [u8; 4],
}

impl IpConfigReq {
    /// Build an IP configuration request.
    pub fn new(mode: u8, ip: [u8; 4], mask: [u8; 4], gw: [u8; 4]) -> (r: IpConfigReq)
        ensures
            r == (IpConfigReq { mode, ip, mask, gw }),
    {
        IpConfigReq { mode, ip, mask, gw }
    }
}

impl Len for IpConfigReq {
    open spec fn spec_len() -> int {
        15
    }

    fn len() -> u16 {
        15
    }
}

impl Record for IpConfigReq {
    open spec fn spec_cmd() -> Cmd {
        Cmd { cmd_set: 0x00, cmd_id: 0x08 }
    }

    open spec fn body(&self) -> Seq<u8> {
        seq![0x00u8, 0x08u8, self.mode] + self.ip@ + self.mask@ + self.gw@
    }

    open spec fn spec_decode_body(b: Seq<u8>) -> Option<IpConfigReq> {
        if b.len() == 15 && b[0] == 0x00 && b[1] == 0x08 {
            Some(
                IpConfigReq {
                    mode: b[2],
                    ip: [b[3], b[4], b[5], b[6]],
                    mask: [b[7], b[8], b[9], b[10]],
                    gw: [b[11], b[12], b[13], b[14]],
                },
            )
        } else {
            None
        }
    }

    fn cmd(&self) -> Cmd {
        Cmd { cmd_set: 0x00, cmd_id: 0x08 }
    }

    fn encode_body(&self) -> (r: Vec<u8>) {
        let mut buf: Vec<u8> = Vec::new();
        buf.push(0x00);
        buf.push(0x08);
        buf.push(self.mode);
        buf.push(self.ip[0]);
        buf.push(self.ip[1]);
        buf.push(self.ip[2]);
        buf.push(self.ip[3]);
        buf.push(self.mask[0]);
        buf.push(self.mask[1]);
        buf.push(self.mask[2]);
        buf.push(self.mask[3]);
        buf.push(self.gw[0]);
        buf.push(self.gw[1]);
        buf.push(self.gw[2]);
        buf.push(self.gw[3]);
        assert(buf@ =~= self.body());
        buf
    }

    fn decode_body(b: &[u8]) -> (r: Result<IpConfigReq, ProtocolError>) {
        if b.len() == 15 && *slice_index_get(b, 0) == 0x00 && *slice_index_get(b, 1) == 0x08 {
            let mode = *slice_index_get(b, 2);
            let ip = [
                *slice_index_get(b, 3),
                *slice_index_get(b, 4),
                *slice_index_get(b, 5),
                *slice_index_get(b, 6),
            ];
            let mask = [
                *slice_index_get(b, 7),
                *slice_index_get(b, 8),
                *slice_index_get(b, 9),
                *slice_index_get(b, 10),
            ];
            let gw = [
                *slice_index_get(b, 11),
                *slice_index_get(b, 12),
                *slice_index_get(b, 13),
                *slice_index_get(b, 14),
            ];
            Ok(IpConfigReq { mode, ip, mask, gw })
        } else {
            Err(ProtocolError::BodyDecode)
        }
    }

    proof fn lemma_wf(&self) {
        let decoded = Self::spec_decode_body(self.body());
        assert(decoded is Some);
        broadcast use vstd::array::axiom_array_ext_equal;

        assert(decoded->0.ip =~= self.ip);
        assert(decoded->0.mask =~= self.mask);
        assert(decoded->0.gw =~= self.gw);
    }
}

/// UTC synchronisation time (set 0x01, id 0x0A): year, month, day, hour and
/// microseconds.
#[derive(Clone, Copy, Debug, PartialEq, Eq)]
pub struct UpdateUtcSyncTime {
    pub year: u8,
    pub month: u8,
    pub day: u8,
    pub hour: u8,
    pub microsecond: u32,
}

impl UpdateUtcSyncTime {
    /// Build a UTC synchronisation request.
    pub fn new(year: u8, month: u8, day: u8, hour: u8, microsecond: u32) -> (r: UpdateUtcSyncTime)
        ensures
            r == (UpdateUtcSyncTime { year, month, day, hour, microsecond }),
    {
        UpdateUtcSyncTime { year, month, day, hour, microsecond }
    }
}

impl Len for UpdateUtcSyncTime {
    open spec fn spec_len() -> int {
        10
    }

    fn len() -> u16 {
        10
    }
}

impl Record for UpdateUtcSyncTime {
    open spec fn spec_cmd() -> Cmd {
        Cmd { cmd_set: 0x01, cmd_id: 0x0A }
    }

    open spec fn body(&self) -> Seq<u8> {
        seq![0x01u8, 0x0Au8, self.year, self.month, self.day, self.hour]
            + spec_u32_to_le_bytes(self.microsecond)
    }

    open spec fn spec_decode_body(b: Seq<u8>) -> Option<UpdateUtcSyncTime> {
        if b.len() == 10 && b[0] == 0x01 && b[1] == 0x0A {
            Some(
                UpdateUtcSyncTime {
                    year: b[2],
                    month: b[3],
                    day: b[4],
                    hour: b[5],
                    microsecond: spec_u32_from_le_bytes(b.subrange(6, 10)),
                },
            )
        } else {
            None
        }
    }

    fn cmd(&self) -> Cmd {
        Cmd { cmd_set: 0x01, cmd_id: 0x0A }
    }

    fn encode_body(&self) -> (r: Vec<u8>) {
        let mut buf: Vec<u8> = Vec::new();
        buf.push(0x01);
        buf.push(0x0A);
        buf.push(self.year);
        buf.push(self.month);
        buf.push(self.day);
        buf.push(self.hour);
        push_u32_le(&mut buf, self.microsecond);
        assert(buf@ =~= self.body());
        buf
    }

    fn decode_body(b: &[u8]) -> (r: Result<UpdateUtcSyncTime, ProtocolError>) {
        if b.len() == 10 && *slice_index_get(b, 0) == 0x01 && *slice_index_get(b, 1) == 0x0A {
            Ok(
                UpdateUtcSyncTime {
                    year: *slice_index_get(b, 2),
                    month: *slice_index_get(b, 3),
                    day: *slice_index_get(b, 4),
                    hour: *slice_index_get(b, 5),
                    microsecond: u32_le_at(b, 6),
                },
            )
        } else {
            Err(ProtocolError::BodyDecode)
        }
    }

    proof fn lemma_wf(&self) {
        lemma_u32_le_round_trip(self.microsecond);
        let b = self.body();
        assert(b.subrange(6, 10) =~= spec_u32_to_le_bytes(self.microsecond));
    }
}


/// Extrinsic parameters (set 0x01, id 0x01): mount angles and offsets.
/// The angles are IEEE-754 single-precision bit patterns; the offsets are
/// millimetres.
#[derive(Clone, Copy, Debug, PartialEq, Eq)]
pub struct WriteOuterParams {
    /// Bits of the roll angle in degrees.
    pub roll_bits: u32,
    /// Bits of the pitch angle in degrees.
    pub pitch_bits: u32,
    /// Bits of the yaw angle in degrees.
    pub yaw_bits: u32,
    pub x: i32,
    pub y: i32,
    pub z: i32,
}

impl WriteOuterParams {
    /// Build an extrinsic parameter request.
    pub fn new(roll_bits: u32, pitch_bits: u32, yaw_bits: u32, x: i32, y: i32, z: i32) -> (r:
        WriteOuterParams)
        ensures
            r == (WriteOuterParams { roll_bits, pitch_bits, yaw_bits, x, y, z }),
    {
        WriteOuterParams { roll_bits, pitch_bits, yaw_bits, x, y, z }
    }
}

impl Len for WriteOuterParams {
    open spec fn spec_len() -> int {
        26
    }

    fn len() -> u16 {
        26
    }
}

impl Record for WriteOuterParams {
    open spec fn spec_cmd() -> Cmd {
        Cmd { cmd_set: 0x01, cmd_id: 0x01 }
    }

    open spec fn body(&self) -> Seq<u8> {
        seq![0x01u8, 0x01u8] + spec_u32_to_le_bytes(self.roll_bits) + spec_u32_to_le_bytes(
            self.pitch_bits,
        ) + spec_u32_to_le_bytes(self.yaw_bits) + spec_u32_to_le_bytes(self.x as u32)
            + spec_u32_to_le_bytes(self.y as u32) + spec_u32_to_le_bytes(self.z as u32)
    }

    open spec fn spec_decode_body(b: Seq<u8>) -> Option<WriteOuterParams> {
        if b.len() == 26 && b[0] == 0x01 && b[1] == 0x01 {
            Some(
                WriteOuterParams {
                    roll_bits: spec_u32_from_le_bytes(b.subrange(2, 6)),
                    pitch_bits: spec_u32_from_le_bytes(b.subrange(6, 10)),
                    yaw_bits: spec_u32_from_le_bytes(b.subrange(10, 14)),
                    x: spec_u32_from_le_bytes(b.subrange(14, 18)) as i32,
                    y: spec_u32_from_le_bytes(b.subrange(18, 22)) as i32,
                    z: spec_u32_from_le_bytes(b.subrange(22, 26)) as i32,
                },
            )
        } else {
            None
        }
    }

    fn cmd(&self) -> Cmd {
        Cmd { cmd_set: 0x01, cmd_id: 0x01 }
    }

    fn encode_body(&self) -> (r: Vec<u8>) {
        let mut buf: Vec<u8> = Vec::new();
        buf.push(0x01);
        buf.push(0x01);
        push_u32_le(&mut buf, self.roll_bits);
        push_u32_le(&mut buf, self.pitch_bits);
        push_u32_le(&mut buf, self.yaw_bits);
        push_u32_le(&mut buf, #[verifier::truncate] (self.x as u32));
        push_u32_le(&mut buf, #[verifier::truncate] (self.y as u32));
        push_u32_le(&mut buf, #[verifier::truncate] (self.z as u32));
        assert(buf@ =~= self.body());
        buf
    }

    fn decode_body(b: &[u8]) -> (r: Result<WriteOuterParams, ProtocolError>) {
        if b.len() == 26 && *slice_index_get(b, 0) == 0x01 && *slice_index_get(b, 1) == 0x01 {
            Ok(
                WriteOuterParams {
                    roll_bits: u32_le_at(b, 2),
                    pitch_bits: u32_le_at(b, 6),
                    yaw_bits: u32_le_at(b, 10),
                    x: #[verifier::truncate] (u32_le_at(b, 14) as i32),
                    y: #[verifier::truncate] (u32_le_at(b, 18) as i32),
                    z: #[verifier::truncate] (u32_le_at(b, 22) as i32),
                },
            )
        } else {
            Err(ProtocolError::BodyDecode)
        }
    }

    proof fn lemma_wf(&self) {
        lemma_u32_le_round_trip(self.roll_bits);
        lemma_u32_le_round_trip(self.pitch_bits);
        lemma_u32_le_round_trip(self.yaw_bits);
        lemma_u32_le_round_trip(self.x as u32);
        lemma_u32_le_round_trip(self.y as u32);
        lemma_u32_le_round_trip(self.z as u32);
        let b = self.body();
        assert(b.subrange(2, 6) =~= spec_u32_to_le_bytes(self.roll_bits));
        assert(b.subrange(6, 10) =~= spec_u32_to_le_bytes(self.pitch_bits));
        assert(b.subrange(10, 14) =~= spec_u32_to_le_bytes(self.yaw_bits));
        assert(b.subrange(14, 18) =~= spec_u32_to_le_bytes(self.x as u32));
        assert(b.subrange(18, 22) =~= spec_u32_to_le_bytes(self.y as u32));
        assert(b.subrange(22, 26) =~= spec_u32_to_le_bytes(self.z as u32));
        let x = self.x;
        let y = self.y;
        let z = self.z;
        assert((x as u32) as i32 == x) by (bit_vector);
        assert((y as u32) as i32 == y) by (bit_vector);
        assert((z as u32) as i32 == z) by (bit_vector);
    }
}

/// Flash configuration (set 0x00, id 0x0B): three tag-length-value entries
/// setting high sensitivity, repetitive scan mode and the slot number.
#[derive(Clone, Copy, Debug, PartialEq, Eq)]
pub struct WriteFlashReq {
    pub high_sens: bool,
    pub repetitive: bool,
    pub slot: u8,
}

impl WriteFlashReq {
    /// Build a flash configuration request.
    pub fn new(high_sens: bool, repetitive: bool, slot: u8) -> (r: WriteFlashReq)
        ensures
            r == (WriteFlashReq { high_sens, repetitive, slot }),
    {
        WriteFlashReq { high_sens, repetitive, slot }
    }
}

impl Len for WriteFlashReq {
    open spec fn spec_len() -> int {
        17
    }

    fn len() -> u16 {
        17
    }
}

impl Record for WriteFlashReq {
    open spec fn spec_cmd() -> Cmd {
        Cmd { cmd_set: 0x00, cmd_id: 0x0B }
    }

    open spec fn body(&self) -> Seq<u8> {
        seq![
            0x00u8,
            0x0Bu8,
            0x01u8,
            0x00u8,
            0x01u8,
            0x00u8,
            if self.high_sens {
                1u8
            } else {
                0u8
            },
            0x02u8,
            0x00u8,
            0x01u8,
            0x00u8,
            if self.repetitive {
                1u8
            } else {
                0u8
            },
            0x03u8,
            0x00u8,
            0x01u8,
            0x00u8,
            self.slot,
        ]
    }

    open spec fn spec_decode_body(b: Seq<u8>) -> Option<WriteFlashReq> {
        if b.len() == 17 && b[0] == 0x00 && b[1] == 0x0B && b[2] == 0x01 && b[3] == 0x00 && b[4]
            == 0x01 && b[5] == 0x00 && (b[6] == 0 || b[6] == 1) && b[7] == 0x02 && b[8] == 0x00
            && b[9] == 0x01 && b[10] == 0x00 && (b[11] == 0 || b[11] == 1) && b[12] == 0x03
            && b[13] == 0x00 && b[14] == 0x01 && b[15] == 0x00 {
            Some(
                WriteFlashReq { high_sens: b[6] == 1, repetitive: b[11] == 1, slot: b[16] },
            )
        } else {
            None
        }
    }

    fn cmd(&self) -> Cmd {
        Cmd { cmd_set: 0x00, cmd_id: 0x0B }
    }

    fn encode_body(&self) -> (r: Vec<u8>) {
        let mut buf: Vec<u8> = Vec::new();
        buf.push(0x00);
        buf.push(0x0B);
        buf.push(0x01);
        buf.push(0x00);
        buf.push(0x01);
        buf.push(0x00);
        buf.push(if self.high_sens { 1 } else { 0 });
        buf.push(0x02);
        buf.push(0x00);
        buf.push(0x01);
        buf.push(0x00);
        buf.push(if self.repetitive { 1 } else { 0 });
        buf.push(0x03);
        buf.push(0x00);
        buf.push(0x01);
        buf.push(0x00);
        buf.push(self.slot);
        assert(buf@ =~= self.body());
        buf
    }

    fn decode_body(b: &[u8]) -> (r: Result<WriteFlashReq, ProtocolError>) {
        if b.len() != 17 {
            return Err(ProtocolError::BodyDecode);
        }
        if !(*slice_index_get(b, 0) == 0x00 && *slice_index_get(b, 1) == 0x0B) {
            return Err(ProtocolError::BodyDecode);
        }
        if !(*slice_index_get(b, 2) == 0x01 && *slice_index_get(b, 3) == 0x00 && *slice_index_get(
            b,
            4,
        ) == 0x01 && *slice_index_get(b, 5) == 0x00) {
            return Err(ProtocolError::BodyDecode);
        }
        let hs = *slice_index_get(b, 6);
        if !(hs == 0 || hs == 1) {
            return Err(ProtocolError::BodyDecode);
        }
        if !(*slice_index_get(b, 7) == 0x02 && *slice_index_get(b, 8) == 0x00 && *slice_index_get(
            b,
            9,
        ) == 0x01 && *slice_index_get(b, 10) == 0x00) {
            return Err(ProtocolError::BodyDecode);
        }
        let rep = *slice_index_get(b, 11);
        if !(rep == 0 || rep == 1) {
            return Err(ProtocolError::BodyDecode);
        }
        if !(*slice_index_get(b, 12) == 0x03 && *slice_index_get(b, 13) == 0x00
            && *slice_index_get(b, 14) == 0x01 && *slice_index_get(b, 15) == 0x00) {
            return Err(ProtocolError::BodyDecode);
        }
        Ok(WriteFlashReq { high_sens: hs == 1, repetitive: rep == 1, slot: *slice_index_get(b, 16) })
    }

    proof fn lemma_wf(&self) {
    }
}

} // verus!
