//! The framed envelope of the control protocol.
//!
//! A frame is `sof, version, total length (u16 le), cmd_type, seq_num
//! (u16 le), CRC-16 of those seven bytes (le), body bytes, CRC-32 of
//! everything before it (le)`.  The total length field counts the complete
//! wire representation, both checksums included.

use vstd::prelude::*;
use vstd::bytes::{
    spec_u16_from_le_bytes, spec_u16_to_le_bytes, spec_u32_from_le_bytes, spec_u32_to_le_bytes,
};
use vstd::slice::{slice_index_get, slice_subrange, slice_to_vec};
use crate::checksum::{crc16_mcrf4xx, crc16_of, crc32_frame, crc32_of};
use crate::frames::Record;
use crate::wire::{
    lemma_u16_le_round_trip, lemma_u32_le_round_trip, push_u16_le, push_u32_le, u16_le_at,
    u32_le_at,
};

verus! {

/// First byte of every frame.
pub const SOF: u8 = 0xAA;

/// Protocol version byte.
pub const PROTOCOL_VERSION: u8 = 0x01;

/// Bytes of a frame that are not body: the 9-byte header (sof, version,
/// length, cmd_type, seq_num, CRC-16) and the trailing 4-byte CRC-32.
pub const FRAME_OVERHEAD: u16 = 13;

/// Kind of a control frame.
#[derive(Clone, Copy, Debug, PartialEq, Eq, Structural)]
pub enum CmdType {
    Cmd,
    Ack,
    Msg,
}

impl CmdType {
    /// Wire code of this command type.
    pub open spec fn spec_code(self) -> u8 {
        match self {
            CmdType::Cmd => 0,
            CmdType::Ack => 1,
            CmdType::Msg => 2,
        }
    }

    /// Command type of a wire code, if the code is one of 0, 1, 2.
    pub open spec fn spec_from_code(code: u8) -> Option<CmdType> {
        if code == 0 {
            Some(CmdType::Cmd)
        } else if code == 1 {
            Some(CmdType::Ack)
        } else if code == 2 {
            Some(CmdType::Msg)
        } else {
            None
        }
    }

    /// Wire code of this command type.
    pub fn code(&self) -> (r: u8)
        ensures
            r == self.spec_code(),
    {
        match self {
            CmdType::Cmd => 0,
            CmdType::Ack => 1,
            CmdType::Msg => 2,
        }
    }

    /// Parse a wire code.
    pub fn from_code(code: u8) -> (r: Option<CmdType>)
        ensures
            r == Self::spec_from_code(code),
    {
        if code == 0 {
            Some(CmdType::Cmd)
        } else if code == 1 {
            Some(CmdType::Ack)
        } else if code == 2 {
            Some(CmdType::Msg)
        } else {
            None
        }
    }
}

/// A framing violation found while decoding an envelope or its body.
#[derive(Clone, Copy, Debug, PartialEq, Eq, Structural)]
pub enum ProtocolError {
    /// The length field does not equal the physical byte length.
    LengthMismatch,
    /// The received header CRC-16 does not match the computed one.
    HeaderCrcFail,
    /// The received frame CRC-32 does not match the computed one.
    FrameCrcFail,
    /// The cmd_type byte is none of 0, 1, 2.
    BadCmdType,
    /// The body bytes do not decode into the requested record.
    BodyDecode,
}

/// The seven header bytes that the CRC-16 covers.
pub open spec fn spec_header(cmd_type: u8, seq: u16, total_len: u16) -> Seq<u8> {
    seq![SOF, PROTOCOL_VERSION] + spec_u16_to_le_bytes(total_len) + seq![cmd_type]
        + spec_u16_to_le_bytes(seq)
}

/// The complete frame around a body.
pub open spec fn spec_frame(cmd_type: u8, seq: u16, body: Seq<u8>) -> Seq<u8> {
    let total = (body.len() + FRAME_OVERHEAD) as u16;
    let header = spec_header(cmd_type, seq, total);
    let with_crc16 = header + spec_u16_to_le_bytes(crc16_of(header));
    let with_body = with_crc16 + body;
    with_body + spec_u32_to_le_bytes(crc32_of(with_body))
}

/// What decoding a byte buffer yields: the cmd_type code, the sequence
/// number and the body, or the first framing violation in the order the
/// decoder checks them.
pub open spec fn spec_decode_frame(buf: Seq<u8>) -> Result<(u8, u16, Seq<u8>), ProtocolError> {
    if buf.len() < FRAME_OVERHEAD {
        Err(ProtocolError::LengthMismatch)
    } else if spec_u16_from_le_bytes(buf.subrange(2, 4)) as int != buf.len() as int {
        Err(ProtocolError::LengthMismatch)
    } else if spec_u16_from_le_bytes(buf.subrange(7, 9)) != crc16_of(buf.subrange(0, 7)) {
        Err(ProtocolError::HeaderCrcFail)
    } else if spec_u32_from_le_bytes(buf.subrange(buf.len() - 4, buf.len() as int)) != crc32_of(
        buf.subrange(0, buf.len() - 4),
    ) {
        Err(ProtocolError::FrameCrcFail)
    } else if buf[4] > 2 {
        Err(ProtocolError::BadCmdType)
    } else {
        Ok((buf[4], spec_u16_from_le_bytes(buf.subrange(5, 7)), buf.subrange(9, buf.len() - 4)))
    }
}

/// Build the frame around an already encoded body.
///
/// The cmd_type byte is taken as given, so that a frame with any such byte,
/// valid or not, can be produced with correct checksums.
pub fn encode_frame(cmd_type: u8, seq: u16, body: &[u8]) -> (r: Vec<u8>)
    requires
        body@.len() + FRAME_OVERHEAD <= u16::MAX,
    ensures
        r@ == spec_frame(cmd_type, seq, body@),
        r@.len() == body@.len() + FRAME_OVERHEAD,
        spec_u16_from_le_bytes(r@.subrange(2, 4)) as int == r@.len() as int,
{
    let body_len: usize = body.len();
    let total: u16 = (body_len as u16) + FRAME_OVERHEAD;
    let ghost total_spec: u16 = (body@.len() + FRAME_OVERHEAD) as u16;

    let mut buf: Vec<u8> = Vec::new();
    buf.push(SOF);
    buf.push(PROTOCOL_VERSION);
    push_u16_le(&mut buf, total);
    buf.push(cmd_type);
    push_u16_le(&mut buf, seq);
    assert(buf@ =~= spec_header(cmd_type, seq, total_spec));

    let crc16 = crc16_mcrf4xx(buf.as_slice());
    push_u16_le(&mut buf, crc16);
    let ghost with_crc16 = spec_header(cmd_type, seq, total_spec) + spec_u16_to_le_bytes(
        crc16_of(spec_header(cmd_type, seq, total_spec)),
    );
    assert(buf@ =~= with_crc16);

    let mut i: usize = 0;
    while i < body_len
        invariant
            i <= body_len,
            body_len == body@.len(),
            buf@ == with_crc16 + body@.subrange(0, i as int),
        decreases body_len - i,
    {
        buf.push(*slice_index_get(body, i));
        assert(buf@ =~= with_crc16 + body@.subrange(0, i + 1));
        i = i + 1;
    }
    assert(body@.subrange(0, body@.len() as int) =~= body@);
    let ghost with_body = with_crc16 + body@;
    assert(buf@ =~= with_body);

    let crc32 = crc32_frame(buf.as_slice());
    push_u32_le(&mut buf, crc32);
    assert(buf@ =~= spec_frame(cmd_type, seq, body@));
    proof {
        lemma_frame_shape(cmd_type, seq, body@);
    }
    buf
}

/// Split a byte buffer into cmd_type, sequence number and body, checking
/// the length field and both checksums.
pub fn decode_frame(buf: &[u8]) -> (r: Result<(CmdType, u16, Vec<u8>), ProtocolError>)
    ensures
        match r {
            Ok((t, seq, body)) => spec_decode_frame(buf@) == Ok::<(u8, u16, Seq<u8>),
                ProtocolError,
            >((t.spec_code(), seq, body@)),
            Err(e) => spec_decode_frame(buf@) == Err::<(u8, u16, Seq<u8>), ProtocolError>(e),
        },
{
    let n: usize = buf.len();
    if n < 13 {
        return Err(ProtocolError::LengthMismatch);
    }
    let len_field = u16_le_at(buf, 2);
    if len_field as usize != n {
        return Err(ProtocolError::LengthMismatch);
    }
    let header = slice_subrange(buf, 0, 7);
    let crc16_received = u16_le_at(buf, 7);
    if crc16_received != crc16_mcrf4xx(header) {
        return Err(ProtocolError::HeaderCrcFail);
    }
    let crc32_received = u32_le_at(buf, n - 4);
    if crc32_received != crc32_frame(slice_subrange(buf, 0, n - 4)) {
        return Err(ProtocolError::FrameCrcFail);
    }
    let code = *slice_index_get(buf, 4);
    let cmd_type = match CmdType::from_code(code) {
        Some(t) => t,
        None => {
            return Err(ProtocolError::BadCmdType);
        },
    };
    let seq = u16_le_at(buf, 5);
    let body = slice_to_vec(slice_subrange(buf, 9, n - 4));
    Ok((cmd_type, seq, body))
}

/// Shape of an encoded frame: its length is the body's plus the overhead,
/// and the length field stores exactly that length.
pub proof fn lemma_frame_shape(cmd_type: u8, seq: u16, body: Seq<u8>)
    requires
        body.len() + FRAME_OVERHEAD <= u16::MAX,
    ensures
        spec_frame(cmd_type, seq, body).len() == body.len() + FRAME_OVERHEAD,
        spec_u16_from_le_bytes(spec_frame(cmd_type, seq, body).subrange(2, 4)) as int == spec_frame(
            cmd_type,
            seq,
            body,
        ).len() as int,
{
    let total = (body.len() + FRAME_OVERHEAD) as u16;
    let header = spec_header(cmd_type, seq, total);
    let with_crc16 = header + spec_u16_to_le_bytes(crc16_of(header));
    let with_body = with_crc16 + body;
    let frame = spec_frame(cmd_type, seq, body);
    lemma_u16_le_round_trip(total);
    lemma_u16_le_round_trip(seq);
    lemma_u32_le_round_trip(crc32_of(with_body));
    lemma_u16_le_round_trip(crc16_of(header));
    assert(header.len() == 7);
    assert(frame.len() == body.len() + FRAME_OVERHEAD);
    assert(frame.subrange(2, 4) =~= spec_u16_to_le_bytes(total));
}

/// Decoding inverts encoding: for a valid cmd_type code and a body that
/// fits the length field, the encoded frame decodes to exactly the inputs.
pub proof fn lemma_frame_round_trip(cmd_type: u8, seq: u16, body: Seq<u8>)
    requires
        cmd_type <= 2,
        body.len() + FRAME_OVERHEAD <= u16::MAX,
    ensures
        spec_decode_frame(spec_frame(cmd_type, seq, body)) == Ok::<(u8, u16, Seq<u8>),
            ProtocolError,
        >((cmd_type, seq, body)),
{
    let total = (body.len() + FRAME_OVERHEAD) as u16;
    let header = spec_header(cmd_type, seq, total);
    let with_crc16 = header + spec_u16_to_le_bytes(crc16_of(header));
    let with_body = with_crc16 + body;
    let frame = spec_frame(cmd_type, seq, body);
    lemma_u16_le_round_trip(total);
    lemma_u16_le_round_trip(seq);
    lemma_u16_le_round_trip(crc16_of(header));
    lemma_u32_le_round_trip(crc32_of(with_body));
    assert(header.len() == 7);
    assert(frame.len() == body.len() + FRAME_OVERHEAD);
    assert(frame.subrange(2, 4) =~= spec_u16_to_le_bytes(total));
    assert(frame.subrange(0, 7) =~= header);
    assert(frame.subrange(7, 9) =~= spec_u16_to_le_bytes(crc16_of(header)));
    assert(frame.subrange(0, frame.len() - 4) =~= with_body);
    assert(frame.subrange(frame.len() - 4, frame.len() as int) =~= spec_u32_to_le_bytes(
        crc32_of(with_body),
    ));
    assert(frame[4] == cmd_type);
    assert(frame.subrange(5, 7) =~= spec_u16_to_le_bytes(seq));
    assert(frame.subrange(9, frame.len() - 4) =~= body);
}


/// Total mapping from a valid wire code to a command type; callers only
/// apply it to codes 0, 1, 2.
pub open spec fn spec_code_to_cmd_type(code: u8) -> CmdType {
    if code == 1 {
        CmdType::Ack
    } else if code == 2 {
        CmdType::Msg
    } else {
        CmdType::Cmd
    }
}

/// What parsing a byte buffer into a typed frame yields: the command type,
/// the sequence number and the record, or the first violation found.
pub open spec fn spec_parse<T: Record>(buf: Seq<u8>) -> Result<(CmdType, u16, T), ProtocolError> {
    match spec_decode_frame(buf) {
        Err(e) => Err(e),
        Ok((code, seq, body)) => match T::spec_decode_body(body) {
            Some(x) => Ok((spec_code_to_cmd_type(code), seq, x)),
            None => Err(ProtocolError::BodyDecode),
        },
    }
}

/// A typed control frame: the envelope fields around one command record.
#[derive(Debug, PartialEq, Eq)]
pub struct ControlFrame<T> {
    pub sof: u8,
    pub version: u8,
    pub cmd_type: CmdType,
    pub seq_num: u16,
    pub data: T,
}

impl<T> ControlFrame<T> {
    /// Build a frame around a record with the fixed sof and version bytes.
    pub fn new(cmd_type: CmdType, seq_num: u16, data: T) -> (r: ControlFrame<T>)
        ensures
            r == (ControlFrame { sof: SOF, version: PROTOCOL_VERSION, cmd_type, seq_num, data }),
    {
        ControlFrame { sof: SOF, version: PROTOCOL_VERSION, cmd_type, seq_num, data }
    }
}

impl<T: Record> ControlFrame<T> {
    /// Encode the frame: header, header CRC-16, record body, frame CRC-32.
    ///
    /// Encoding a well-formed record never fails; the length field equals
    /// the length of the returned buffer.
    pub fn serialize(&self) -> (r: Result<Vec<u8>, ProtocolError>)
        ensures
            match r {
                Ok(v) => {
                    &&& v@ == spec_frame(self.cmd_type.spec_code(), self.seq_num, self.data.body())
                    &&& v@.len() == self.data.body().len() + FRAME_OVERHEAD
                    &&& spec_u16_from_le_bytes(v@.subrange(2, 4)) as int == v@.len() as int
                },
                Err(_) => false,
            },
    {
        proof {
            self.data.lemma_wf();
        }
        let body = self.data.encode_body();
        let out = encode_frame(self.cmd_type.code(), self.seq_num, body.as_slice());
        Ok(out)
    }

    /// Decode a buffer into this frame, replacing every field on success
    /// and leaving the frame unchanged on any violation.
    pub fn deserialize(&mut self, buffer: &[u8]) -> (r: Result<(), ProtocolError>)
        ensures
            match spec_parse::<T>(buffer@) {
                Ok((t, seq, x)) => {
                    &&& r is Ok
                    &&& final(self).sof == buffer@[0]
                    &&& final(self).version == buffer@[1]
                    &&& final(self).cmd_type == t
                    &&& final(self).seq_num == seq
                    &&& final(self).data == x
                },
                Err(e) => r == Err::<(), ProtocolError>(e) && *final(self) == *old(self),
            },
    {
        match decode_frame(buffer) {
            Err(e) => Err(e),
            Ok((cmd_type, seq_num, body)) => {
                match T::decode_body(body.as_slice()) {
                    Err(e) => Err(e),
                    Ok(data) => {
                        proof {
                            assert(spec_code_to_cmd_type(cmd_type.spec_code()) == cmd_type);
                        }
                        self.sof = *slice_index_get(buffer, 0);
                        self.version = *slice_index_get(buffer, 1);
                        self.cmd_type = cmd_type;
                        self.seq_num = seq_num;
                        self.data = data;
                        Ok(())
                    },
                }
            },
        }
    }
}

/// Round trip of the typed frame codec: parsing an encoded frame yields
/// exactly the command type, sequence number and record that were encoded.
pub proof fn lemma_control_frame_round_trip<T: Record>(cmd_type: CmdType, seq: u16, data: T)
    ensures
        spec_parse::<T>(spec_frame(cmd_type.spec_code(), seq, data.body())) == Ok::<
            (CmdType, u16, T),
            ProtocolError,
        >((cmd_type, seq, data)),
{
    data.lemma_wf();
    lemma_frame_round_trip(cmd_type.spec_code(), seq, data.body());
    assert(spec_code_to_cmd_type(cmd_type.spec_code()) == cmd_type);
}

} // verus!
