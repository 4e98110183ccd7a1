//! The Tello binary frame: a fixed header byte, a 13-bit frame size, a CRC-8
//! over the first three bytes, a packed direction/type byte, a 16-bit message
//! id, a 16-bit sequence number, the payload, and a trailing CRC-16 over
//! everything before it.  The minimum framed size is 11 bytes.

use vstd::prelude::*;

use crate::bytes::{spec_u16_le, spec_u16_bytes, lemma_u16_le_roundtrip};
use crate::crc::{calculate_crc16, calculate_crc8, spec_crc16, spec_crc8};

verus! {

/// Fixed first byte of every framed message.
pub const MSG_HDR: u8 = 0xcc;

/// Size in bytes of a frame with an empty payload.
pub const MIN_PKT_SZ: usize = 11;

pub const PT_GET: u8 = 1;
pub const PT_DATA1: u8 = 2;
pub const PT_DATA2: u8 = 4;
pub const PT_SET: u8 = 5;
pub const PT_FLIP: u8 = 6;

pub const MSG_QUERY_SSID: u16 = 0x0011;
pub const MSG_WIFI_STRENGTH: u16 = 0x001a;
pub const MSG_SET_VIDEO_BITRATE: u16 = 0x0020;
pub const MSG_QUERY_VIDEO_SPSPPS: u16 = 0x0025;
pub const MSG_QUERY_VIDEO_BITRATE: u16 = 0x0028;
pub const MSG_DO_TAKE_PIC: u16 = 0x0030;
pub const MSG_SWITCH_PIC_VIDEO: u16 = 0x0031;
pub const MSG_LIGHT_STRENGTH: u16 = 0x0035;
pub const MSG_QUERY_VERSION: u16 = 0x0045;
pub const MSG_SET_DATE_TIME: u16 = 0x0046;
pub const MSG_SET_STICK: u16 = 0x0050;
pub const MSG_DO_TAKEOFF: u16 = 0x0054;
pub const MSG_DO_LAND: u16 = 0x0055;
pub const MSG_FLIGHT_STATUS: u16 = 0x0056;
pub const MSG_DO_FLIP: u16 = 0x005c;
pub const MSG_DO_THROW_TAKEOFF: u16 = 0x005d;
pub const MSG_DO_PALM_LAND: u16 = 0x005e;
pub const MSG_FILE_SIZE: u16 = 0x0062;
pub const MSG_FILE_DATA: u16 = 0x0063;
pub const MSG_FILE_DONE: u16 = 0x0064;
pub const MSG_DO_SMART_VIDEO: u16 = 0x0080;
pub const MSG_SMART_VIDEO_STATUS: u16 = 0x0081;
pub const MSG_LOG_HEADER: u16 = 0x1050;
pub const MSG_LOG_DATA: u16 = 0x1051;
pub const MSG_LOG_CONFIG: u16 = 0x1052;
pub const MSG_DO_BOUNCE: u16 = 0x1053;
pub const MSG_SET_LOW_BATT_THRESH: u16 = 0x1055;
pub const MSG_QUERY_HEIGHT_LIMIT: u16 = 0x1056;
pub const MSG_QUERY_LOW_BATT_THRESH: u16 = 0x1057;
pub const MSG_QUERY_ATTITUDE: u16 = 0x1059;

/// One protocol frame in either direction.
pub struct TelloPacket {
    pub header: u8,
    pub size13: u16,
    pub crc8: u8,
    pub from_drone: bool,
    pub to_drone: bool,
    pub packet_type: u8,
    pub packet_subtype: u8,
    pub message_id: u16,
    pub sequence: u16,
    pub payload: Vec<u8>,
    pub crc16: u16,
}

/// The mathematical image of a `TelloPacket`.
pub struct PacketModel {
    pub header: u8,
    pub size13: u16,
    pub crc8: u8,
    pub from_drone: bool,
    pub to_drone: bool,
    pub packet_type: u8,
    pub packet_subtype: u8,
    pub message_id: u16,
    pub sequence: u16,
    pub payload: Seq<u8>,
    pub crc16: u16,
}

impl View for TelloPacket {
    type V = PacketModel;

    open spec fn view(&self) -> PacketModel {
        PacketModel {
            header: self.header,
            size13: self.size13,
            crc8: self.crc8,
            from_drone: self.from_drone,
            to_drone: self.to_drone,
            packet_type: self.packet_type,
            packet_subtype: self.packet_subtype,
            message_id: self.message_id,
            sequence: self.sequence,
            payload: self.payload@,
            crc16: self.crc16,
        }
    }
}

impl PacketModel {
    /// A packet whose bit fields fit their slots and whose frame size fits
    /// the 13-bit size field.
    pub open spec fn wf(self) -> bool {
        &&& self.packet_type < 8
        &&& self.packet_subtype < 8
        &&& self.payload.len() + 11 < 8192
    }

    /// The frame size written into bits 3..=15 of bytes 1 and 2.
    pub open spec fn spec_size(self) -> u16 {
        (self.payload.len() + 11) as u16
    }

    /// The packed direction/type byte.
    pub open spec fn spec_byte4(self) -> u8 {
        ((self.packet_subtype + (self.packet_type << 3)) as u8) | (
        if self.to_drone {
            0x40
        } else {
            0
        }) | (
        if self.from_drone {
            0x80
        } else {
            0
        })
    }
}

/// Bytes 0..3 of the encoded frame: header byte and the shifted size.
pub open spec fn spec_frame_head(m: PacketModel) -> Seq<u8> {
    seq![m.header, ((m.spec_size() << 3) as u8), ((m.spec_size() >> 5) as u8)]
}

/// Bytes 0..len-2 of the encoded frame: everything the trailing CRC-16 covers.
pub open spec fn spec_frame_body(m: PacketModel) -> Seq<u8> {
    spec_frame_head(m) + seq![
        spec_crc8(spec_frame_head(m)),
        m.spec_byte4(),
        m.message_id as u8,
        (m.message_id >> 8) as u8,
        m.sequence as u8,
        (m.sequence >> 8) as u8,
    ] + m.payload
}

/// The full encoded frame.
pub open spec fn spec_frame(m: PacketModel) -> Seq<u8> {
    spec_frame_body(m) + spec_u16_bytes(spec_crc16(spec_frame_body(m)))
}

/// The 13-bit size field read back from an encoded buffer.
pub open spec fn spec_size_of(b: Seq<u8>) -> int {
    (spec_u16_le(b[1], b[2]) >> 3) as int
}

/// Whether a buffer is long enough to be cut into a frame.
pub open spec fn spec_decode_ok(b: Seq<u8>) -> bool {
    &&& b.len() >= 11
    &&& 11 <= spec_size_of(b) <= b.len()
}

/// The packet read from an encoded buffer; meaningful when
/// `spec_decode_ok(b)` holds.
pub open spec fn spec_decode(b: Seq<u8>) -> PacketModel {
    let sz = spec_size_of(b);
    PacketModel {
        header: b[0],
        size13: sz as u16,
        crc8: b[3],
        from_drone: (b[4] & 0x80) != 0,
        to_drone: (b[4] & 0x40) != 0,
        packet_type: (b[4] >> 3) & 0x07,
        packet_subtype: b[4] & 0x07,
        message_id: spec_u16_le(b[5], b[6]),
        sequence: spec_u16_le(b[7], b[8]),
        payload: b.subrange(9, sz - 2),
        crc16: spec_u16_le(b[sz - 2], b[sz - 1]),
    }
}

/// A buffer that is exactly one well-formed frame: its size field covers the
/// whole buffer, the low bits of the size byte are clear, and both checksums
/// match their stated coverage.
pub open spec fn spec_valid_frame(b: Seq<u8>) -> bool {
    &&& 11 <= b.len() < 8192
    &&& spec_size_of(b) == b.len()
    &&& b[1] & 7 == 0
    &&& b[3] == spec_crc8(b.take(3))
    &&& spec_u16_le(b[b.len() - 2], b[b.len() - 1]) == spec_crc16(b.take(b.len() - 2))
}

/// The model a command constructor produces: an outbound packet with subtype
/// zero and both stored checksums still clear.
pub open spec fn spec_command_model(
    packet_type: u8,
    message_id: u16,
    sequence: u16,
    payload: Seq<u8>,
) -> PacketModel {
    PacketModel {
        header: MSG_HDR,
        size13: 0,
        crc8: 0,
        from_drone: false,
        to_drone: true,
        packet_type: packet_type,
        packet_subtype: 0,
        message_id: message_id,
        sequence: sequence,
        payload: payload,
        crc16: 0,
    }
}

/// The packet that acknowledges one piece of an inbound photo.
pub open spec fn spec_ack_file_piece_model(
    sequence: u16,
    done: bool,
    f_id: u16,
    piece_no: u32,
) -> PacketModel {
    spec_command_model(
        PT_DATA1,
        MSG_FILE_DATA,
        sequence,
        seq![
            (if done { 1u8 } else { 0u8 }),
            f_id as u8,
            (f_id >> 8) as u8,
            piece_no as u8,
            (piece_no >> 8) as u8,
            (piece_no >> 16) as u8,
            (piece_no >> 24) as u8,
        ],
    )
}

/// The packet that closes a completed photo transfer.
pub open spec fn spec_file_done_model(sequence: u16, f_id: u16, size: u32) -> PacketModel {
    spec_command_model(
        PT_DATA1,
        MSG_FILE_DONE,
        sequence,
        seq![
            f_id as u8,
            (f_id >> 8) as u8,
            size as u8,
            (size >> 8) as u8,
            (size >> 16) as u8,
            (size >> 24) as u8,
        ],
    )
}

impl TelloPacket {
    pub fn new(packet_type: u8, cmd: u16, sequence: u16, param: Option<u8>) -> (r: Self)
        requires
            packet_type < 8,
        ensures
            r@ == spec_command_model(
                packet_type,
                cmd,
                sequence,
                match param {
                    Some(p) => seq![p],
                    None => Seq::<u8>::empty(),
                },
            ),
    {
        let payload: Vec<u8> = match param {
            Some(p) => {
                let mut v: Vec<u8> = Vec::new();
                v.push(p);
                proof {
                    assert(v@ =~= seq![p]);
                }
                v
            },
            None => Vec::new(),
        };
        Self::new_with_payload(packet_type, cmd, sequence, payload)
    }

    pub fn new_with_payload(packet_type: u8, cmd: u16, sequence: u16, payload: Vec<u8>) -> (r:
        Self)
        requires
            packet_type < 8,
        ensures
            r@ == spec_command_model(packet_type, cmd, sequence, payload@),
    {
        TelloPacket {
            header: MSG_HDR,
            size13: 0,
            crc8: 0,
            from_drone: false,
            to_drone: true,
            packet_type,
            packet_subtype: 0,
            message_id: cmd,
            sequence,
            payload,
            crc16: 0,
        }
    }

    /// The reply that acknowledges a flight-log header, echoing its id.
    pub fn ack_log(sequence: u16, id: &[u8; 2]) -> (r: Self)
        ensures
            r@ == spec_command_model(PT_DATA1, MSG_LOG_HEADER, sequence, seq![0u8, id@[0], id@[1]]),
    {
        let mut payload: Vec<u8> = Vec::new();
        payload.push(0);
        payload.push(id[0]);
        payload.push(id[1]);
        proof {
            assert(payload@ =~= seq![0u8, id@[0], id@[1]]);
        }
        Self::new_with_payload(PT_DATA1, MSG_LOG_HEADER, sequence, payload)
    }

    /// The reply that acknowledges one piece of an inbound photo.
    pub fn ack_file_piece(sequence: u16, done: bool, f_id: u16, piece_no: u32) -> (r: Self)
        ensures
            r@ == spec_ack_file_piece_model(sequence, done, f_id, piece_no),
    {
        let mut payload: Vec<u8> = Vec::new();
        payload.push(if done { 1 } else { 0 });
        payload.push(f_id as u8);
        payload.push((f_id >> 8) as u8);
        payload.push(piece_no as u8);
        payload.push((piece_no >> 8) as u8);
        payload.push((piece_no >> 16) as u8);
        payload.push((piece_no >> 24) as u8);
        proof {
            assert(payload@ =~= seq![
                (if done { 1u8 } else { 0u8 }),
                f_id as u8,
                (f_id >> 8) as u8,
                piece_no as u8,
                (piece_no >> 8) as u8,
                (piece_no >> 16) as u8,
                (piece_no >> 24) as u8,
            ]);
        }
        Self::new_with_payload(PT_DATA1, MSG_FILE_DATA, sequence, payload)
    }

    /// The message that closes a completed photo transfer.
    pub fn file_done(sequence: u16, f_id: u16, size: u32) -> (r: Self)
        ensures
            r@ == spec_file_done_model(sequence, f_id, size),
    {
        let mut payload: Vec<u8> = Vec::new();
        payload.push(f_id as u8);
        payload.push((f_id >> 8) as u8);
        payload.push(size as u8);
        payload.push((size >> 8) as u8);
        payload.push((size >> 16) as u8);
        payload.push((size >> 24) as u8);
        proof {
            assert(payload@ =~= seq![
                f_id as u8,
                (f_id >> 8) as u8,
                size as u8,
                (size >> 8) as u8,
                (size >> 16) as u8,
                (size >> 24) as u8,
            ]);
        }
        Self::new_with_payload(PT_DATA1, MSG_FILE_DONE, sequence, payload)
    }

    /// Lays the packet out as one framed buffer, computing both checksums.
    pub fn to_buffer(&self) -> (r: Vec<u8>)
        requires
            self@.wf(),
        ensures
            r@ == spec_frame(self@),
    {
        let payload_size = self.payload.len();
        let size: u16 = (payload_size + 11) as u16;
        let mut buff: Vec<u8> = Vec::new();
        buff.push(self.header);
        buff.push((size << 3) as u8);
        buff.push((size >> 5) as u8);
        proof {
            assert(buff@ =~= spec_frame_head(self@));
        }
        let c8 = calculate_crc8(buff.as_slice());
        buff.push(c8);
        proof {
            let t = self.packet_type;
            let s = self.packet_subtype;
            assert(t < 8 && s < 8 ==> (t << 3) < 64 && s + (t << 3) < 64) by (bit_vector);
        }
        let b4: u8 = (self.packet_subtype + (self.packet_type << 3)) | (
        if self.to_drone {
            0x40
        } else {
            0
        }) | (
        if self.from_drone {
            0x80
        } else {
            0
        });
        buff.push(b4);
        buff.push(self.message_id as u8);
        buff.push((self.message_id >> 8) as u8);
        buff.push(self.sequence as u8);
        buff.push((self.sequence >> 8) as u8);
        proof {
            assert(buff@ =~= spec_frame_body(self@).take(9));
        }
        let mut p: usize = 0;
        while p < payload_size
            invariant
                p <= payload_size,
                payload_size == self.payload@.len(),
                buff@ =~= spec_frame_body(self@).take(9 + p),
                spec_frame_body(self@).len() == 9 + payload_size,
        decreases payload_size - p,
        {
            buff.push(self.payload[p]);
            proof {
                assert(buff@ =~= spec_frame_body(self@).take(9 + p + 1));
            }
            p = p + 1;
        }
        proof {
            assert(buff@ =~= spec_frame_body(self@));
        }
        let c16 = calculate_crc16(buff.as_slice());
        buff.push(c16 as u8);
        buff.push((c16 >> 8) as u8);
        proof {
            assert(buff@ =~= spec_frame(self@));
        }
        buff
    }

    /// Cuts one frame out of a received buffer.  The buffer must hold at
    /// least the 11 fixed bytes and as many bytes as its size field claims;
    /// anything shorter is a decode failure.  Checksums are not judged here:
    /// the stored `crc8` and `crc16` carry what the wire said, so a caller
    /// can compare them against the recomputed values.
    pub fn from_buffer(buff: &[u8]) -> (r: Option<Self>)
        ensures
            r is Some <==> spec_decode_ok(buff@),
            r is Some ==> r.unwrap()@ == spec_decode(buff@),
    {
        if buff.len() < 11 {
            return None;
        }
        let pkt_sz_16: u16 = ((buff[1] as u16) | ((buff[2] as u16) << 8)) >> 3;
        let pkt_sz: usize = pkt_sz_16 as usize;
        if pkt_sz < 11 || pkt_sz > buff.len() {
            return None;
        }
        let payload_sz = pkt_sz - 11;
        let crc16 = (buff[pkt_sz - 2] as u16) | ((buff[pkt_sz - 1] as u16) << 8);
        let mut payload: Vec<u8> = Vec::new();
        let mut i: usize = 0;
        while i < payload_sz
            invariant
                i <= payload_sz,
                payload_sz + 11 <= buff@.len(),
                buff@.len() <= usize::MAX,
                payload@ =~= buff@.subrange(9, 9 + i),
            decreases payload_sz - i,
        {
            payload.push(buff[9 + i]);
            proof {
                assert(payload@ =~= buff@.subrange(9, 9 + i + 1));
            }
            i = i + 1;
        }
        proof {
            assert(payload@ =~= buff@.subrange(9, pkt_sz - 2));
        }
        Some(
            TelloPacket {
                header: buff[0],
                size13: pkt_sz_16,
                crc8: buff[3],
                from_drone: (buff[4] & 0x80) != 0,
                to_drone: (buff[4] & 0x40) != 0,
                packet_type: (buff[4] >> 3) & 0x07,
                packet_subtype: buff[4] & 0x07,
                message_id: (buff[5] as u16) | ((buff[6] as u16) << 8),
                sequence: (buff[7] as u16) | ((buff[8] as u16) << 8),
                payload,
                crc16,
            },
        )
    }
}

/// Every well-formed received frame survives a decode/encode round trip:
/// re-encoding the decoded packet reproduces the buffer byte for byte,
/// checksums included.
pub proof fn lemma_decode_encode_roundtrip(b: Seq<u8>)
    requires
        spec_valid_frame(b),
    ensures
        spec_frame(spec_decode(b)) == b,
{
    let m = spec_decode(b);
    let len = b.len() as int;
    let v = spec_u16_le(b[1], b[2]);
    let sz = v >> 3;
    assert(m.payload.len() == len - 11);
    assert(m.spec_size() == sz) by {
        assert(v >> 3 < 8192) by (bit_vector);
    }
    // the size bytes come back unchanged
    let b1 = b[1];
    let b2 = b[2];
    assert(b1 & 7 == 0 ==> ((((b1 as u16) | ((b2 as u16) << 8)) >> 3) << 3) as u8 == b1 && ((((b1
        as u16) | ((b2 as u16) << 8)) >> 3) >> 5) as u8 == b2) by (bit_vector);
    assert(spec_frame_head(m) =~= b.take(3));
    // the direction/type byte comes back unchanged
    let x = b[4];
    assert(((x & 0x07) + (((x >> 3) & 0x07) << 3)) as u8 | (if x & 0x40 != 0 {
        0x40u8
    } else {
        0u8
    }) | (if x & 0x80 != 0 {
        0x80u8
    } else {
        0u8
    }) == x) by (bit_vector);
    assert(m.spec_byte4() == b[4]);
    // message id and sequence come back unchanged
    let lo5 = b[5];
    let hi6 = b[6];
    let lo7 = b[7];
    let hi8 = b[8];
    assert(spec_u16_le(lo5, hi6) as u8 == lo5 && (spec_u16_le(lo5, hi6) >> 8) as u8 == hi6) by {
        assert(((lo5 as u16) | ((hi6 as u16) << 8)) as u8 == lo5 && (((lo5 as u16) | ((hi6
            as u16) << 8)) >> 8) as u8 == hi6) by (bit_vector);
    }
    assert(spec_u16_le(lo7, hi8) as u8 == lo7 && (spec_u16_le(lo7, hi8) >> 8) as u8 == hi8) by {
        assert(((lo7 as u16) | ((hi8 as u16) << 8)) as u8 == lo7 && (((lo7 as u16) | ((hi8
            as u16) << 8)) >> 8) as u8 == hi8) by (bit_vector);
    }
    assert(spec_crc8(spec_frame_head(m)) == b[3]);
    assert(spec_frame_body(m) =~= b.take(len - 2));
    // the trailing checksum comes back unchanged
    let clo = b[len - 2];
    let chi = b[len - 1];
    assert(((clo as u16) | ((chi as u16) << 8)) as u8 == clo && (((clo as u16) | ((chi
        as u16) << 8)) >> 8) as u8 == chi) by (bit_vector);
    assert(spec_u16_bytes(m.crc16) =~= seq![clo, chi]);
    assert(spec_frame(m) =~= b);
}

/// Every frame the encoder builds carries checksums that verify against
/// their stated coverage: byte 3 is the CRC-8 of bytes 0..3, and the last
/// two bytes hold, little-endian, the CRC-16 of everything before them.
pub proof fn lemma_frame_crcs(m: PacketModel)
    requires
        m.wf(),
    ensures
        spec_frame(m).len() >= 11,
        spec_frame(m)[3] == spec_crc8(spec_frame(m).take(3)),
        spec_u16_le(spec_frame(m)[spec_frame(m).len() - 2], spec_frame(m)[spec_frame(m).len() - 1])
            == spec_crc16(spec_frame(m).take(spec_frame(m).len() - 2)),
{
    let f = spec_frame(m);
    assert(f.take(3) =~= spec_frame_head(m));
    assert(f.take(f.len() - 2) =~= spec_frame_body(m));
    assert(f[3] == spec_crc8(spec_frame_head(m)));
    lemma_u16_le_roundtrip(spec_crc16(spec_frame_body(m)));
}

/// Every frame the encoder builds is a well-formed frame, and decoding it
/// recovers every field of the packet; the stored checksums come back as
/// the computed ones.
pub proof fn lemma_encode_decode_roundtrip(m: PacketModel)
    requires
        m.wf(),
    ensures
        spec_valid_frame(spec_frame(m)),
        spec_decode(spec_frame(m)) == (PacketModel {
            size13: m.spec_size(),
            crc8: spec_crc8(spec_frame_head(m)),
            crc16: spec_crc16(spec_frame_body(m)),
            ..m
        }),
{
    let b = spec_frame(m);
    let len = b.len() as int;
    let s = m.spec_size();
    assert(len == s);
    // the size field reads back as the frame length, with clear low bits
    assert(s < 8192 ==> ((((s << 3) as u8) as u16) | ((((s >> 5) as u8) as u16) << 8)) >> 3 == s
        && ((s << 3) as u8) & 7 == 0) by (bit_vector);
    assert(spec_size_of(b) == len);
    lemma_frame_crcs(m);
    assert(b.take(3) =~= spec_frame_head(m));
    assert(b.take(len - 2) =~= spec_frame_body(m));
    // the direction/type byte reads back field by field
    let t = m.packet_type;
    let sub = m.packet_subtype;
    let x = b[4];
    if m.to_drone {
        if m.from_drone {
            assert(t < 8 && sub < 8 ==> {
                let y = ((sub + (t << 3)) as u8) | 0x40u8 | 0x80u8;
                ((y >> 3) & 0x07) == t && (y & 0x07) == sub && y & 0x40 != 0 && y & 0x80 != 0
            }) by (bit_vector);
        } else {
            assert(t < 8 && sub < 8 ==> {
                let y = ((sub + (t << 3)) as u8) | 0x40u8 | 0u8;
                ((y >> 3) & 0x07) == t && (y & 0x07) == sub && y & 0x40 != 0 && y & 0x80 == 0
            }) by (bit_vector);
        }
    } else {
        if m.from_drone {
            assert(t < 8 && sub < 8 ==> {
                let y = ((sub + (t << 3)) as u8) | 0u8 | 0x80u8;
                ((y >> 3) & 0x07) == t && (y & 0x07) == sub && y & 0x40 == 0 && y & 0x80 != 0
            }) by (bit_vector);
        } else {
            assert(t < 8 && sub < 8 ==> {
                let y = ((sub + (t << 3)) as u8) | 0u8 | 0u8;
                ((y >> 3) & 0x07) == t && (y & 0x07) == sub && y & 0x40 == 0 && y & 0x80 == 0
            }) by (bit_vector);
        }
    }
    assert((x >> 3) & 0x07 == m.packet_type);
    assert(x & 0x07 == m.packet_subtype);
    assert((x & 0x40 != 0) == m.to_drone);
    assert((x & 0x80 != 0) == m.from_drone);
    // message id, sequence and trailing checksum read back
    lemma_u16_le_roundtrip(m.message_id);
    lemma_u16_le_roundtrip(m.sequence);
    lemma_u16_le_roundtrip(spec_crc16(spec_frame_body(m)));
    assert(spec_decode(b).payload =~= m.payload);
}

} // verus!
