//! Builders for every outbound command frame.  Each is a pure function from
//! a sequence number and parameters to the fully framed bytes.

use vstd::prelude::*;

use crate::packet::{
    spec_command_model, spec_frame, TelloPacket, MSG_DO_BOUNCE, MSG_DO_FLIP, MSG_DO_LAND,
    MSG_DO_PALM_LAND, MSG_DO_SMART_VIDEO, MSG_DO_TAKEOFF, MSG_DO_TAKE_PIC, MSG_DO_THROW_TAKEOFF,
    MSG_FILE_SIZE, MSG_QUERY_ATTITUDE, MSG_QUERY_HEIGHT_LIMIT, MSG_QUERY_LOW_BATT_THRESH,
    MSG_QUERY_SSID, MSG_QUERY_VERSION, MSG_QUERY_VIDEO_BITRATE, MSG_QUERY_VIDEO_SPSPPS,
    MSG_SET_DATE_TIME, MSG_SET_LOW_BATT_THRESH, MSG_SET_STICK, MSG_SET_VIDEO_BITRATE,
    MSG_SWITCH_PIC_VIDEO, PT_DATA1, PT_DATA2, PT_FLIP, PT_GET, PT_SET,
};

verus! {

pub const BOUNCE_ON: u8 = 0x30;

pub const BOUNCE_OFF: u8 = 0x31;

pub const FLIP_FORWARD: u8 = 0;

pub const FLIP_LEFT: u8 = 1;

pub const FLIP_BACKWARD: u8 = 2;

pub const FLIP_RIGHT: u8 = 3;

/// The guided-flight manoeuvres of the smart-video command.
#[derive(Clone, Copy)]
pub enum SmartVideoCmd {
    /// Slowly rotate around 360 degrees.
    Sv360,
    /// Circle around a point in front of the drone.
    SvCircle,
    /// Perform the 'Up and Out' manoeuvre.
    SvUpOut,
}

impl SmartVideoCmd {
    /// The code carried in the smart-video payload byte.
    pub open spec fn spec_code(self) -> u8 {
        match self {
            SmartVideoCmd::Sv360 => 1u8 << 2,
            SmartVideoCmd::SvCircle => 2u8 << 2,
            SmartVideoCmd::SvUpOut => 3u8 << 2,
        }
    }

    pub fn code(self) -> (r: u8)
        ensures
            r == self.spec_code(),
    {
        match self {
            SmartVideoCmd::Sv360 => 1u8 << 2,
            SmartVideoCmd::SvCircle => 2u8 << 2,
            SmartVideoCmd::SvUpOut => 3u8 << 2,
        }
    }
}

/// The video bit-rate levels; auto lets the drone choose.
#[derive(Clone, Copy)]
pub enum VBR {
    VbrAuto,
    Vbr1M,
    Vbr1M5,
    Vbr2M,
    Vbr3M,
    Vbr4M,
}

impl VBR {
    /// The level carried in the set-bit-rate payload byte.
    pub open spec fn spec_code(self) -> u8 {
        match self {
            VBR::VbrAuto => 0,
            VBR::Vbr1M => 1,
            VBR::Vbr1M5 => 2,
            VBR::Vbr2M => 3,
            VBR::Vbr3M => 4,
            VBR::Vbr4M => 5,
        }
    }

    pub fn code(self) -> (r: u8)
        ensures
            r == self.spec_code(),
    {
        match self {
            VBR::VbrAuto => 0,
            VBR::Vbr1M => 1,
            VBR::Vbr1M5 => 2,
            VBR::Vbr2M => 3,
            VBR::Vbr3M => 4,
            VBR::Vbr4M => 5,
        }
    }
}

pub fn do_takeoff(seq: u16) -> (r: Vec<u8>)
    ensures
        r@ == spec_frame(spec_command_model(PT_SET, MSG_DO_TAKEOFF, seq, Seq::<u8>::empty())),
{
    TelloPacket::new(PT_SET, MSG_DO_TAKEOFF, seq, None).to_buffer()
}

pub fn throw_takeoff(seq: u16) -> (r: Vec<u8>)
    ensures
        r@ == spec_frame(
            spec_command_model(PT_GET, MSG_DO_THROW_TAKEOFF, seq, Seq::<u8>::empty()),
        ),
{
    TelloPacket::new(PT_GET, MSG_DO_THROW_TAKEOFF, seq, None).to_buffer()
}

pub fn do_land(seq: u16) -> (r: Vec<u8>)
    ensures
        r@ == spec_frame(spec_command_model(PT_SET, MSG_DO_LAND, seq, seq![0u8])),
{
    TelloPacket::new(PT_SET, MSG_DO_LAND, seq, Some(0)).to_buffer()
}

pub fn cancel_land(seq: u16) -> (r: Vec<u8>)
    ensures
        r@ == spec_frame(spec_command_model(PT_SET, MSG_DO_LAND, seq, seq![1u8])),
{
    TelloPacket::new(PT_SET, MSG_DO_LAND, seq, Some(1)).to_buffer()
}

pub fn palm_land(seq: u16) -> (r: Vec<u8>)
    ensures
        r@ == spec_frame(spec_command_model(PT_SET, MSG_DO_PALM_LAND, seq, seq![0u8])),
{
    TelloPacket::new(PT_SET, MSG_DO_PALM_LAND, seq, Some(0)).to_buffer()
}

pub fn bounce_on(seq: u16) -> (r: Vec<u8>)
    ensures
        r@ == spec_frame(spec_command_model(PT_SET, MSG_DO_BOUNCE, seq, seq![BOUNCE_ON])),
{
    TelloPacket::new(PT_SET, MSG_DO_BOUNCE, seq, Some(BOUNCE_ON)).to_buffer()
}

pub fn bounce_off(seq: u16) -> (r: Vec<u8>)
    ensures
        r@ == spec_frame(spec_command_model(PT_SET, MSG_DO_BOUNCE, seq, seq![BOUNCE_OFF])),
{
    TelloPacket::new(PT_SET, MSG_DO_BOUNCE, seq, Some(BOUNCE_OFF)).to_buffer()
}

pub fn flip_forward(seq: u16) -> (r: Vec<u8>)
    ensures
        r@ == spec_frame(spec_command_model(PT_FLIP, MSG_DO_FLIP, seq, seq![FLIP_FORWARD])),
{
    TelloPacket::new(PT_FLIP, MSG_DO_FLIP, seq, Some(FLIP_FORWARD)).to_buffer()
}

pub fn flip_left(seq: u16) -> (r: Vec<u8>)
    ensures
        r@ == spec_frame(spec_command_model(PT_FLIP, MSG_DO_FLIP, seq, seq![FLIP_LEFT])),
{
    TelloPacket::new(PT_FLIP, MSG_DO_FLIP, seq, Some(FLIP_LEFT)).to_buffer()
}

pub fn flip_backward(seq: u16) -> (r: Vec<u8>)
    ensures
        r@ == spec_frame(spec_command_model(PT_FLIP, MSG_DO_FLIP, seq, seq![FLIP_BACKWARD])),
{
    TelloPacket::new(PT_FLIP, MSG_DO_FLIP, seq, Some(FLIP_BACKWARD)).to_buffer()
}

pub fn flip_right(seq: u16) -> (r: Vec<u8>)
    ensures
        r@ == spec_frame(spec_command_model(PT_FLIP, MSG_DO_FLIP, seq, seq![FLIP_RIGHT])),
{
    TelloPacket::new(PT_FLIP, MSG_DO_FLIP, seq, Some(FLIP_RIGHT)).to_buffer()
}

pub fn smart_video(seq: u16, cmd: SmartVideoCmd) -> (r: Vec<u8>)
    ensures
        r@ == spec_frame(
            spec_command_model(PT_SET, MSG_DO_SMART_VIDEO, seq, seq![cmd.spec_code()]),
        ),
{
    let code = cmd.code();
    TelloPacket::new(PT_SET, MSG_DO_SMART_VIDEO, seq, Some(code)).to_buffer()
}

pub fn query_attitude(seq: u16) -> (r: Vec<u8>)
    ensures
        r@ == spec_frame(spec_command_model(PT_GET, MSG_QUERY_ATTITUDE, seq, Seq::<u8>::empty())),
{
    TelloPacket::new(PT_GET, MSG_QUERY_ATTITUDE, seq, None).to_buffer()
}

pub fn query_low_battery_threshold(seq: u16) -> (r: Vec<u8>)
    ensures
        r@ == spec_frame(
            spec_command_model(PT_GET, MSG_QUERY_LOW_BATT_THRESH, seq, Seq::<u8>::empty()),
        ),
{
    TelloPacket::new(PT_GET, MSG_QUERY_LOW_BATT_THRESH, seq, None).to_buffer()
}

pub fn query_height_limit(seq: u16) -> (r: Vec<u8>)
    ensures
        r@ == spec_frame(
            spec_command_model(PT_GET, MSG_QUERY_HEIGHT_LIMIT, seq, Seq::<u8>::empty()),
        ),
{
    TelloPacket::new(PT_GET, MSG_QUERY_HEIGHT_LIMIT, seq, None).to_buffer()
}

pub fn query_ssid(seq: u16) -> (r: Vec<u8>)
    ensures
        r@ == spec_frame(spec_command_model(PT_GET, MSG_QUERY_SSID, seq, Seq::<u8>::empty())),
{
    TelloPacket::new(PT_GET, MSG_QUERY_SSID, seq, None).to_buffer()
}

pub fn query_version(seq: u16) -> (r: Vec<u8>)
    ensures
        r@ == spec_frame(spec_command_model(PT_GET, MSG_QUERY_VERSION, seq, Seq::<u8>::empty())),
{
    TelloPacket::new(PT_GET, MSG_QUERY_VERSION, seq, None).to_buffer()
}

pub fn query_video_bitrate(seq: u16) -> (r: Vec<u8>)
    ensures
        r@ == spec_frame(
            spec_command_model(PT_GET, MSG_QUERY_VIDEO_BITRATE, seq, Seq::<u8>::empty()),
        ),
{
    TelloPacket::new(PT_GET, MSG_QUERY_VIDEO_BITRATE, seq, None).to_buffer()
}

/// The periodic SPS/PPS request; always sent with sequence zero.
pub fn query_video_spsfps() -> (r: Vec<u8>)
    ensures
        r@ == spec_frame(
            spec_command_model(PT_DATA2, MSG_QUERY_VIDEO_SPSPPS, 0, Seq::<u8>::empty()),
        ),
{
    TelloPacket::new(PT_DATA2, MSG_QUERY_VIDEO_SPSPPS, 0, None).to_buffer()
}

/// Sets the low-battery warning threshold; `val` is a battery percentage.
pub fn set_low_battery_threshold(seq: u16, val: u8) -> (r: Vec<u8>)
    ensures
        r@ == spec_frame(spec_command_model(PT_SET, MSG_SET_LOW_BATT_THRESH, seq, seq![val])),
{
    TelloPacket::new(PT_SET, MSG_SET_LOW_BATT_THRESH, seq, Some(val)).to_buffer()
}

pub fn set_vbr(seq: u16, bitrate: VBR) -> (r: Vec<u8>)
    ensures
        r@ == spec_frame(
            spec_command_model(PT_SET, MSG_SET_VIDEO_BITRATE, seq, seq![bitrate.spec_code()]),
        ),
{
    let code = bitrate.code();
    TelloPacket::new(PT_SET, MSG_SET_VIDEO_BITRATE, seq, Some(code)).to_buffer()
}

pub fn set_video_normal(seq: u16) -> (r: Vec<u8>)
    ensures
        r@ == spec_frame(spec_command_model(PT_SET, MSG_SWITCH_PIC_VIDEO, seq, seq![0u8])),
{
    TelloPacket::new(PT_SET, MSG_SWITCH_PIC_VIDEO, seq, Some(0)).to_buffer()
}

pub fn set_video_wide(seq: u16) -> (r: Vec<u8>)
    ensures
        r@ == spec_frame(spec_command_model(PT_SET, MSG_SWITCH_PIC_VIDEO, seq, seq![1u8])),
{
    TelloPacket::new(PT_SET, MSG_SWITCH_PIC_VIDEO, seq, Some(1)).to_buffer()
}

pub fn take_picture(seq: u16) -> (r: Vec<u8>)
    ensures
        r@ == spec_frame(spec_command_model(PT_SET, MSG_DO_TAKE_PIC, seq, Seq::<u8>::empty())),
{
    TelloPacket::new(PT_SET, MSG_DO_TAKE_PIC, seq, None).to_buffer()
}

pub fn ack_file_size(seq: u16) -> (r: Vec<u8>)
    ensures
        r@ == spec_frame(spec_command_model(PT_DATA1, MSG_FILE_SIZE, seq, seq![0u8])),
{
    TelloPacket::new(PT_DATA1, MSG_FILE_SIZE, seq, Some(0)).to_buffer()
}

pub fn ack_file_piece(seq: u16, done: bool, f_id: u16, piece_no: u32) -> (r: Vec<u8>)
    ensures
        r@ == spec_frame(crate::packet::spec_ack_file_piece_model(seq, done, f_id, piece_no)),
{
    TelloPacket::ack_file_piece(seq, done, f_id, piece_no).to_buffer()
}

pub fn file_done(seq: u16, f_id: u16, size: u32) -> (r: Vec<u8>)
    ensures
        r@ == spec_frame(crate::packet::spec_file_done_model(seq, f_id, size)),
{
    TelloPacket::file_done(seq, f_id, size).to_buffer()
}

/// The bytes of the plaintext connection request: the ASCII `conn_req:`
/// followed by the video port, little-endian.
pub open spec fn spec_connect_frame(video_port: u16) -> Seq<u8> {
    seq![
        99u8,
        111u8,
        110u8,
        110u8,
        95u8,
        114u8,
        101u8,
        113u8,
        58u8,
        ((video_port & 0xff) as u8),
        ((video_port >> 8) as u8),
    ]
}

/// The unframed handshake datagram that opens a session.
pub fn connect(video_port: u16) -> (r: Vec<u8>)
    ensures
        r@ == spec_connect_frame(video_port),
{
    let mut v: Vec<u8> = Vec::new();
    v.push(99);
    v.push(111);
    v.push(110);
    v.push(110);
    v.push(95);
    v.push(114);
    v.push(101);
    v.push(113);
    v.push(58);
    v.push((video_port & 0xff) as u8);
    v.push((video_port >> 8) as u8);
    proof {
        assert(v@ =~= spec_connect_frame(video_port));
    }
    v
}

/// The 45-bit packing of the four stick axes and the sports-mode flag.
pub open spec fn spec_packed_axes(rx: i16, ry: i16, lx: i16, ly: i16, sports_mode: bool) -> u64 {
    let base = ((rx as u64) & 0x7ff) | (((ry as u64) & 0x7ff) << 11) | (((ly as u64) & 0x7ff)
        << 22) | (((lx as u64) & 0x7ff) << 33);
    if sports_mode {
        base | (1u64 << 44)
    } else {
        base
    }
}

/// The 11-byte stick-update payload: six bytes of packed axes, the time of
/// day, and the milliseconds little-endian.
pub open spec fn spec_stick_payload(
    rx: i16,
    ry: i16,
    lx: i16,
    ly: i16,
    sports_mode: bool,
    hour: u8,
    minute: u8,
    second: u8,
    millis: u16,
) -> Seq<u8> {
    let p = spec_packed_axes(rx, ry, lx, ly, sports_mode);
    seq![
        p as u8,
        ((p >> 8) as u8),
        ((p >> 16) as u8),
        ((p >> 24) as u8),
        ((p >> 32) as u8),
        ((p >> 40) as u8),
        hour,
        minute,
        second,
        ((millis & 0xff) as u8),
        ((millis >> 8) as u8),
    ]
}

/// The stick-update frame; always sent with sequence zero.
pub fn send_stick_update(
    rx: i16,
    ry: i16,
    lx: i16,
    ly: i16,
    sports_mode: bool,
    hour: u8,
    minute: u8,
    second: u8,
    millis: u16,
) -> (r: Vec<u8>)
    ensures
        r@ == spec_frame(
            spec_command_model(
                PT_DATA2,
                MSG_SET_STICK,
                0,
                spec_stick_payload(rx, ry, lx, ly, sports_mode, hour, minute, second, millis),
            ),
        ),
{
    let base: u64 = (crate::bytes::js_int16_to_tello(rx) & 0x7ff) | ((crate::bytes::js_int16_to_tello(
        ry,
    ) & 0x7ff) << 11) | ((crate::bytes::js_int16_to_tello(ly) & 0x7ff) << 22) | ((crate::bytes::js_int16_to_tello(
        lx,
    ) & 0x7ff) << 33);
    let packed_axes: u64 = if sports_mode {
        base | (1u64 << 44)
    } else {
        base
    };
    let mut payload: Vec<u8> = Vec::new();
    payload.push(packed_axes as u8);
    payload.push((packed_axes >> 8) as u8);
    payload.push((packed_axes >> 16) as u8);
    payload.push((packed_axes >> 24) as u8);
    payload.push((packed_axes >> 32) as u8);
    payload.push((packed_axes >> 40) as u8);
    payload.push(hour);
    payload.push(minute);
    payload.push(second);
    payload.push((millis & 0xff) as u8);
    payload.push((millis >> 8) as u8);
    proof {
        assert(payload@ =~= spec_stick_payload(
            rx,
            ry,
            lx,
            ly,
            sports_mode,
            hour,
            minute,
            second,
            millis,
        ));
    }
    TelloPacket::new_with_payload(PT_DATA2, MSG_SET_STICK, 0, payload).to_buffer()
}

/// The 15-byte payload of the date-time reply: a reserved zero byte, then
/// year, month, day, hour, minute, second and milliseconds, each as a
/// little-endian 16-bit value.
pub open spec fn spec_date_time_payload(
    year: u16,
    month: u16,
    day: u16,
    hour: u16,
    minute: u16,
    second: u16,
    ms: u16,
) -> Seq<u8> {
    seq![
        0u8,
        year as u8,
        ((year >> 8) as u8),
        month as u8,
        ((month >> 8) as u8),
        day as u8,
        ((day >> 8) as u8),
        hour as u8,
        ((hour >> 8) as u8),
        minute as u8,
        ((minute >> 8) as u8),
        second as u8,
        ((second >> 8) as u8),
        ms as u8,
        ((ms >> 8) as u8),
    ]
}

/// The reply to the drone's set-date-time request.
pub fn send_date_time(
    seq: u16,
    year: u16,
    month: u16,
    day: u16,
    hour: u16,
    minute: u16,
    second: u16,
    ms: u16,
) -> (r: Vec<u8>)
    ensures
        r@ == spec_frame(
            spec_command_model(
                PT_DATA1,
                MSG_SET_DATE_TIME,
                seq,
                spec_date_time_payload(year, month, day, hour, minute, second, ms),
            ),
        ),
{
    let mut payload: Vec<u8> = Vec::new();
    payload.push(0);
    payload.push(year as u8);
    payload.push((year >> 8) as u8);
    payload.push(month as u8);
    payload.push((month >> 8) as u8);
    payload.push(day as u8);
    payload.push((day >> 8) as u8);
    payload.push(hour as u8);
    payload.push((hour >> 8) as u8);
    payload.push(minute as u8);
    payload.push((minute >> 8) as u8);
    payload.push(second as u8);
    payload.push((second >> 8) as u8);
    payload.push(ms as u8);
    payload.push((ms >> 8) as u8);
    proof {
        assert(payload@ =~= spec_date_time_payload(year, month, day, hour, minute, second, ms));
    }
    TelloPacket::new_with_payload(PT_DATA1, MSG_SET_DATE_TIME, seq, payload).to_buffer()
}

} // verus!
