//! Decoders for the telemetry the drone sends: flight status, Wi-Fi and
//! light strength, and the obfuscated flight-log records.

use vstd::prelude::*;

use crate::bytes::{
    get_i16, get_u16, get_u32, decode_buffer, spec_i16_le, spec_neg_i16, spec_u16_le, spec_u32_le,
    spec_xor_record,
};
use crate::clock::now_msecs;

verus! {

/// Separator byte that opens every flight-log record.
pub const LOG_RECORD_SEPARATOR: u8 = 0x55;

/// Record type of the motion/visual-odometry sub-record.
pub const LOG_REC_NEW_MVO: u16 = 0x001d;

/// Record type of the inertial-measurement sub-record.
pub const LOG_REC_IMU: u16 = 0x0800;

pub const LOG_VALID_VEL_X: u8 = 0x01;

pub const LOG_VALID_VEL_Y: u8 = 0x02;

pub const LOG_VALID_VEL_Z: u8 = 0x04;

pub const LOG_VALID_POS_Y: u8 = 0x10;

pub const LOG_VALID_POS_X: u8 = 0x20;

pub const LOG_VALID_POS_Z: u8 = 0x40;

/// A triple of like values, used for the MVO position.
#[derive(Clone, Copy, Debug)]
pub struct Vec3<T> {
    pub x: T,
    pub y: T,
    pub z: T,
}

impl<T> Vec3<T> {
    pub fn new(x: T, y: T, z: T) -> (r: Self)
        ensures
            r.x == x,
            r.y == y,
            r.z == z,
    {
        Vec3 { x, y, z }
    }
}

/// The Wi-Fi strength report.
#[derive(Clone, Copy, Debug)]
pub struct WifiData {
    pub wifi_interference: u8,
    pub wifi_strength: u8,
}

/// The Wi-Fi report read from its two-byte payload.
pub open spec fn spec_wifi_data(pl: Seq<u8>) -> WifiData {
    WifiData { wifi_strength: pl[0], wifi_interference: pl[1] }
}

impl WifiData {
    pub fn new(pl: &Vec<u8>) -> (r: Self)
        requires
            pl@.len() >= 2,
        ensures
            r == spec_wifi_data(pl@),
    {
        WifiData { wifi_strength: pl[0], wifi_interference: pl[1] }
    }
}

/// The light strength report, stamped with the receiver-local time.
#[derive(Clone, Copy, Debug)]
pub struct LightData {
    pub light_strength: u8,
    pub light_strength_updated: u128,
}

impl LightData {
    pub fn new(pl: &Vec<u8>) -> (r: Self)
        requires
            pl@.len() >= 1,
        ensures
            r.light_strength == pl@[0],
    {
        LightData { light_strength: pl[0], light_strength_updated: now_msecs() }
    }
}

/// One decoded inertial-measurement record.  The quaternion components are
/// carried as the raw bit patterns of the four little-endian 32-bit floats;
/// the conversion to Euler angles is floating-point work for the caller.
#[derive(Clone, Copy, Debug)]
pub struct ImuRec {
    pub quat_w_bits: u32,
    pub quat_x_bits: u32,
    pub quat_y_bits: u32,
    pub quat_z_bits: u32,
    pub temperature: i16,
}

/// One decoded motion/visual-odometry record.  Each velocity is present only
/// when its validity bit is set; the position is present only when all three
/// of its validity bits are, and carries the raw bit patterns of the three
/// little-endian 32-bit floats.
#[derive(Clone, Copy, Debug)]
pub struct MvoRec {
    pub position: Option<Vec3<u32>>,
    pub vx: Option<i16>,
    pub vy: Option<i16>,
    pub vz: Option<i16>,
}

/// What one flight-log payload decodes to.
#[derive(Clone, Copy, Debug)]
pub struct LogData {
    pub imu: Option<ImuRec>,
    pub mvo: Option<MvoRec>,
}

/// The IMU record read from a deobfuscated record of at least 118 bytes:
/// the quaternion floats at body offsets 48..64 and the temperature, in
/// hundredths, at body offsets 106..108 (the body starts 10 bytes in).
pub open spec fn spec_imu_of(x: Seq<u8>) -> ImuRec {
    ImuRec {
        quat_w_bits: spec_u32_le(x[58], x[59], x[60], x[61]),
        quat_x_bits: spec_u32_le(x[62], x[63], x[64], x[65]),
        quat_y_bits: spec_u32_le(x[66], x[67], x[68], x[69]),
        quat_z_bits: spec_u32_le(x[70], x[71], x[72], x[73]),
        temperature: (spec_u16_le(x[116], x[117]) / 100) as i16,
    }
}

/// The MVO record read from a deobfuscated record of at least 87 bytes,
/// folded over the previous value: the flags byte at body offset 76 gates
/// each velocity (body offsets 2/4/6, z negated) and the position (body
/// offsets 8/12/16 as y/x/z); a record with nothing valid leaves the
/// previous value in place.
pub open spec fn spec_mvo_step(x: Seq<u8>, prev: Option<MvoRec>) -> Option<MvoRec> {
    let flags = x[86];
    let vx = if flags & LOG_VALID_VEL_X != 0 {
        Some(spec_i16_le(x[12], x[13]))
    } else {
        None
    };
    let vy = if flags & LOG_VALID_VEL_Y != 0 {
        Some(spec_i16_le(x[14], x[15]))
    } else {
        None
    };
    let vz = if flags & LOG_VALID_VEL_Z != 0 {
        Some(spec_neg_i16(spec_i16_le(x[16], x[17])))
    } else {
        None
    };
    let position = if flags & LOG_VALID_POS_Y != 0 && flags & LOG_VALID_POS_X != 0 && flags
        & LOG_VALID_POS_Z != 0 {
        Some(
            Vec3 {
                x: spec_u32_le(x[22], x[23], x[24], x[25]),
                y: spec_u32_le(x[18], x[19], x[20], x[21]),
                z: spec_u32_le(x[26], x[27], x[28], x[29]),
            },
        )
    } else {
        None
    };
    if vx is Some || vy is Some || vz is Some || position is Some {
        Some(MvoRec { position, vx, vy, vz })
    } else {
        prev
    }
}

/// The walk over a flight-log payload from `pos`: each record opens with the
/// separator, a 2-byte length, an id byte, a 2-byte type and an XOR key; the
/// whole record is deobfuscated with the key, known types are decoded, and
/// the cursor advances by the record length.  The walk stops at a bad
/// separator, a zero length, or within six bytes of the end.
pub open spec fn spec_log_scan(
    d: Seq<u8>,
    pos: int,
    imu: Option<ImuRec>,
    mvo: Option<MvoRec>,
) -> (Option<ImuRec>, Option<MvoRec>)
    decreases d.len() - pos,
{
    if pos + 6 >= d.len() || pos < 0 {
        (imu, mvo)
    } else if d[pos] != LOG_RECORD_SEPARATOR {
        (imu, mvo)
    } else {
        let rec_len = spec_u16_le(d[pos + 1], d[pos + 2]) as int;
        if rec_len == 0 {
            (imu, mvo)
        } else {
            let rec_type = spec_u16_le(d[pos + 4], d[pos + 5]);
            let x = spec_xor_record(d, pos, rec_len, d[pos + 6]);
            let imu2 = if rec_type == LOG_REC_IMU && x.len() >= 118 {
                Some(spec_imu_of(x))
            } else {
                imu
            };
            let mvo2 = if rec_type == LOG_REC_NEW_MVO && x.len() >= 87 {
                spec_mvo_step(x, mvo)
            } else {
                mvo
            };
            if pos + rec_len + 6 >= d.len() {
                (imu2, mvo2)
            } else {
                spec_log_scan(d, pos + rec_len, imu2, mvo2)
            }
        }
    }
}

/// What a whole flight-log payload decodes to; records start at offset 1.
pub open spec fn spec_log_decode(d: Seq<u8>) -> (Option<ImuRec>, Option<MvoRec>) {
    spec_log_scan(d, 1, None, None)
}

fn decode_imu(x: &Vec<u8>) -> (r: ImuRec)
    requires
        x@.len() >= 118,
    ensures
        r == spec_imu_of(x@),
{
    ImuRec {
        quat_w_bits: get_u32(x, 58),
        quat_x_bits: get_u32(x, 62),
        quat_y_bits: get_u32(x, 66),
        quat_z_bits: get_u32(x, 70),
        temperature: (get_u16(x, 116, 117) / 100) as i16,
    }
}

fn decode_mvo(x: &Vec<u8>, prev: Option<MvoRec>) -> (r: Option<MvoRec>)
    requires
        x@.len() >= 87,
    ensures
        r == spec_mvo_step(x@, prev),
{
    let flags = x[86];
    let vx: Option<i16> = if flags & LOG_VALID_VEL_X != 0 {
        Some(get_i16(x, 12, 13))
    } else {
        None
    };
    let vy: Option<i16> = if flags & LOG_VALID_VEL_Y != 0 {
        Some(get_i16(x, 14, 15))
    } else {
        None
    };
    let vz: Option<i16> = if flags & LOG_VALID_VEL_Z != 0 {
        let v = get_i16(x, 16, 17);
        Some(if v == i16::MIN { i16::MIN } else { -v })
    } else {
        None
    };
    let position: Option<Vec3<u32>> = if flags & LOG_VALID_POS_Y != 0 && flags & LOG_VALID_POS_X
        != 0 && flags & LOG_VALID_POS_Z != 0 {
        let py = get_u32(x, 18);
        let px = get_u32(x, 22);
        let pz = get_u32(x, 26);
        Some(Vec3::new(px, py, pz))
    } else {
        None
    };
    if vx.is_some() || vy.is_some() || vz.is_some() || position.is_some() {
        Some(MvoRec { position, vx, vy, vz })
    } else {
        prev
    }
}

impl LogData {
    /// Decodes one flight-log payload.  Malformed records stop the walk;
    /// records whose deobfuscated body is too short for their type are
    /// skipped.
    pub fn new(data: &Vec<u8>) -> (r: Self)
        ensures
            r.imu == spec_log_decode(data@).0,
            r.mvo == spec_log_decode(data@).1,
    {
        let mut imu: Option<ImuRec> = None;
        let mut mvo: Option<MvoRec> = None;
        let mut pos: usize = 1;
        while data.len() > 6 && pos < data.len() - 6
            invariant_except_break
                1 <= pos,
                spec_log_decode(data@) == spec_log_scan(data@, pos as int, imu, mvo),
            ensures
                spec_log_decode(data@) == (imu, mvo),
            decreases data@.len() - pos,
        {
            if data[pos] != LOG_RECORD_SEPARATOR {
                proof {
                    assert(spec_log_scan(data@, pos as int, imu, mvo) == (imu, mvo));
                }
                break;
            }
            let rec_len_16 = get_u16(data, pos + 1, pos + 2);
            let rec_len = rec_len_16 as usize;
            let rec_type = get_u16(data, pos + 4, pos + 5);
            let xor_val = data[pos + 6];
            if rec_len == 0 {
                proof {
                    assert(spec_log_scan(data@, pos as int, imu, mvo) == (imu, mvo));
                }
                break;
            }
            let xor_buf = decode_buffer(data, xor_val, pos, rec_len);
            let ghost prev_imu = imu;
            let ghost prev_mvo = mvo;
            if rec_type == LOG_REC_IMU && xor_buf.len() >= 118 {
                imu = Some(decode_imu(&xor_buf));
            }
            if rec_type == LOG_REC_NEW_MVO && xor_buf.len() >= 87 {
                mvo = decode_mvo(&xor_buf, mvo);
            }
            let remaining = data.len() - pos;
            if rec_len + 6 >= remaining {
                proof {
                    assert(spec_log_scan(data@, pos as int, prev_imu, prev_mvo) == (imu, mvo));
                }
                break;
            }
            proof {
                assert(spec_log_scan(data@, pos as int, prev_imu, prev_mvo) == spec_log_scan(
                    data@,
                    pos + rec_len,
                    imu,
                    mvo,
                ));
            }
            pos = pos + rec_len;
        }
        LogData { imu, mvo }
    }
}

/// One telemetry event for the application: exactly one field is populated
/// per message.
#[derive(Clone, Copy, Debug)]
pub struct UpdateData {
    pub flight: Option<FlightData>,
    pub wifi: Option<WifiData>,
    pub light: Option<LightData>,
    pub log: Option<LogData>,
}

impl UpdateData {
    pub fn default() -> (r: Self)
        ensures
            r.flight is None,
            r.wifi is None,
            r.light is None,
            r.log is None,
    {
        UpdateData { flight: None, wifi: None, light: None, log: None }
    }

    pub fn from_flight_data(flight: FlightData) -> (r: Self)
        ensures
            r.flight == Some(flight),
            r.wifi is None,
            r.light is None,
            r.log is None,
    {
        UpdateData { flight: Some(flight), wifi: None, light: None, log: None }
    }

    pub fn from_wifi_data(wifi: WifiData) -> (r: Self)
        ensures
            r.flight is None,
            r.wifi == Some(wifi),
            r.light is None,
            r.log is None,
    {
        UpdateData { flight: None, wifi: Some(wifi), light: None, log: None }
    }

    pub fn from_light_data(light: LightData) -> (r: Self)
        ensures
            r.flight is None,
            r.wifi is None,
            r.light == Some(light),
            r.log is None,
    {
        UpdateData { flight: None, wifi: None, light: Some(light), log: None }
    }

    pub fn from_log_data(log: LogData) -> (r: Self)
        ensures
            r.flight is None,
            r.wifi is None,
            r.light is None,
            r.log == Some(log),
    {
        UpdateData { flight: None, wifi: None, light: None, log: Some(log) }
    }
}

/// The drone's bit- and byte-packed flight status.  Different fields are
/// refreshed at different rates; `flying` is the one the control loop reads
/// back.
#[derive(Clone, Copy, Debug)]
pub struct FlightData {
    pub battery_critical: bool,
    pub battery_low: bool,
    pub battery_milli_volts: i16,
    pub battery_percentage: i8,
    pub battery_state: bool,
    pub camera_state: u8,
    pub down_visual_state: bool,
    pub drone_fly_time_left: i16,
    pub drone_hover: bool,
    pub east_speed: i16,
    pub electrical_machinery_state: u8,
    pub em_open: bool,
    pub error_state: bool,
    pub factory_mode: bool,
    pub flying: bool,
    pub fly_mode: u8,
    pub fly_time: i16,
    pub front_in: bool,
    pub front_lsc: bool,
    pub front_out: bool,
    pub gravity_state: bool,
    /// Height in decimetres.
    pub height: i16,
    pub imu_calibration_state: i8,
    pub imu_state: bool,
    pub north_speed: i16,
    pub on_ground: bool,
    pub outage_recording: bool,
    pub power_state: bool,
    pub pressure_state: bool,
    pub throw_fly_timer: i8,
    pub vertical_speed: i16,
    pub wind_state: bool,
}

/// The flight status read from its 24-byte payload: five little-endian
/// 16-bit words, then bit- and byte-packed state.
pub open spec fn spec_flight_data(pl: Seq<u8>) -> FlightData {
    FlightData {
        height: spec_i16_le(pl[0], pl[1]),
        north_speed: spec_i16_le(pl[2], pl[3]),
        east_speed: spec_i16_le(pl[4], pl[5]),
        vertical_speed: spec_i16_le(pl[6], pl[7]),
        fly_time: spec_i16_le(pl[8], pl[9]),
        imu_state: (pl[10] & 1) == 1,
        pressure_state: (pl[10] >> 1 & 1) == 1,
        down_visual_state: (pl[10] >> 2 & 1) == 1,
        power_state: (pl[10] >> 3 & 1) == 1,
        battery_state: (pl[10] >> 4 & 1) == 1,
        gravity_state: (pl[10] >> 5 & 1) == 1,
        wind_state: (pl[10] >> 7 & 1) == 1,
        imu_calibration_state: pl[11] as i8,
        battery_percentage: pl[12] as i8,
        drone_fly_time_left: spec_i16_le(pl[13], pl[14]),
        battery_milli_volts: spec_i16_le(pl[15], pl[16]),
        flying: (pl[17] & 1) == 1,
        on_ground: (pl[17] >> 1 & 1) == 1,
        em_open: (pl[17] >> 2 & 1) == 1,
        drone_hover: (pl[17] >> 3 & 1) == 1,
        outage_recording: (pl[17] >> 4 & 1) == 1,
        battery_low: (pl[17] >> 5 & 1) == 1,
        battery_critical: (pl[17] >> 6 & 1) == 1,
        factory_mode: (pl[17] >> 7 & 1) == 1,
        fly_mode: pl[18],
        throw_fly_timer: pl[19] as i8,
        camera_state: pl[20],
        electrical_machinery_state: pl[21],
        front_in: (pl[22] & 1) == 1,
        front_out: (pl[22] >> 1 & 1) == 1,
        front_lsc: (pl[22] >> 2 & 1) == 1,
        error_state: (pl[23] & 1) == 1,
    }
}

impl FlightData {
    pub fn new(pl: &Vec<u8>) -> (r: Self)
        requires
            pl@.len() >= 24,
        ensures
            r == spec_flight_data(pl@),
    {
        FlightData {
            height: get_i16(pl, 0, 1),
            north_speed: get_i16(pl, 2, 3),
            east_speed: get_i16(pl, 4, 5),
            vertical_speed: get_i16(pl, 6, 7),
            fly_time: get_i16(pl, 8, 9),
            imu_state: (pl[10] & 1) == 1,
            pressure_state: (pl[10] >> 1 & 1) == 1,
            down_visual_state: (pl[10] >> 2 & 1) == 1,
            power_state: (pl[10] >> 3 & 1) == 1,
            battery_state: (pl[10] >> 4 & 1) == 1,
            gravity_state: (pl[10] >> 5 & 1) == 1,
            wind_state: (pl[10] >> 7 & 1) == 1,
            imu_calibration_state: pl[11] as i8,
            battery_percentage: pl[12] as i8,
            drone_fly_time_left: get_i16(pl, 13, 14),
            battery_milli_volts: get_i16(pl, 15, 16),
            flying: (pl[17] & 1) == 1,
            on_ground: (pl[17] >> 1 & 1) == 1,
            em_open: (pl[17] >> 2 & 1) == 1,
            drone_hover: (pl[17] >> 3 & 1) == 1,
            outage_recording: (pl[17] >> 4 & 1) == 1,
            battery_low: (pl[17] >> 5 & 1) == 1,
            battery_critical: (pl[17] >> 6 & 1) == 1,
            factory_mode: (pl[17] >> 7 & 1) == 1,
            fly_mode: pl[18],
            throw_fly_timer: pl[19] as i8,
            camera_state: pl[20],
            electrical_machinery_state: pl[21],
            front_in: (pl[22] & 1) == 1,
            front_out: (pl[22] >> 1 & 1) == 1,
            front_lsc: (pl[22] >> 2 & 1) == 1,
            error_state: (pl[23] & 1) == 1,
        }
    }
}

} // verus!
