//! End-to-end scenarios against the controller engine, plus edge cases for
//! the codec, the checksums and the reassembler.

use tello::bytes::{contains_any, decode_buffer, get_i16, get_u16, js_int16_to_tello};
use tello::commands;
use tello::crc::{calculate_crc16, calculate_crc8};
use tello::engine::{clamp_stick_raw, Action, Engine, RC_VAL_MAX, RC_VAL_MIN};
use tello::files::{FileChunk, FileInternal};
use tello::packet::{TelloPacket, MSG_FILE_DATA, MSG_FILE_SIZE, MSG_FLIGHT_STATUS, PT_DATA1};
use tello::telemetry::{FlightData, LightData, LogData, WifiData};

fn frame_of(actions: &[Action], i: usize) -> &Vec<u8> {
    match &actions[i] {
        Action::Send(v) => v,
        other => panic!("expected a send action, got {:?}", action_name(other)),
    }
}

fn action_name(a: &Action) -> &'static str {
    match a {
        Action::Send(_) => "send",
        Action::PublishFlight(_) => "flight",
        Action::PublishWifi(_) => "wifi",
        Action::PublishLight(_) => "light",
        Action::PublishLog(_) => "log",
        Action::SaveFile(_, _) => "save",
    }
}

/// A flight-status payload with the given flying bit.
fn flight_payload(flying: bool) -> Vec<u8> {
    let mut pl = vec![0u8; 24];
    pl[17] = if flying { 1 } else { 0 };
    pl
}

fn flight_packet(flying: bool) -> TelloPacket {
    TelloPacket::new_with_payload(PT_DATA1, MSG_FLIGHT_STATUS, 0, flight_payload(flying))
}

/// A file-size payload announcing a JPEG of `size` bytes under `f_id`.
fn file_size_payload(f_id: u16, size: u32) -> Vec<u8> {
    vec![
        1,
        size as u8,
        (size >> 8) as u8,
        (size >> 16) as u8,
        (size >> 24) as u8,
        f_id as u8,
        (f_id >> 8) as u8,
    ]
}

/// A file-data payload for one chunk of a piece.
fn file_data_payload(f_id: u16, piece: u32, chunk: u32, data: &[u8]) -> Vec<u8> {
    let mut pl = vec![
        f_id as u8,
        (f_id >> 8) as u8,
        piece as u8,
        (piece >> 8) as u8,
        (piece >> 16) as u8,
        (piece >> 24) as u8,
        chunk as u8,
        (chunk >> 8) as u8,
        (chunk >> 16) as u8,
        (chunk >> 24) as u8,
        data.len() as u8,
        ((data.len() as u16) >> 8) as u8,
    ];
    pl.extend_from_slice(data);
    pl
}

// Handshake: a datagram carrying `conn_ack:` flips the connection flag.
#[test]
fn handshake_conn_ack_connects() {
    let mut engine = Engine::new();
    assert!(!engine.is_connected());

    // the outbound request for video port 6038
    let req = commands::connect(6038);
    assert_eq!(
        vec![99, 111, 110, 110, 95, 114, 101, 113, 58, 150, 23],
        req
    );

    // an unrelated 11-byte datagram does not connect
    let noise: Vec<u8> = vec![0; 11];
    let acts = engine.on_datagram(&noise);
    assert!(acts.is_empty());
    assert!(!engine.is_connected());

    // conn_ack: followed by two port bytes
    let ack: Vec<u8> = vec![99, 111, 110, 110, 95, 97, 99, 107, 58, 150, 23];
    let acts = engine.on_datagram(&ack);
    assert!(acts.is_empty());
    assert!(engine.is_connected());
}

// Photo reassembly: three chunks complete the announced size, and the
// engine acknowledges, closes and saves the file exactly once.
#[test]
fn photo_reassembly_three_chunks() {
    let mut engine = Engine::new();
    let f_id: u16 = 7;
    let data0 = [10u8, 11, 12, 13];
    let data1 = [20u8, 21, 22, 23];
    let data2 = [30u8, 31, 32, 33];

    let pkt = TelloPacket::new_with_payload(PT_DATA1, MSG_FILE_SIZE, 0, file_size_payload(f_id, 12));
    let acts = engine.process_packet(&pkt);
    assert_eq!(1, acts.len());
    assert_eq!(&commands::ack_file_size(0), frame_of(&acts, 0));

    for (i, data) in [data0, data1, data2].iter().enumerate() {
        let pl = file_data_payload(f_id, 0, i as u32, data);
        let pkt = TelloPacket::new_with_payload(PT_DATA1, MSG_FILE_DATA, 0, pl);
        let acts = engine.process_packet(&pkt);
        if i < 2 {
            assert!(acts.is_empty(), "no ack before the size is reached");
        } else {
            assert_eq!(3, acts.len());
            assert_eq!(&commands::ack_file_piece(1, true, f_id, 0), frame_of(&acts, 0));
            assert_eq!(&commands::file_done(2, f_id, 12), frame_of(&acts, 1));
            match &acts[2] {
                Action::SaveFile(id, bytes) => {
                    assert_eq!(f_id, *id);
                    assert_eq!(
                        &vec![10u8, 11, 12, 13, 20, 21, 22, 23, 30, 31, 32, 33],
                        bytes
                    );
                },
                other => panic!("expected a save action, got {:?}", action_name(other)),
            }
        }
    }

    // a duplicate of a stored chunk is ignored: the acks repeat, the save
    // does not
    let pl = file_data_payload(f_id, 0, 0, &data0);
    let pkt = TelloPacket::new_with_payload(PT_DATA1, MSG_FILE_DATA, 0, pl);
    let acts = engine.process_packet(&pkt);
    assert_eq!(2, acts.len());
    assert!(matches!(&acts[0], Action::Send(_)));
    assert!(matches!(&acts[1], Action::Send(_)));
    assert!(!acts.iter().any(|a| matches!(a, Action::SaveFile(_, _))));
}

// A full piece of eight chunks is acknowledged with done still false.
#[test]
fn photo_reassembly_full_piece_ack() {
    let mut engine = Engine::new();
    let f_id: u16 = 3;
    let pkt = TelloPacket::new_with_payload(
        PT_DATA1,
        MSG_FILE_SIZE,
        0,
        file_size_payload(f_id, 1000),
    );
    engine.process_packet(&pkt);

    let data = [1u8, 2, 3];
    for chunk in 0..8u32 {
        let pl = file_data_payload(f_id, 0, chunk, &data);
        let pkt = TelloPacket::new_with_payload(PT_DATA1, MSG_FILE_DATA, 0, pl);
        let acts = engine.process_packet(&pkt);
        if chunk < 7 {
            assert!(acts.is_empty());
        } else {
            assert_eq!(1, acts.len());
            assert_eq!(&commands::ack_file_piece(1, false, f_id, 0), frame_of(&acts, 0));
        }
    }
}

// A non-JPEG announcement is dropped without an acknowledgement.
#[test]
fn photo_unknown_type_dropped() {
    let mut engine = Engine::new();
    let mut pl = file_size_payload(9, 100);
    pl[0] = 2;
    let pkt = TelloPacket::new_with_payload(PT_DATA1, MSG_FILE_SIZE, 0, pl);
    let acts = engine.process_packet(&pkt);
    assert!(acts.is_empty());

    // chunks for a file never announced change nothing
    let pl = file_data_payload(9, 0, 0, &[1, 2, 3]);
    let pkt = TelloPacket::new_with_payload(PT_DATA1, MSG_FILE_DATA, 0, pl);
    let acts = engine.process_packet(&pkt);
    assert!(acts.is_empty());
}

// Stick loop: while flying, a tick yields a frame whose packed right-y axis
// carries exactly the raw value handed in.
#[test]
fn stick_loop_flying_encodes_axis() {
    let mut engine = Engine::new();
    assert!(engine.stick_tick(1024, 1024, 1024, 1024, false).is_none());

    let acts = engine.process_packet(&flight_packet(true));
    assert_eq!(1, acts.len());
    assert!(matches!(&acts[0], Action::PublishFlight(_)));
    assert!(engine.is_flying());

    let frame = engine
        .stick_tick(1024, 1684, 1024, 1024, false)
        .expect("a frame while flying");
    // payload starts at byte 9: six bytes of packed axes
    let mut packed: u64 = 0;
    for k in 0..6 {
        packed |= (frame[9 + k] as u64) << (8 * k);
    }
    assert_eq!(1024, packed & 0x7ff);
    assert_eq!(1684, (packed >> 11) & 0x7ff);
    assert_eq!(1024, (packed >> 22) & 0x7ff);
    assert_eq!(1024, (packed >> 33) & 0x7ff);

    // landing stops the stream
    let _ = engine.process_packet(&flight_packet(false));
    assert!(engine.stick_tick(1024, 1684, 1024, 1024, false).is_none());
}

// Video off/on: no SPS/PPS query while the flag is off, one per tick while
// it is on.
#[test]
fn video_toggle_gates_spspps_queries() {
    let mut engine = Engine::new();
    assert!(engine.video_tick().is_none());
    engine.toggle_video();
    let frame = engine.video_tick().expect("a query while video is on");
    assert_eq!(vec![204, 88, 0, 124, 96, 37, 0, 0, 0, 108, 149], frame);
    engine.toggle_video();
    assert!(engine.video_tick().is_none());
}

// Round trip: decoding a well-formed frame and re-encoding it reproduces
// the bytes, checksums included.
#[test]
fn decode_encode_round_trip() {
    let frames = [
        commands::do_takeoff(123),
        commands::do_land(123),
        commands::ack_file_piece(9, true, 0x1234, 7),
        commands::send_stick_update(1024, 1500, 400, 900, true, 1, 2, 3, 4),
    ];
    for frame in frames.iter() {
        let pkt = TelloPacket::from_buffer(frame).expect("well-formed frame");
        assert_eq!(frame, &pkt.to_buffer());
    }
}

// Decoded header fields of a known frame.
#[test]
fn decode_fields_of_golden_frame() {
    let frame = commands::do_takeoff(123);
    let pkt = TelloPacket::from_buffer(&frame).unwrap();
    assert_eq!(0x0054, pkt.message_id);
    assert_eq!(123, pkt.sequence);
    assert!(pkt.to_drone);
    assert!(!pkt.from_drone);
    assert_eq!(5, pkt.packet_type);
    assert_eq!(0, pkt.packet_subtype);
    assert!(pkt.payload.is_empty());
    assert_eq!(calculate_crc8(&frame[0..3]), pkt.crc8);
    assert_eq!(calculate_crc16(&frame[0..frame.len() - 2]), pkt.crc16);
}

// Buffers too short for a frame are decode failures.
#[test]
fn decode_rejects_short_buffers() {
    assert!(TelloPacket::from_buffer(&[]).is_none());
    assert!(TelloPacket::from_buffer(&[204, 88, 0, 124]).is_none());
    // size field claims more bytes than the buffer holds
    let mut frame = commands::do_takeoff(1);
    frame.pop();
    assert!(TelloPacket::from_buffer(&frame).is_none());
}

// Checksum vectors from the golden frames.
#[test]
fn crc_vectors() {
    assert_eq!(124, calculate_crc8(&[204, 88, 0]));
    assert_eq!(39, calculate_crc8(&[204, 96, 0]));
    let c16 = calculate_crc16(&[204, 88, 0, 124, 104, 84, 0, 123, 0]);
    assert_eq!(222, (c16 & 0xff) as u8);
    assert_eq!(157, (c16 >> 8) as u8);
    assert_eq!(0x77, calculate_crc8(&[]));
    assert_eq!(0x3692, calculate_crc16(&[]));
}

// Stick raw values stay inside the drone's accepted range.
#[test]
fn stick_clamp_range() {
    assert_eq!(RC_VAL_MAX, clamp_stick_raw(1684));
    assert_eq!(RC_VAL_MIN, clamp_stick_raw(364));
    assert_eq!(1024, clamp_stick_raw(1024));
    assert_eq!(RC_VAL_MAX, clamp_stick_raw(1_000_000));
    assert_eq!(RC_VAL_MIN, clamp_stick_raw(-5));
    // the scaled value of a full-deflection axis sample
    let v: f32 = 1.0;
    let x = ((v * (RC_VAL_MAX - RC_VAL_MIN) as f32) + (RC_VAL_MAX + RC_VAL_MIN) as f32) * 0.5;
    assert_eq!(1684, clamp_stick_raw(x as i64));
    let v: f32 = -1.0;
    let x = ((v * (RC_VAL_MAX - RC_VAL_MIN) as f32) + (RC_VAL_MAX + RC_VAL_MIN) as f32) * 0.5;
    assert_eq!(364, clamp_stick_raw(x as i64));
}

// Little-endian parsing of the file-data header, including the file id.
#[test]
fn file_chunk_parses_little_endian() {
    let pl = file_data_payload(0x1234, 0x01020304, 0x0a0b0c0d, &[1, 2, 3]);
    let chunk = FileChunk::new(&pl);
    assert_eq!(0x1234, chunk.f_id);
    assert_eq!(0x01020304, chunk.piece_num);
    assert_eq!(0x0a0b0c0d, chunk.chunk_num);
    assert_eq!(3, chunk.chunk_len);
    assert_eq!(vec![1, 2, 3], chunk.chunk_data);
}

// Little-endian parsing of the file-size announcement.
#[test]
fn file_internal_parses_announcement() {
    let pl = file_size_payload(0xabcd, 0x00010203);
    let file = FileInternal::new(&pl);
    assert_eq!(0xabcd, file.f_id);
    assert_eq!(0x00010203, file.expected_size);
    assert_eq!(0, file.accum_size);
}

// Flight-status fields, including the little-endian height.
#[test]
fn flight_data_fields() {
    let mut pl = vec![0u8; 24];
    pl[0] = 0x10;
    pl[1] = 0x01;  // height 0x0110
    pl[10] = 0b0000_0101;  // imu and down-visual
    pl[12] = 87;  // battery percentage
    pl[17] = 0b0000_0011;  // flying and on-ground
    pl[18] = 6;
    let fd = FlightData::new(&pl);
    assert_eq!(0x0110, fd.height);
    assert!(fd.imu_state);
    assert!(!fd.pressure_state);
    assert!(fd.down_visual_state);
    assert_eq!(87, fd.battery_percentage);
    assert!(fd.flying);
    assert!(fd.on_ground);
    assert_eq!(6, fd.fly_mode);
}

// Wi-Fi and light reports.
#[test]
fn wifi_and_light_reports() {
    let wd = WifiData::new(&vec![70, 3]);
    assert_eq!(70, wd.wifi_strength);
    assert_eq!(3, wd.wifi_interference);
    let ld = LightData::new(&vec![9]);
    assert_eq!(9, ld.light_strength);
}

// An empty or junk log payload decodes to nothing.
#[test]
fn log_decode_rejects_junk() {
    let log = LogData::new(&vec![]);
    assert!(log.imu.is_none());
    assert!(log.mvo.is_none());
    let log = LogData::new(&vec![0, 1, 2, 3, 4, 5, 6, 7, 8, 9]);
    assert!(log.imu.is_none());
    assert!(log.mvo.is_none());
}

// Byte utilities: little-endian readers, XOR deobfuscation, search.
#[test]
fn byte_utilities() {
    let buff = vec![0x34, 0x12, 0xff, 0xff];
    assert_eq!(0x1234, get_u16(&buff, 0, 1));
    assert_eq!(-1, get_i16(&buff, 2, 3));

    let out = decode_buffer(&vec![1, 2, 3, 4, 5], 0xff, 1, 3);
    assert_eq!(vec![2 ^ 0xff, 3 ^ 0xff, 4 ^ 0xff], out);
    // a record length past the end of the data is cut short
    let out = decode_buffer(&vec![1, 2, 3], 0x00, 2, 10);
    assert_eq!(vec![3], out);

    assert_eq!(Some(2), contains_any(&[9, 9, 1, 2, 3], &[1, 2]));
    assert_eq!(None, contains_any(&[9, 9, 1], &[1, 2]));
    assert_eq!(Some(0), contains_any(&[5, 5, 5], &[5]));

    assert_eq!(1024, js_int16_to_tello(1024));
}

// The sequence counter advances once per one-shot command and the frames
// carry it.
#[test]
fn sequence_advances_per_command() {
    let mut engine = Engine::new();
    let pl = vec![0u8, 0u8];
    let pkt = TelloPacket::new_with_payload(PT_DATA1, tello::packet::MSG_LOG_HEADER, 0, pl);
    let acts = engine.process_packet(&pkt);
    let first = frame_of(&acts, 0).clone();
    let acts = engine.process_packet(&pkt);
    let second = frame_of(&acts, 0).clone();
    let p1 = TelloPacket::from_buffer(&first).unwrap();
    let p2 = TelloPacket::from_buffer(&second).unwrap();
    assert_eq!(0, p1.sequence);
    assert_eq!(1, p2.sequence);
}

// A corrupted trailing checksum is a soft failure: the packet still comes
// back, carrying the wire's checksum for the caller to compare.
#[test]
fn decode_keeps_corrupted_checksums() {
    let mut frame = commands::do_takeoff(123);
    let n = frame.len();
    frame[n - 1] ^= 0xff;
    let pkt = TelloPacket::from_buffer(&frame).expect("corrupted frame still decodes");
    assert_ne!(calculate_crc16(&frame[0..n - 2]), pkt.crc16);
    assert_eq!(0x0054, pkt.message_id);
}

// Once connected, a datagram that does not open with the frame header is
// dropped, and a framed flight status flows through to the flying flag.
#[test]
fn datagram_dispatch_after_connect() {
    let mut engine = Engine::new();
    let ack: Vec<u8> = vec![99, 111, 110, 110, 95, 97, 99, 107, 58, 0, 0];
    engine.on_datagram(&ack);
    assert!(engine.is_connected());

    let junk: Vec<u8> = vec![0x55, 1, 2, 3, 4, 5, 6, 7, 8, 9, 10, 11];
    let acts = engine.on_datagram(&junk);
    assert!(acts.is_empty());
    assert!(!engine.is_flying());

    let frame = flight_packet(true).to_buffer();
    let acts = engine.on_datagram(&frame);
    assert_eq!(1, acts.len());
    assert!(matches!(&acts[0], Action::PublishFlight(_)));
    assert!(engine.is_flying());
}
