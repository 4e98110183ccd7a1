//! Golden frames for every command builder, checked byte for byte.

use tello::commands::{
    ack_file_piece, ack_file_size, bounce_off, bounce_on, cancel_land, connect, do_land,
    do_takeoff, file_done, flip_backward, flip_forward, flip_left, flip_right, palm_land,
    query_attitude, query_height_limit, query_low_battery_threshold, query_ssid, query_version,
    query_video_bitrate, query_video_spsfps, send_stick_update, set_low_battery_threshold,
    set_vbr, set_video_normal, set_video_wide, smart_video, take_picture, throw_takeoff,
    SmartVideoCmd, VBR,
};
use tello::packet::TelloPacket;

#[test]
fn test_do_takeoff() {
    let pkt = do_takeoff(123);
    assert_eq!(vec![204, 88, 0, 124, 104, 84, 0, 123, 0, 222, 157], pkt);
}

#[test]
fn test_throw_takeoff() {
    let pkt = throw_takeoff(123);
    assert_eq!(vec![204, 88, 0, 124, 72, 93, 0, 123, 0, 44, 4], pkt);
}

#[test]
fn test_do_land() {
    let pkt = do_land(123);
    assert_eq!(vec![204, 96, 0, 39, 104, 85, 0, 123, 0, 0, 0, 71], pkt);
}

#[test]
fn test_cancel_land() {
    let pkt = cancel_land(123);
    assert_eq!(vec![204, 96, 0, 39, 104, 85, 0, 123, 0, 1, 137, 86], pkt);
}

#[test]
fn test_palm_land() {
    let pkt = palm_land(123);
    assert_eq!(vec![204, 96, 0, 39, 104, 94, 0, 123, 0, 0, 236, 0], pkt);
}

#[test]
fn test_bounce_on() {
    let pkt = bounce_on(123);
    assert_eq!(vec![204, 96, 0, 39, 104, 83, 16, 123, 0, 48, 186, 142], pkt);
}

#[test]
fn test_bounce_off() {
    let pkt = bounce_off(123);
    assert_eq!(vec![204, 96, 0, 39, 104, 83, 16, 123, 0, 49, 51, 159], pkt);
}

#[test]
fn test_flips() {
    let pkt = flip_backward(123);
    assert_eq!(vec![204, 96, 0, 39, 112, 92, 0, 123, 0, 2, 158, 86], pkt);

    let pkt = flip_forward(123);
    assert_eq!(vec![204, 96, 0, 39, 112, 92, 0, 123, 0, 0, 140, 117], pkt);

    let pkt = flip_right(123);
    assert_eq!(vec![204, 96, 0, 39, 112, 92, 0, 123, 0, 3, 23, 71], pkt);

    let pkt = flip_left(123);
    assert_eq!(vec![204, 96, 0, 39, 112, 92, 0, 123, 0, 1, 5, 100], pkt);
}

#[test]
fn test_smart_video_commands() {
    let pkt = smart_video(123, SmartVideoCmd::Sv360);
    assert_eq!(vec![204, 96, 0, 39, 104, 128, 0, 123, 0, 4, 71, 216], pkt);

    let pkt = smart_video(123, SmartVideoCmd::SvCircle);
    assert_eq!(vec![204, 96, 0, 39, 104, 128, 0, 123, 0, 8, 43, 18], pkt);

    let pkt = smart_video(123, SmartVideoCmd::SvUpOut);
    assert_eq!(vec![204, 96, 0, 39, 104, 128, 0, 123, 0, 12, 15, 84], pkt);
}

#[test]
fn test_query_attitude() {
    let pkt = query_attitude(123);
    assert_eq!(vec![204, 88, 0, 124, 72, 89, 16, 123, 0, 85, 243], pkt);
}

#[test]
fn test_query_low_battery_threshold() {
    let pkt = query_low_battery_threshold(123);
    assert_eq!(vec![204, 88, 0, 124, 72, 87, 16, 123, 0, 23, 93], pkt);
}

#[test]
fn test_query_height_limit() {
    let pkt = query_height_limit(123);
    assert_eq!(vec![204, 88, 0, 124, 72, 86, 16, 123, 0, 172, 65], pkt);
}

#[test]
fn test_query_ssid() {
    let pkt = query_ssid(123);
    assert_eq!(vec![204, 88, 0, 124, 72, 17, 0, 123, 0, 175, 133], pkt);
}

#[test]
fn test_query_version() {
    let pkt = query_version(123);
    assert_eq!(vec![204, 88, 0, 124, 72, 69, 0, 123, 0, 85, 34], pkt);
}

#[test]
fn test_query_video_bitrate() {
    let pkt = query_video_bitrate(123);
    assert_eq!(vec![204, 88, 0, 124, 72, 40, 0, 123, 0, 62, 48], pkt);
}

#[test]
fn test_query_video_spsfps() {
    let pkt = query_video_spsfps();
    assert_eq!(vec![204, 88, 0, 124, 96, 37, 0, 0, 0, 108, 149], pkt);
}

#[test]
fn test_set_low_battery_threshold() {
    let pkt = set_low_battery_threshold(123, 20);
    assert_eq!(vec![204, 96, 0, 39, 104, 85, 16, 123, 0, 20, 4, 210], pkt);
}

#[test]
fn test_set_vbr() {
    let pkt = set_vbr(123, VBR::Vbr4M);
    assert_eq!(vec![204, 96, 0, 39, 104, 32, 0, 123, 0, 5, 10, 35], pkt);
}

#[test]
fn test_set_video_normal() {
    let pkt = set_video_normal(123);
    assert_eq!(vec![204, 96, 0, 39, 104, 49, 0, 123, 0, 0, 163, 203], pkt);
}

#[test]
fn test_set_video_wide() {
    let pkt = set_video_wide(123);
    assert_eq!(vec![204, 96, 0, 39, 104, 49, 0, 123, 0, 1, 42, 218], pkt);
}

#[test]
fn test_ack_log_header() {
    let id: &[u8; 2] = &[0x22, 0x33];
    let pkt = TelloPacket::ack_log(123, id).to_buffer();
    assert_eq!(
        vec![204, 112, 0, 203, 80, 80, 16, 123, 0, 0, 34, 51, 224, 179],
        pkt
    );
}

#[test]
fn test_take_picture() {
    let pkt = take_picture(123);
    assert_eq!(vec![204, 88, 0, 124, 104, 48, 0, 123, 0, 214, 118], pkt);
}

#[test]
fn test_ack_file_size() {
    let pkt = ack_file_size(123);
    assert_eq!(vec![204, 96, 0, 39, 80, 98, 0, 123, 0, 0, 133, 69], pkt);
}

#[test]
fn test_ack_file_piece() {
    let pkt = ack_file_piece(123, true, 0x1234, 0x56789abc);
    assert_eq!(
        vec![204, 144, 0, 190, 80, 99, 0, 123, 0, 1, 52, 18, 188, 154, 120, 86, 242, 179],
        pkt
    );
}

#[test]
fn test_file_done() {
    let pkt = file_done(123, 0xabcd, 0x12345678);
    assert_eq!(
        vec![204, 136, 0, 36, 80, 100, 0, 123, 0, 205, 171, 120, 86, 52, 18, 194, 163],
        pkt
    );
}

#[test]
fn test_connect() {
    let pkt = connect(8899);
    assert_eq!(vec![99, 111, 110, 110, 95, 114, 101, 113, 58, 195, 34], pkt);
}

#[test]
fn test_stick_update() {
    // stick centred
    let pkt = send_stick_update(1024, 1024, 1024, 1024, false, 20, 20, 30, 3209);
    assert_eq!(
        vec![204, 176, 0, 127, 96, 80, 0, 0, 0, 0, 4, 32, 0, 1, 8, 20, 20, 30, 137, 12, 49, 146],
        pkt
    );

    // forward (ry at maximum)
    let pkt = send_stick_update(1024, 1684, 1024, 1024, false, 20, 25, 4, 8614);
    assert_eq!(
        vec![
            204, 176, 0, 127, 96, 80, 0, 0, 0, 0, 164, 52, 0, 1, 8, 20, 25, 4, 166, 33, 127, 123
        ],
        pkt
    );

    // backward (ry at minimum)
    let pkt = send_stick_update(1024, 1024 - 660, 1024, 1024, false, 21, 21, 18, 10803);
    assert_eq!(
        vec![204, 176, 0, 127, 96, 80, 0, 0, 0, 0, 100, 11, 0, 1, 8, 21, 21, 18, 51, 42, 125, 0],
        pkt
    );

    // left (rx at minimum)
    let pkt = send_stick_update(1024 - 660, 1024, 1024, 1024, false, 21, 27, 31, 38430);
    assert_eq!(
        vec![
            204, 176, 0, 127, 96, 80, 0, 0, 0, 108, 1, 32, 0, 1, 8, 21, 27, 31, 30, 150, 29, 79
        ],
        pkt
    );

    // right (rx at maximum)
    let pkt = send_stick_update(1024 + 660, 1024, 1024, 1024, false, 21, 29, 34, 59594);
    assert_eq!(
        vec![
            204, 176, 0, 127, 96, 80, 0, 0, 0, 148, 6, 32, 0, 1, 8, 21, 29, 34, 202, 232, 122, 107
        ],
        pkt
    );

    // up (ly at maximum)
    let pkt = send_stick_update(1024, 1024, 1024, 1024 + 660, false, 21, 32, 50, 55246);
    assert_eq!(
        vec![
            204, 176, 0, 127, 96, 80, 0, 0, 0, 0, 4, 32, 165, 1, 8, 21, 32, 50, 206, 215, 176, 136
        ],
        pkt
    );

    // down (ly at minimum)
    let pkt = send_stick_update(1024, 1024, 1024, 1024 - 660, false, 21, 35, 28, 22354);
    assert_eq!(
        vec![204, 176, 0, 127, 96, 80, 0, 0, 0, 0, 4, 32, 91, 0, 8, 21, 35, 28, 82, 87, 235, 102],
        pkt
    );

    // turn clockwise (lx at maximum)
    let pkt = send_stick_update(1024, 1024, 1024 + 660, 1024, false, 21, 38, 29, 33174);
    assert_eq!(
        vec![
            204, 176, 0, 127, 96, 80, 0, 0, 0, 0, 4, 32, 0, 41, 13, 21, 38, 29, 150, 129, 201, 227
        ],
        pkt
    );

    // turn anticlockwise (lx at minimum)
    let pkt = send_stick_update(1024, 1024, 1024 - 660, 1024, false, 21, 41, 13, 43731);
    assert_eq!(
        vec![
            204, 176, 0, 127, 96, 80, 0, 0, 0, 0, 4, 32, 0, 217, 2, 21, 41, 13, 211, 170, 114, 217
        ],
        pkt
    );
}
