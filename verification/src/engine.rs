//! The sequential controller engine.  It owns the connection flag, the
//! command sequence counter, the flying flag, the video flag and the photo
//! transfers in progress.  Callers feed it inbound datagrams and tick it;
//! it answers with the actions to carry out: frames to send, telemetry to
//! publish, files to save.

use vstd::prelude::*;

use std::collections::HashMap;

use crate::bytes::{contains_any, spec_matches_at, spec_u16_le, spec_u32_le};
use crate::clock::{now_local, TimeFields};
use crate::commands;
use crate::commands::{spec_date_time_payload, spec_stick_payload};
use crate::files::{
    spec_add_chunk, spec_file_type, spec_pieces_bytes, ChunkModel, FileChunk, FileInternal,
    FileModel, FileType,
};
use crate::packet::{
    spec_ack_file_piece_model, spec_command_model, spec_file_done_model, spec_frame, TelloPacket,
    PacketModel, MSG_FILE_DATA, MSG_FILE_SIZE, MSG_FLIGHT_STATUS, MSG_HDR, MSG_LIGHT_STRENGTH,
    MSG_LOG_DATA, MSG_LOG_HEADER, MSG_QUERY_VIDEO_SPSPPS, MSG_SET_DATE_TIME, MSG_SET_STICK,
    MSG_WIFI_STRENGTH, PT_DATA1, PT_DATA2,
};
use crate::telemetry::{
    spec_flight_data, spec_log_decode, spec_wifi_data, FlightData, LightData, LogData, WifiData,
};

verus! {

broadcast use vstd::std_specs::hash::group_hash_axioms;

/// Smallest raw stick value the drone accepts.
pub const RC_VAL_MIN: i16 = 364;

/// Largest raw stick value the drone accepts.
pub const RC_VAL_MAX: i16 = 1684;

/// The next value of the wrapping 16-bit command sequence counter.
pub open spec fn spec_next_seq(s: u16) -> u16 {
    if s == 0xffff {
        0
    } else {
        (s + 1) as u16
    }
}

/// The sequence counter is strictly monotonic within a process run until it
/// wraps at the 16-bit boundary.
pub proof fn lemma_sequence_monotonic(s: u16)
    requires
        s < 0xffff,
    ensures
        spec_next_seq(s) > s,
{
}

/// The ASCII bytes of `conn_ack:`.
pub open spec fn spec_conn_ack() -> Seq<u8> {
    seq![99u8, 111u8, 110u8, 110u8, 95u8, 97u8, 99u8, 107u8, 58u8]
}

/// Whether a datagram contains the connection acknowledgement marker.
pub open spec fn spec_has_conn_ack(b: Seq<u8>) -> bool {
    exists|i: int| spec_matches_at(b, spec_conn_ack(), i)
}

/// One thing the caller must carry out for the engine.
pub enum Action {
    /// Send these bytes on the control socket.
    Send(Vec<u8>),
    /// Hand this flight status to the telemetry subscriber.
    PublishFlight(FlightData),
    /// Hand this Wi-Fi report to the telemetry subscriber.
    PublishWifi(WifiData),
    /// Hand this light report to the telemetry subscriber.
    PublishLight(LightData),
    /// Hand this flight-log decode to the telemetry subscriber.
    PublishLog(LogData),
    /// Write this completed photo, named after the file id.
    SaveFile(u16, Vec<u8>),
}

/// The mathematical image of an `Action`.
pub enum ActionModel {
    Send(Seq<u8>),
    PublishFlight(FlightData),
    PublishWifi(WifiData),
    PublishLight(LightData),
    PublishLog(LogData),
    SaveFile(u16, Seq<u8>),
}

impl View for Action {
    type V = ActionModel;

    open spec fn view(&self) -> ActionModel {
        match self {
            Action::Send(v) => ActionModel::Send(v@),
            Action::PublishFlight(d) => ActionModel::PublishFlight(*d),
            Action::PublishWifi(d) => ActionModel::PublishWifi(*d),
            Action::PublishLight(d) => ActionModel::PublishLight(*d),
            Action::PublishLog(d) => ActionModel::PublishLog(*d),
            Action::SaveFile(id, v) => ActionModel::SaveFile(*id, v@),
        }
    }
}

/// The images of a list of actions.
pub open spec fn spec_actions(s: Seq<Action>) -> Seq<ActionModel> {
    s.map_values(|a: Action| a@)
}

/// The controller state.
pub struct Engine {
    pub connected: bool,
    pub ctrl_seq: u16,
    pub flying: bool,
    pub video_on: bool,
    pub files: HashMap<u16, FileInternal>,
}

/// The mathematical image of the controller state.
pub struct EngineModel {
    pub connected: bool,
    pub ctrl_seq: u16,
    pub flying: bool,
    pub video_on: bool,
    pub files: Map<u16, FileModel>,
}

impl View for Engine {
    type V = EngineModel;

    open spec fn view(&self) -> EngineModel {
        EngineModel {
            connected: self.connected,
            ctrl_seq: self.ctrl_seq,
            flying: self.flying,
            video_on: self.video_on,
            files: self.files@.map_values(|f: FileInternal| f@),
        }
    }
}

impl EngineModel {
    /// Every transfer in progress is well formed and filed under its id.
    pub open spec fn wf(self) -> bool {
        forall|k: u16|
            self.files.contains_key(k) ==> (#[trigger] self.files[k]).wf() && self.files[k].f_id
                == k
    }
}

/// The transfer announced by a file-size payload.
pub open spec fn spec_new_file(pl: Seq<u8>) -> FileModel {
    FileModel {
        f_id: spec_u16_le(pl[5], pl[6]),
        file_type: spec_file_type(pl[0]),
        expected_size: spec_u32_le(pl[1], pl[2], pl[3], pl[4]),
        accum_size: 0,
        pieces: Seq::empty(),
    }
}

/// The chunk carried by a file-data payload.
pub open spec fn spec_chunk_of(pl: Seq<u8>) -> ChunkModel {
    ChunkModel {
        f_id: spec_u16_le(pl[0], pl[1]),
        piece_num: spec_u32_le(pl[2], pl[3], pl[4], pl[5]),
        chunk_num: spec_u32_le(pl[6], pl[7], pl[8], pl[9]),
        chunk_len: spec_u16_le(pl[10], pl[11]),
        chunk_data: pl.skip(12),
    }
}

/// The framed date-time reply built from one clock reading.
pub open spec fn spec_date_time_frame(seq: u16, t: TimeFields) -> Seq<u8> {
    spec_frame(
        spec_command_model(
            PT_DATA1,
            MSG_SET_DATE_TIME,
            seq,
            spec_date_time_payload(t.year, t.month, t.day, t.hour, t.minute, t.second, t.millis),
        ),
    )
}

/// The framed stick update built from one clock reading.
pub open spec fn spec_stick_frame(
    rx: i16,
    ry: i16,
    lx: i16,
    ly: i16,
    sports_mode: bool,
    t: TimeFields,
) -> Seq<u8> {
    spec_frame(
        spec_command_model(
            PT_DATA2,
            MSG_SET_STICK,
            0,
            spec_stick_payload(
                rx,
                ry,
                lx,
                ly,
                sports_mode,
                t.hour as u8,
                t.minute as u8,
                t.second as u8,
                (t.micros & 0xffff) as u16,
            ),
        ),
    )
}

/// What a file-size message does: a JPEG announcement is filed and
/// acknowledged; anything else is dropped.
pub open spec fn spec_step_file_size(
    pre: EngineModel,
    pl: Seq<u8>,
    post: EngineModel,
    acts: Seq<ActionModel>,
) -> bool {
    if pl.len() >= 7 && spec_file_type(pl[0]) == FileType::FtJPEG {
        let fm = spec_new_file(pl);
        &&& post == (EngineModel {
            ctrl_seq: spec_next_seq(pre.ctrl_seq),
            files: pre.files.insert(fm.f_id, fm),
            ..pre
        })
        &&& acts == seq![
            ActionModel::Send(
                spec_frame(spec_command_model(PT_DATA1, MSG_FILE_SIZE, pre.ctrl_seq, seq![0u8])),
            ),
        ]
    } else {
        post == pre && acts.len() == 0
    }
}

/// What a file-data message does: the chunk is filed into its transfer; a
/// piece that reaches all eight chunks is acknowledged; a transfer that
/// reaches its announced size is acknowledged as done, closed with a
/// file-done frame and, the first time only, saved.
pub open spec fn spec_step_file_data(
    pre: EngineModel,
    pl: Seq<u8>,
    post: EngineModel,
    acts: Seq<ActionModel>,
) -> bool {
    if pl.len() >= 14 && pre.files.contains_key(spec_chunk_of(pl).f_id) {
        let c = spec_chunk_of(pl);
        let f0 = pre.files[c.f_id];
        let f2 = spec_add_chunk(f0, c);
        let piece_full = c.piece_num < f2.pieces.len() && f2.pieces[c.piece_num as int].num_chunks
            == 8;
        let done = f2.complete();
        let fresh = done && !f0.complete();
        let s0 = pre.ctrl_seq;
        let s1 = if piece_full {
            spec_next_seq(s0)
        } else {
            s0
        };
        let s2 = spec_next_seq(s1);
        let piece_acks = if piece_full {
            seq![
                ActionModel::Send(
                    spec_frame(spec_ack_file_piece_model(s0, false, c.f_id, c.piece_num)),
                ),
            ]
        } else {
            Seq::<ActionModel>::empty()
        };
        let done_acks = if done {
            seq![
                ActionModel::Send(
                    spec_frame(spec_ack_file_piece_model(s1, true, c.f_id, c.piece_num)),
                ),
                ActionModel::Send(spec_frame(spec_file_done_model(s2, c.f_id, f2.accum_size))),
            ]
        } else {
            Seq::<ActionModel>::empty()
        };
        let saves = if fresh {
            seq![ActionModel::SaveFile(c.f_id, spec_pieces_bytes(f2.pieces))]
        } else {
            Seq::<ActionModel>::empty()
        };
        &&& post == (EngineModel {
            ctrl_seq: if done {
                spec_next_seq(s2)
            } else {
                s1
            },
            files: pre.files.insert(c.f_id, f2),
            ..pre
        })
        &&& acts == piece_acks + done_acks + saves
    } else {
        post == pre && acts.len() == 0
    }
}

/// What one decoded packet does to the engine.  Unknown message ids, and
/// payloads too short for their message, change nothing.
pub open spec fn spec_step(
    pre: EngineModel,
    pkt: PacketModel,
    post: EngineModel,
    acts: Seq<ActionModel>,
) -> bool {
    let pl = pkt.payload;
    if pkt.message_id == MSG_FILE_SIZE {
        spec_step_file_size(pre, pl, post, acts)
    } else if pkt.message_id == MSG_FILE_DATA {
        spec_step_file_data(pre, pl, post, acts)
    } else if pkt.message_id == MSG_FLIGHT_STATUS {
        if pl.len() >= 24 {
            let fd = spec_flight_data(pl);
            &&& post == (EngineModel { flying: fd.flying, ..pre })
            &&& acts == seq![ActionModel::PublishFlight(fd)]
        } else {
            post == pre && acts.len() == 0
        }
    } else if pkt.message_id == MSG_LIGHT_STRENGTH {
        if pl.len() >= 1 {
            &&& post == pre
            &&& acts.len() == 1
            &&& (acts[0] matches ActionModel::PublishLight(ld) && ld.light_strength == pl[0])
        } else {
            post == pre && acts.len() == 0
        }
    } else if pkt.message_id == MSG_LOG_DATA {
        let dec = spec_log_decode(pl);
        &&& post == pre
        &&& (if dec.0 is Some || dec.1 is Some {
            acts == seq![ActionModel::PublishLog(LogData { imu: dec.0, mvo: dec.1 })]
        } else {
            acts.len() == 0
        })
    } else if pkt.message_id == MSG_LOG_HEADER {
        if pl.len() >= 2 {
            &&& post == (EngineModel { ctrl_seq: spec_next_seq(pre.ctrl_seq), ..pre })
            &&& acts == seq![
                ActionModel::Send(
                    spec_frame(
                        spec_command_model(
                            PT_DATA1,
                            MSG_LOG_HEADER,
                            pre.ctrl_seq,
                            seq![0u8, pl[0], pl[1]],
                        ),
                    ),
                ),
            ]
        } else {
            post == pre && acts.len() == 0
        }
    } else if pkt.message_id == MSG_SET_DATE_TIME {
        &&& post == (EngineModel { ctrl_seq: spec_next_seq(pre.ctrl_seq), ..pre })
        &&& acts.len() == 1
        &&& exists|t: TimeFields|
            t.wf() && acts[0] == ActionModel::Send(#[trigger] spec_date_time_frame(
                pre.ctrl_seq,
                t,
            ))
    } else if pkt.message_id == MSG_WIFI_STRENGTH {
        if pl.len() >= 2 {
            &&& post == pre
            &&& acts == seq![ActionModel::PublishWifi(spec_wifi_data(pl))]
        } else {
            post == pre && acts.len() == 0
        }
    } else {
        post == pre && acts.len() == 0
    }
}

/// A photo is only ever saved at the moment its transfer reaches the
/// announced size: whenever a file-data step emits a save, the stored bytes
/// belong to a transfer whose accumulated size equals its expected size.
pub proof fn lemma_saved_file_reaches_expected_size(
    pre: EngineModel,
    pl: Seq<u8>,
    post: EngineModel,
    acts: Seq<ActionModel>,
    i: int,
)
    requires
        spec_step_file_data(pre, pl, post, acts),
        0 <= i < acts.len(),
        acts[i] is SaveFile,
    ensures
        post.files[spec_chunk_of(pl).f_id].complete(),
        acts[i] == ActionModel::SaveFile(
            spec_chunk_of(pl).f_id,
            spec_pieces_bytes(post.files[spec_chunk_of(pl).f_id].pieces),
        ),
{
}

/// Clamps an already scaled stick sample into the raw range the drone
/// accepts; a sample inside the range passes through unchanged.
pub fn clamp_stick_raw(x: i64) -> (r: i16)
    ensures
        RC_VAL_MIN <= r <= RC_VAL_MAX,
        x < RC_VAL_MIN ==> r == RC_VAL_MIN,
        x > RC_VAL_MAX ==> r == RC_VAL_MAX,
        RC_VAL_MIN <= x <= RC_VAL_MAX ==> r == x,
{
    if x < RC_VAL_MIN as i64 {
        RC_VAL_MIN
    } else if x > RC_VAL_MAX as i64 {
        RC_VAL_MAX
    } else {
        x as i16
    }
}

impl Engine {
    pub fn new() -> (r: Self)
        ensures
            r@.connected == false,
            r@.ctrl_seq == 0,
            r@.flying == false,
            r@.video_on == false,
            r@.files == Map::<u16, FileModel>::empty(),
            r@.wf(),
    {
        let r = Engine {
            connected: false,
            ctrl_seq: 0,
            flying: false,
            video_on: false,
            files: HashMap::new(),
        };
        proof {
            assert(r@.files =~= Map::<u16, FileModel>::empty());
        }
        r
    }

    /// Hands out the current sequence number and steps the counter.
    pub fn next_seq(&mut self) -> (r: u16)
        ensures
            r == old(self)@.ctrl_seq,
            final(self)@ == (EngineModel {
                ctrl_seq: spec_next_seq(old(self)@.ctrl_seq),
                ..old(self)@
            }),
    {
        let r = self.ctrl_seq;
        self.ctrl_seq = if r == 0xffff {
            0
        } else {
            r + 1
        };
        r
    }

    pub fn is_connected(&self) -> (r: bool)
        ensures
            r == self@.connected,
    {
        self.connected
    }

    pub fn is_flying(&self) -> (r: bool)
        ensures
            r == self@.flying,
    {
        self.flying
    }

    /// Flips the flag the periodic SPS/PPS querier reads.
    pub fn toggle_video(&mut self)
        ensures
            final(self)@ == (EngineModel { video_on: !old(self)@.video_on, ..old(self)@ }),
    {
        self.video_on = !self.video_on;
    }

    /// One tick of the video poller: a SPS/PPS query exactly when video is
    /// on, and nothing otherwise.
    pub fn video_tick(&self) -> (r: Option<Vec<u8>>)
        ensures
            self@.video_on ==> (r matches Some(f) && f@ == spec_frame(
                spec_command_model(PT_DATA2, MSG_QUERY_VIDEO_SPSPPS, 0, Seq::<u8>::empty()),
            )),
            !self@.video_on ==> r is None,
    {
        if self.video_on {
            Some(commands::query_video_spsfps())
        } else {
            None
        }
    }

    /// One tick of the stick sender: a stick-update frame stamped with the
    /// current time exactly while flying, and nothing otherwise.
    pub fn stick_tick(&self, rx: i16, ry: i16, lx: i16, ly: i16, sports_mode: bool) -> (r: Option<
        Vec<u8>,
    >)
        ensures
            !self@.flying ==> r is None,
            self@.flying ==> (r matches Some(f) && exists|t: TimeFields|
                t.wf() && f@ == #[trigger] spec_stick_frame(rx, ry, lx, ly, sports_mode, t)),
    {
        if !self.flying {
            return None;
        }
        let t = now_local();
        let ms = (t.micros & 0xffff) as u16;
        let frame = commands::send_stick_update(
            rx,
            ry,
            lx,
            ly,
            sports_mode,
            t.hour as u8,
            t.minute as u8,
            t.second as u8,
            ms,
        );
        proof {
            assert(frame@ == spec_stick_frame(rx, ry, lx, ly, sports_mode, t));
        }
        Some(frame)
    }

    /// Dispatches one decoded packet: telemetry is decoded and published,
    /// photo chunks are filed and acknowledged, log headers and date-time
    /// requests are answered.
    #[verifier::rlimit(80)]
    pub fn process_packet(&mut self, pkt: &TelloPacket) -> (actions: Vec<Action>)
        requires
            old(self)@.wf(),
        ensures
            final(self)@.wf(),
            spec_step(old(self)@, pkt@, final(self)@, spec_actions(actions@)),
    {
        let mut actions: Vec<Action> = Vec::new();
        if pkt.message_id == MSG_FILE_SIZE {
            if pkt.payload.len() >= 7 {
                let file = FileInternal::new(&pkt.payload);
                if matches!(file.file_type, FileType::FtJPEG) {
                    let f_id = file.f_id;
                    let ghost pre = self@;
                    let ghost fm = spec_new_file(pkt@.payload);
                    let s = self.next_seq();
                    actions.push(Action::Send(commands::ack_file_size(s)));
                    proof {
                        assert(file@ == fm);
                    }
                    self.files.insert(f_id, file);
                    proof {
                        assert(self@.files =~= pre.files.insert(f_id, fm));
                        assert(self@ == (EngineModel {
                            ctrl_seq: spec_next_seq(pre.ctrl_seq),
                            files: pre.files.insert(fm.f_id, fm),
                            ..pre
                        }));
                        assert(spec_actions(actions@) =~= seq![
                            ActionModel::Send(
                                spec_frame(
                                    spec_command_model(
                                        PT_DATA1,
                                        MSG_FILE_SIZE,
                                        pre.ctrl_seq,
                                        seq![0u8],
                                    ),
                                ),
                            ),
                        ]);
                        assert forall|k: u16| self@.files.contains_key(k) implies (
                        #[trigger] self@.files[k]).wf() && self@.files[k].f_id == k by {
                            if k != f_id {
                                assert(pre.files.contains_key(k));
                            }
                        }
                    }
                }
            }
        } else if pkt.message_id == MSG_FILE_DATA {
            if pkt.payload.len() >= 14 {
                let chunk = FileChunk::new(&pkt.payload);
                proof {
                    assert(chunk@ == spec_chunk_of(pkt@.payload));
                }
                let f_id = chunk.f_id;
                let piece_no = chunk.piece_num;
                match self.files.remove(&f_id) {
                    Some(mut file) => {
                        let ghost pre = old(self)@;
                        let ghost c = spec_chunk_of(pkt@.payload);
                        let ghost f0 = file@;
                        let ghost files_mid = self@.files;
                        proof {
                            assert(pre.files.contains_key(c.f_id));
                            assert(f0 == pre.files[c.f_id]);
                            assert(f0.wf());
                            assert(files_mid =~= pre.files.remove(c.f_id));
                        }
                        let was_complete = file.accum_size == file.expected_size;
                        let res = file.add_chunk(chunk);
                        let ghost f2 = spec_add_chunk(f0, c);
                        proof {
                            assert(file@ == f2);
                        }
                        if res.piece_complete {
                            let s = self.next_seq();
                            actions.push(
                                Action::Send(commands::ack_file_piece(s, false, f_id, piece_no)),
                            );
                        }
                        if res.file_complete {
                            let s1 = self.next_seq();
                            actions.push(
                                Action::Send(commands::ack_file_piece(s1, true, f_id, piece_no)),
                            );
                            let s2 = self.next_seq();
                            actions.push(
                                Action::Send(commands::file_done(s2, f_id, file.accum_size)),
                            );
                            if !was_complete {
                                let data = file.assemble();
                                actions.push(Action::SaveFile(f_id, data));
                            }
                        }
                        self.files.insert(f_id, file);
                        proof {
                            let piece_full = c.piece_num < f2.pieces.len()
                                && f2.pieces[c.piece_num as int].num_chunks == 8;
                            let done = f2.complete();
                            let fresh = done && !f0.complete();
                            let s0 = pre.ctrl_seq;
                            let s1 = if piece_full {
                                spec_next_seq(s0)
                            } else {
                                s0
                            };
                            let s2 = spec_next_seq(s1);
                            let piece_acks = if piece_full {
                                seq![
                                    ActionModel::Send(
                                        spec_frame(
                                            spec_ack_file_piece_model(
                                                s0,
                                                false,
                                                c.f_id,
                                                c.piece_num,
                                            ),
                                        ),
                                    ),
                                ]
                            } else {
                                Seq::<ActionModel>::empty()
                            };
                            let done_acks = if done {
                                seq![
                                    ActionModel::Send(
                                        spec_frame(
                                            spec_ack_file_piece_model(
                                                s1,
                                                true,
                                                c.f_id,
                                                c.piece_num,
                                            ),
                                        ),
                                    ),
                                    ActionModel::Send(
                                        spec_frame(
                                            spec_file_done_model(s2, c.f_id, f2.accum_size),
                                        ),
                                    ),
                                ]
                            } else {
                                Seq::<ActionModel>::empty()
                            };
                            let saves = if fresh {
                                seq![ActionModel::SaveFile(c.f_id, spec_pieces_bytes(f2.pieces))]
                            } else {
                                Seq::<ActionModel>::empty()
                            };
                            assert(spec_actions(actions@) =~= piece_acks + done_acks + saves);
                            assert(self@.files =~= files_mid.insert(c.f_id, f2));
                            assert(files_mid.insert(c.f_id, f2) =~= pre.files.insert(c.f_id, f2));
                            assert(self@.files =~= pre.files.insert(c.f_id, f2));
                            assert(self@ == (EngineModel {
                                ctrl_seq: if done {
                                    spec_next_seq(s2)
                                } else {
                                    s1
                                },
                                files: pre.files.insert(c.f_id, f2),
                                ..pre
                            }));
                            assert(spec_step_file_data(
                                pre,
                                pkt@.payload,
                                self@,
                                spec_actions(actions@),
                            ));
                            assert forall|k: u16| self@.files.contains_key(k) implies (
                            #[trigger] self@.files[k]).wf() && self@.files[k].f_id == k by {
                                if k != c.f_id {
                                    assert(pre.files.contains_key(k));
                                }
                            }
                        }
                    },
                    None => {
                        proof {
                            assert(self@.files =~= old(self)@.files);
                            assert(self@ == old(self)@);
                        }
                    },
                }
            }
        } else if pkt.message_id == MSG_FLIGHT_STATUS {
            if pkt.payload.len() >= 24 {
                let fd = FlightData::new(&pkt.payload);
                self.flying = fd.flying;
                actions.push(Action::PublishFlight(fd));
                proof {
                    assert(spec_actions(actions@) =~= seq![ActionModel::PublishFlight(fd)]);
                }
            }
        } else if pkt.message_id == MSG_LIGHT_STRENGTH {
            if pkt.payload.len() >= 1 {
                let ld = LightData::new(&pkt.payload);
                actions.push(Action::PublishLight(ld));
            }
        } else if pkt.message_id == MSG_LOG_DATA {
            let log = LogData::new(&pkt.payload);
            if log.imu.is_some() || log.mvo.is_some() {
                actions.push(Action::PublishLog(log));
                proof {
                    let dec = spec_log_decode(pkt@.payload);
                    assert(log == (LogData { imu: dec.0, mvo: dec.1 }));
                    assert(spec_actions(actions@) =~= seq![ActionModel::PublishLog(log)]);
                }
            }
        } else if pkt.message_id == MSG_LOG_HEADER {
            if pkt.payload.len() >= 2 {
                let ghost pre = self@;
                let s = self.next_seq();
                let id: [u8; 2] = [pkt.payload[0], pkt.payload[1]];
                proof {
                    assert(id@[0] == pkt@.payload[0]);
                    assert(id@[1] == pkt@.payload[1]);
                }
                let frame = TelloPacket::ack_log(s, &id).to_buffer();
                actions.push(Action::Send(frame));
                proof {
                    assert(spec_actions(actions@) =~= seq![
                        ActionModel::Send(
                            spec_frame(
                                spec_command_model(
                                    PT_DATA1,
                                    MSG_LOG_HEADER,
                                    pre.ctrl_seq,
                                    seq![0u8, pkt@.payload[0], pkt@.payload[1]],
                                ),
                            ),
                        ),
                    ]);
                }
            }
        } else if pkt.message_id == MSG_SET_DATE_TIME {
            let ghost pre = self@;
            let t = now_local();
            let s = self.next_seq();
            let frame = commands::send_date_time(
                s,
                t.year,
                t.month,
                t.day,
                t.hour,
                t.minute,
                t.second,
                t.millis,
            );
            proof {
                assert(frame@ == spec_date_time_frame(pre.ctrl_seq, t));
            }
            actions.push(Action::Send(frame));
            proof {
                assert(spec_actions(actions@)[0] == ActionModel::Send(
                    spec_date_time_frame(pre.ctrl_seq, t),
                ));
            }
        } else if pkt.message_id == MSG_WIFI_STRENGTH {
            if pkt.payload.len() >= 2 {
                let wd = WifiData::new(&pkt.payload);
                actions.push(Action::PublishWifi(wd));
                proof {
                    assert(spec_actions(actions@) =~= seq![ActionModel::PublishWifi(wd)]);
                }
            }
        }
        actions
    }

    /// Takes one inbound control datagram.  Until connected, an 11-byte
    /// datagram containing `conn_ack:` flips the connection flag and
    /// anything else that size is dropped.  Once connected, a datagram that
    /// does not open with the frame header, or is too short for its size
    /// field, is dropped; everything else is decoded and dispatched.
    pub fn on_datagram(&mut self, datagram: &[u8]) -> (actions: Vec<Action>)
        requires
            old(self)@.wf(),
        ensures
            final(self)@.wf(),
            (!old(self)@.connected && datagram@.len() == 11) ==> (final(self)@ == (EngineModel {
                connected: spec_has_conn_ack(datagram@),
                ..old(self)@
            }) && actions@.len() == 0),
            (old(self)@.connected || datagram@.len() != 11) ==> {
                if datagram@.len() == 0 || datagram@[0] != MSG_HDR || !crate::packet::spec_decode_ok(
                    datagram@,
                ) {
                    final(self)@ == old(self)@ && actions@.len() == 0
                } else {
                    spec_step(
                        old(self)@,
                        crate::packet::spec_decode(datagram@),
                        final(self)@,
                        spec_actions(actions@),
                    )
                }
            },
    {
        if !self.connected && datagram.len() == 11 {
            let needle: [u8; 9] = [99, 111, 110, 110, 95, 97, 99, 107, 58];
            proof {
                assert(needle@ =~= spec_conn_ack());
            }
            if contains_any(datagram, needle.as_slice()).is_some() {
                self.connected = true;
            }
            return Vec::new();
        }
        if datagram.len() == 0 {
            return Vec::new();
        }
        if datagram[0] != MSG_HDR {
            return Vec::new();
        }
        match TelloPacket::from_buffer(datagram) {
            Some(pkt) => self.process_packet(&pkt),
            None => Vec::new(),
        }
    }
}

} // verus!
