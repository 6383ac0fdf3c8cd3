//! The per-tick state of the session: phase, clocks, cameras, weather and
//! the best lap so far.

use vstd::prelude::*;
use vstd::std_specs::convert::FromSpecImpl;
use crate::accd_error::ProtocolError;
use crate::accd_lap_info::{default_lap_info, take_lap_info, ACCDLapInfo, LapInfoView};
use crate::accd_utils::{read_string, take_string};
use crate::accd_wire::{f32_at, has_bytes, i32_at, reads, u16_at, ByteCursor, WireFloat};

verus! {

/// Where a session stands between its start and its results.
#[derive(Clone, Copy, Debug, PartialEq, Eq, Structural)]
pub enum SessionPhase {
    NONE,
    Starting,
    PreFormation,
    FormationLap,
    PreSession,
    Session,
    SessionOver,
    PostSession,
    ResultUI,
    /// A tag that names no phase, with the tag itself.
    Unknown(u8),
}

impl From<u8> for SessionPhase {
    fn from(value: u8) -> (phase: Self) {
        match value {
            0 => SessionPhase::NONE,
            1 => SessionPhase::Starting,
            2 => SessionPhase::PreFormation,
            3 => SessionPhase::FormationLap,
            4 => SessionPhase::PreSession,
            5 => SessionPhase::Session,
            6 => SessionPhase::SessionOver,
            7 => SessionPhase::PostSession,
            8 => SessionPhase::ResultUI,
            _ => SessionPhase::Unknown(value),
        }
    }
}

/// The phase that a tag names.
pub open spec fn session_phase_of(value: u8) -> SessionPhase {
    match value {
        0 => SessionPhase::NONE,
        1 => SessionPhase::Starting,
        2 => SessionPhase::PreFormation,
        3 => SessionPhase::FormationLap,
        4 => SessionPhase::PreSession,
        5 => SessionPhase::Session,
        6 => SessionPhase::SessionOver,
        7 => SessionPhase::PostSession,
        8 => SessionPhase::ResultUI,
        _ => SessionPhase::Unknown(value),
    }
}

impl FromSpecImpl<u8> for SessionPhase {
    open spec fn obeys_from_spec() -> bool {
        true
    }

    open spec fn from_spec(value: u8) -> Self {
        session_phase_of(value)
    }
}

/// What a session is for.
#[derive(Clone, Copy, Debug, PartialEq, Eq, Structural)]
pub enum RaceSessionType {
    Practice,
    Qualifying,
    Superpole,
    Race,
    Hotlap,
    Hotstint,
    HotlapSuperpole,
    Replay,
    /// A tag that names no session type, with the tag itself.
    Unknown(u8),
}

impl From<u8> for RaceSessionType {
    fn from(value: u8) -> (kind: Self) {
        match value {
            0 => RaceSessionType::Practice,
            4 => RaceSessionType::Qualifying,
            9 => RaceSessionType::Superpole,
            10 => RaceSessionType::Race,
            11 => RaceSessionType::Hotlap,
            12 => RaceSessionType::Hotstint,
            13 => RaceSessionType::HotlapSuperpole,
            14 => RaceSessionType::Replay,
            _ => RaceSessionType::Unknown(value),
        }
    }
}

/// The session type that a tag names.
pub open spec fn race_session_type_of(value: u8) -> RaceSessionType {
    match value {
        0 => RaceSessionType::Practice,
        4 => RaceSessionType::Qualifying,
        9 => RaceSessionType::Superpole,
        10 => RaceSessionType::Race,
        11 => RaceSessionType::Hotlap,
        12 => RaceSessionType::Hotstint,
        13 => RaceSessionType::HotlapSuperpole,
        14 => RaceSessionType::Replay,
        _ => RaceSessionType::Unknown(value),
    }
}

impl FromSpecImpl<u8> for RaceSessionType {
    open spec fn obeys_from_spec() -> bool {
        true
    }

    open spec fn from_spec(value: u8) -> Self {
        race_session_type_of(value)
    }
}

/// The bit pattern of the single-precision number -1.
pub const MINUS_ONE_BITS: u32 = 0xBF80_0000;

/// The session as one update message describes it. Clocks are in
/// milliseconds, as the numbers that the message holds. The three weather
/// levels are in tenths: 5 stands for 0.5.
#[derive(Debug)]
pub struct ACCDRealtimeUpdate {
    pub event_index: i32,
    pub session_index: i32,
    pub phase: SessionPhase,
    pub session_time: WireFloat,
    pub remaining_time: WireFloat,
    pub time_of_day: WireFloat,
    pub rain_level_tenths: i16,
    pub clouds_tenths: i16,
    pub wetness_tenths: i16,
    pub best_session_lap: ACCDLapInfo,
    pub bestlap_car_index: u16,
    pub bestlap_driver_index: u16,
    pub focused_car_index: i32,
    pub active_camera_set: String,
    pub active_camera: String,
    pub is_replay_playing: bool,
    pub replay_session_time: WireFloat,
    pub replay_remaining_time: WireFloat,
    pub session_remaining_time: WireFloat,
    pub session_end_time: WireFloat,
    pub session_type: RaceSessionType,
    pub ambient_temp: u8,
    pub track_temp: u8,
    pub current_hud_page: String,
}

/// The mathematical value of an [`ACCDRealtimeUpdate`].
pub struct RealtimeUpdateView {
    pub event_index: i32,
    pub session_index: i32,
    pub phase: SessionPhase,
    pub session_time: WireFloat,
    pub remaining_time: WireFloat,
    pub time_of_day: WireFloat,
    pub rain_level_tenths: i16,
    pub clouds_tenths: i16,
    pub wetness_tenths: i16,
    pub best_session_lap: LapInfoView,
    pub bestlap_car_index: u16,
    pub bestlap_driver_index: u16,
    pub focused_car_index: i32,
    pub active_camera_set: Seq<char>,
    pub active_camera: Seq<char>,
    pub is_replay_playing: bool,
    pub replay_session_time: WireFloat,
    pub replay_remaining_time: WireFloat,
    pub session_remaining_time: WireFloat,
    pub session_end_time: WireFloat,
    pub session_type: RaceSessionType,
    pub ambient_temp: u8,
    pub track_temp: u8,
    pub current_hud_page: Seq<char>,
}

impl View for ACCDRealtimeUpdate {
    type V = RealtimeUpdateView;

    open spec fn view(&self) -> RealtimeUpdateView {
        RealtimeUpdateView {
            event_index: self.event_index,
            session_index: self.session_index,
            phase: self.phase,
            session_time: self.session_time,
            remaining_time: self.remaining_time,
            time_of_day: self.time_of_day,
            rain_level_tenths: self.rain_level_tenths,
            clouds_tenths: self.clouds_tenths,
            wetness_tenths: self.wetness_tenths,
            best_session_lap: self.best_session_lap@,
            bestlap_car_index: self.bestlap_car_index,
            bestlap_driver_index: self.bestlap_driver_index,
            focused_car_index: self.focused_car_index,
            active_camera_set: self.active_camera_set@,
            active_camera: self.active_camera@,
            is_replay_playing: self.is_replay_playing,
            replay_session_time: self.replay_session_time,
            replay_remaining_time: self.replay_remaining_time,
            session_remaining_time: self.session_remaining_time,
            session_end_time: self.session_end_time,
            session_type: self.session_type,
            ambient_temp: self.ambient_temp,
            track_temp: self.track_temp,
            current_hud_page: self.current_hud_page@,
        }
    }
}

/// The update that stands for "nothing received yet".
pub open spec fn default_realtime_update() -> RealtimeUpdateView {
    RealtimeUpdateView {
        event_index: -1i32,
        session_index: -1i32,
        phase: SessionPhase::NONE,
        session_time: WireFloat { bits: 0 },
        remaining_time: WireFloat { bits: 0 },
        time_of_day: WireFloat { bits: 0 },
        rain_level_tenths: -10i16,
        clouds_tenths: -10i16,
        wetness_tenths: -10i16,
        best_session_lap: default_lap_info(),
        bestlap_car_index: 65535,
        bestlap_driver_index: 65535,
        focused_car_index: -1i32,
        active_camera_set: Seq::empty(),
        active_camera: Seq::empty(),
        is_replay_playing: false,
        replay_session_time: WireFloat { bits: MINUS_ONE_BITS },
        replay_remaining_time: WireFloat { bits: MINUS_ONE_BITS },
        session_remaining_time: WireFloat { bits: 0 },
        session_end_time: WireFloat { bits: 0 },
        session_type: RaceSessionType::Unknown(255),
        ambient_temp: 255,
        track_temp: 255,
        current_hud_page: Seq::empty(),
    }
}

/// The session update at `at` and the offset behind it.
///
/// The layout: event and session index (16 bits each), session type and
/// phase (a byte each), session time and session end time, the focused
/// car, then three strings (camera set, camera, HUD page). A flag byte
/// follows; only if it is not zero do the two replay clocks stand behind
/// it. Then come the time of day, ambient and track temperature, clouds,
/// rain and wetness (a byte each), and the best lap of the session.
pub open spec fn take_realtime_update(s: Seq<u8>, at: int) -> Option<(RealtimeUpdateView, int)> {
    let camera_set = take_string(s, at + 18);
    let camera = take_string(s, camera_set.unwrap().1);
    let hud_page = take_string(s, camera.unwrap().1);
    let flag_at = hud_page.unwrap().1;
    let replaying = s[flag_at] > 0;
    let tail = if replaying {
        flag_at + 9
    } else {
        flag_at + 1
    };
    let lap = take_lap_info(s, tail + 9);
    if has_bytes(s, at, 18) && camera_set is Some && camera is Some && hud_page is Some
        && has_bytes(s, flag_at, 1) && has_bytes(s, tail, 9) && lap is Some {
        Some(
            (
                RealtimeUpdateView {
                    event_index: u16_at(s, at) as i32,
                    session_index: u16_at(s, at + 2) as i32,
                    session_type: race_session_type_of(s[at + 4]),
                    phase: session_phase_of(s[at + 5]),
                    session_time: f32_at(s, at + 6),
                    session_end_time: f32_at(s, at + 10),
                    focused_car_index: i32_at(s, at + 14),
                    active_camera_set: camera_set.unwrap().0,
                    active_camera: camera.unwrap().0,
                    current_hud_page: hud_page.unwrap().0,
                    is_replay_playing: replaying,
                    replay_session_time: if replaying {
                        f32_at(s, flag_at + 1)
                    } else {
                        WireFloat { bits: 0 }
                    },
                    replay_remaining_time: if replaying {
                        f32_at(s, flag_at + 5)
                    } else {
                        WireFloat { bits: 0 }
                    },
                    time_of_day: f32_at(s, tail),
                    ambient_temp: s[tail + 4],
                    track_temp: s[tail + 5],
                    clouds_tenths: s[tail + 6] as i16,
                    rain_level_tenths: s[tail + 7] as i16,
                    wetness_tenths: s[tail + 8] as i16,
                    best_session_lap: lap.unwrap().0,
                    remaining_time: WireFloat { bits: 0 },
                    session_remaining_time: WireFloat { bits: 0 },
                    bestlap_car_index: 0,
                    bestlap_driver_index: 0,
                },
                lap.unwrap().1,
            ),
        )
    } else {
        None
    }
}

impl ACCDRealtimeUpdate {
    /// Decodes a session update at the cursor.
    pub fn new(cur: &mut ByteCursor) -> (r: Result<ACCDRealtimeUpdate, ProtocolError>)
        ensures
            reads(
                *old(cur),
                *final(cur),
                r,
                take_realtime_update(old(cur).data@, old(cur).pos as int),
            ),
    {
        let mut c = *cur;
        let event_index: i32 = c.read_u16()? as i32;
        let session_index: i32 = c.read_u16()? as i32;
        let session_type = RaceSessionType::from(c.read_u8()?);
        let phase = SessionPhase::from(c.read_u8()?);
        let session_time = c.read_f32()?;
        let session_end_time = c.read_f32()?;
        let focused_car_index: i32 = c.read_i32()?;
        let active_camera_set = read_string(&mut c)?;
        let active_camera = read_string(&mut c)?;
        let current_hud_page = read_string(&mut c)?;
        let mut replay_session_time = WireFloat { bits: 0 };
        let mut replay_remaining_time = WireFloat { bits: 0 };
        let is_replay_playing = c.read_u8()? > 0;
        if is_replay_playing {
            replay_session_time = c.read_f32()?;
            replay_remaining_time = c.read_f32()?;
        }
        let time_of_day = c.read_f32()?;
        let ambient_temp: u8 = c.read_u8()?;
        let track_temp: u8 = c.read_u8()?;
        let clouds_tenths: i16 = c.read_u8()? as i16;
        let rain_level_tenths: i16 = c.read_u8()? as i16;
        let wetness_tenths: i16 = c.read_u8()? as i16;
        let best_session_lap = ACCDLapInfo::new(&mut c)?;
        *cur = c;
        Ok(
            ACCDRealtimeUpdate {
                event_index,
                session_index,
                phase,
                session_time,
                remaining_time: WireFloat { bits: 0 },
                time_of_day,
                rain_level_tenths,
                clouds_tenths,
                wetness_tenths,
                best_session_lap,
                bestlap_car_index: 0,
                bestlap_driver_index: 0,
                focused_car_index,
                active_camera_set,
                active_camera,
                is_replay_playing,
                replay_session_time,
                replay_remaining_time,
                session_remaining_time: WireFloat { bits: 0 },
                session_end_time,
                session_type,
                ambient_temp,
                track_temp,
                current_hud_page,
            },
        )
    }
}

impl Clone for ACCDRealtimeUpdate {
    fn clone(&self) -> (copy: Self)
        ensures
            copy@ == self@,
    {
        ACCDRealtimeUpdate {
            event_index: self.event_index,
            session_index: self.session_index,
            phase: self.phase,
            session_time: self.session_time,
            remaining_time: self.remaining_time,
            time_of_day: self.time_of_day,
            rain_level_tenths: self.rain_level_tenths,
            clouds_tenths: self.clouds_tenths,
            wetness_tenths: self.wetness_tenths,
            best_session_lap: self.best_session_lap.clone(),
            bestlap_car_index: self.bestlap_car_index,
            bestlap_driver_index: self.bestlap_driver_index,
            focused_car_index: self.focused_car_index,
            active_camera_set: self.active_camera_set.clone(),
            active_camera: self.active_camera.clone(),
            is_replay_playing: self.is_replay_playing,
            replay_session_time: self.replay_session_time,
            replay_remaining_time: self.replay_remaining_time,
            session_remaining_time: self.session_remaining_time,
            session_end_time: self.session_end_time,
            session_type: self.session_type,
            ambient_temp: self.ambient_temp,
            track_temp: self.track_temp,
            current_hud_page: self.current_hud_page.clone(),
        }
    }
}

impl Default for ACCDRealtimeUpdate {
    fn default() -> (update: Self)
        ensures
            update@ == default_realtime_update(),
    {
        ACCDRealtimeUpdate {
            event_index: -1,
            session_index: -1,
            phase: SessionPhase::NONE,
            session_time: WireFloat { bits: 0 },
            remaining_time: WireFloat { bits: 0 },
            time_of_day: WireFloat { bits: 0 },
            rain_level_tenths: -10,
            clouds_tenths: -10,
            wetness_tenths: -10,
            best_session_lap: ACCDLapInfo::default(),
            bestlap_car_index: 65535,
            bestlap_driver_index: 65535,
            focused_car_index: -1,
            active_camera_set: String::new(),
            active_camera: String::new(),
            is_replay_playing: false,
            replay_session_time: WireFloat { bits: MINUS_ONE_BITS },
            replay_remaining_time: WireFloat { bits: MINUS_ONE_BITS },
            session_remaining_time: WireFloat { bits: 0 },
            session_end_time: WireFloat { bits: 0 },
            session_type: RaceSessionType::Unknown(255),
            ambient_temp: 255,
            track_temp: 255,
            current_hud_page: String::new(),
        }
    }
}

} // verus!
