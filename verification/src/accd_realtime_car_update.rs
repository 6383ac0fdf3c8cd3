//! The per-tick state of one car: where it is, how fast, in which place,
//! and its best, last and current lap.

use vstd::prelude::*;
use vstd::std_specs::convert::FromSpecImpl;
use crate::accd_error::ProtocolError;
use crate::accd_lap_info::{default_lap_info, take_lap_info, ACCDLapInfo, LapInfoView};
use crate::accd_wire::{f32_at, has_bytes, i32_at, reads, u16_at, ByteCursor, WireFloat};

verus! {

/// Where on the circuit a car is.
#[derive(Clone, Copy, Debug, PartialEq, Eq, Structural)]
pub enum CarLocationEnum {
    NONE,
    Track,
    Pitlane,
    PitEntry,
    PitExit,
    /// A tag that names no location, with the tag itself.
    Unknown(u8),
}

impl From<u8> for CarLocationEnum {
    fn from(value: u8) -> (location: Self) {
        match value {
            0 => CarLocationEnum::NONE,
            1 => CarLocationEnum::Track,
            2 => CarLocationEnum::Pitlane,
            3 => CarLocationEnum::PitEntry,
            4 => CarLocationEnum::PitExit,
            _ => CarLocationEnum::Unknown(value),
        }
    }
}

/// The location that a tag names.
pub open spec fn car_location_of(value: u8) -> CarLocationEnum {
    match value {
        0 => CarLocationEnum::NONE,
        1 => CarLocationEnum::Track,
        2 => CarLocationEnum::Pitlane,
        3 => CarLocationEnum::PitEntry,
        4 => CarLocationEnum::PitExit,
        _ => CarLocationEnum::Unknown(value),
    }
}

impl FromSpecImpl<u8> for CarLocationEnum {
    open spec fn obeys_from_spec() -> bool {
        true
    }

    open spec fn from_spec(value: u8) -> Self {
        car_location_of(value)
    }
}

/// One car as one update message describes it.
#[derive(Debug)]
pub struct ACCDRealtimeCarUpdate {
    pub car_index: i32,
    pub driver_index: i32,
    pub gear: i32,
    pub world_pos_x: WireFloat,
    pub world_pos_y: WireFloat,
    pub yaw: WireFloat,
    pub car_location: CarLocationEnum,
    pub kmh: i32,
    pub position: i32,
    pub track_position: i32,
    pub spline_position: WireFloat,
    pub delta: i32,
    pub best_session_lap: ACCDLapInfo,
    pub last_lap: ACCDLapInfo,
    pub current_lap: ACCDLapInfo,
    pub laps: i32,
    pub cup_position: u16,
    pub driver_count: u8,
}

/// The mathematical value of an [`ACCDRealtimeCarUpdate`].
pub struct RealtimeCarUpdateView {
    pub car_index: i32,
    pub driver_index: i32,
    pub gear: i32,
    pub world_pos_x: WireFloat,
    pub world_pos_y: WireFloat,
    pub yaw: WireFloat,
    pub car_location: CarLocationEnum,
    pub kmh: i32,
    pub position: i32,
    pub track_position: i32,
    pub spline_position: WireFloat,
    pub delta: i32,
    pub best_session_lap: LapInfoView,
    pub last_lap: LapInfoView,
    pub current_lap: LapInfoView,
    pub laps: i32,
    pub cup_position: u16,
    pub driver_count: u8,
}

impl View for ACCDRealtimeCarUpdate {
    type V = RealtimeCarUpdateView;

    open spec fn view(&self) -> RealtimeCarUpdateView {
        RealtimeCarUpdateView {
            car_index: self.car_index,
            driver_index: self.driver_index,
            gear: self.gear,
            world_pos_x: self.world_pos_x,
            world_pos_y: self.world_pos_y,
            yaw: self.yaw,
            car_location: self.car_location,
            kmh: self.kmh,
            position: self.position,
            track_position: self.track_position,
            spline_position: self.spline_position,
            delta: self.delta,
            best_session_lap: self.best_session_lap@,
            last_lap: self.last_lap@,
            current_lap: self.current_lap@,
            laps: self.laps,
            cup_position: self.cup_position,
            driver_count: self.driver_count,
        }
    }
}

/// The update that stands for "nothing received yet".
pub open spec fn default_realtime_car_update() -> RealtimeCarUpdateView {
    RealtimeCarUpdateView {
        car_index: -1i32,
        driver_index: -1i32,
        gear: -1000i32,
        world_pos_x: WireFloat { bits: 0 },
        world_pos_y: WireFloat { bits: 0 },
        yaw: WireFloat { bits: 0 },
        car_location: CarLocationEnum::Unknown(255),
        kmh: -1i32,
        position: -1i32,
        track_position: -1i32,
        spline_position: WireFloat { bits: 0 },
        delta: 0,
        best_session_lap: default_lap_info(),
        last_lap: default_lap_info(),
        current_lap: default_lap_info(),
        laps: -1i32,
        cup_position: 0,
        driver_count: 255,
    }
}

/// The body of a car update at `at` and the offset behind it; the car and
/// driver index and the driver count stand before it in the message and
/// are handed in.
///
/// The layout: gear (a byte, one more than the gear), world position x and
/// y, yaw, location (a byte), speed, position, cup position and track
/// position (16 bits each), spline position, laps (16 bits), delta, and
/// three laps: best of the session, last, current.
pub open spec fn take_realtime_car_update(
    s: Seq<u8>,
    at: int,
    car_index: i32,
    driver_index: i32,
    driver_count: u8,
) -> Option<(RealtimeCarUpdateView, int)> {
    let best = take_lap_info(s, at + 32);
    let last = take_lap_info(s, best.unwrap().1);
    let current = take_lap_info(s, last.unwrap().1);
    if has_bytes(s, at, 32) && best is Some && last is Some && current is Some {
        Some(
            (
                RealtimeCarUpdateView {
                    car_index,
                    driver_index,
                    driver_count,
                    gear: (s[at] as int - 1) as i32,
                    world_pos_x: f32_at(s, at + 1),
                    world_pos_y: f32_at(s, at + 5),
                    yaw: f32_at(s, at + 9),
                    car_location: car_location_of(s[at + 13]),
                    kmh: u16_at(s, at + 14) as i32,
                    position: u16_at(s, at + 16) as i32,
                    cup_position: u16_at(s, at + 18),
                    track_position: u16_at(s, at + 20) as i32,
                    spline_position: f32_at(s, at + 22),
                    laps: u16_at(s, at + 26) as i32,
                    delta: i32_at(s, at + 28),
                    best_session_lap: best.unwrap().0,
                    last_lap: last.unwrap().0,
                    current_lap: current.unwrap().0,
                },
                current.unwrap().1,
            ),
        )
    } else {
        None
    }
}

impl ACCDRealtimeCarUpdate {
    /// Decodes the body of a car update at the cursor.
    pub fn new(cur: &mut ByteCursor, car_index: i32, driver_index: i32, driver_count: u8) -> (r:
        Result<ACCDRealtimeCarUpdate, ProtocolError>)
        ensures
            reads(
                *old(cur),
                *final(cur),
                r,
                take_realtime_car_update(
                    old(cur).data@,
                    old(cur).pos as int,
                    car_index,
                    driver_index,
                    driver_count,
                ),
            ),
    {
        let mut c = *cur;
        let gear: i32 = c.read_u8()? as i32 - 1;
        let world_pos_x = c.read_f32()?;
        let world_pos_y = c.read_f32()?;
        let yaw = c.read_f32()?;
        let car_location = CarLocationEnum::from(c.read_u8()?);
        let kmh: i32 = c.read_u16()? as i32;
        let position: i32 = c.read_u16()? as i32;
        let cup_position: u16 = c.read_u16()?;
        let track_position: i32 = c.read_u16()? as i32;
        let spline_position = c.read_f32()?;
        let laps: i32 = c.read_u16()? as i32;
        let delta: i32 = c.read_i32()?;
        let best_session_lap = ACCDLapInfo::new(&mut c)?;
        let last_lap = ACCDLapInfo::new(&mut c)?;
        let current_lap = ACCDLapInfo::new(&mut c)?;
        *cur = c;
        Ok(
            ACCDRealtimeCarUpdate {
                car_index,
                driver_index,
                gear,
                world_pos_x,
                world_pos_y,
                yaw,
                car_location,
                kmh,
                position,
                track_position,
                spline_position,
                delta,
                best_session_lap,
                last_lap,
                current_lap,
                laps,
                cup_position,
                driver_count,
            },
        )
    }
}

impl Clone for ACCDRealtimeCarUpdate {
    fn clone(&self) -> (copy: Self)
        ensures
            copy@ == self@,
    {
        ACCDRealtimeCarUpdate {
            car_index: self.car_index,
            driver_index: self.driver_index,
            gear: self.gear,
            world_pos_x: self.world_pos_x,
            world_pos_y: self.world_pos_y,
            yaw: self.yaw,
            car_location: self.car_location,
            kmh: self.kmh,
            position: self.position,
            track_position: self.track_position,
            spline_position: self.spline_position,
            delta: self.delta,
            best_session_lap: self.best_session_lap.clone(),
            last_lap: self.last_lap.clone(),
            current_lap: self.current_lap.clone(),
            laps: self.laps,
            cup_position: self.cup_position,
            driver_count: self.driver_count,
        }
    }
}

impl Default for ACCDRealtimeCarUpdate {
    fn default() -> (update: Self)
        ensures
            update@ == default_realtime_car_update(),
    {
        ACCDRealtimeCarUpdate {
            car_index: -1,
            driver_index: -1,
            gear: -1000,
            world_pos_x: WireFloat { bits: 0 },
            world_pos_y: WireFloat { bits: 0 },
            yaw: WireFloat { bits: 0 },
            car_location: CarLocationEnum::Unknown(255),
            kmh: -1,
            position: -1,
            track_position: -1,
            spline_position: WireFloat { bits: 0 },
            delta: 0,
            best_session_lap: ACCDLapInfo::default(),
            last_lap: ACCDLapInfo::default(),
            current_lap: ACCDLapInfo::default(),
            laps: -1,
            cup_position: 0,
            driver_count: 255,
        }
    }
}

} // verus!
