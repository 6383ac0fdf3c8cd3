//! A discrete event of the session, with the car that it is about.

use vstd::prelude::*;
use vstd::std_specs::convert::FromSpecImpl;
use crate::accd_car_info::{
    car_or_default,
    car_position,
    default_car_info,
    ACCDCarInfo,
    CarInfoView,
};
use crate::accd_error::ProtocolError;
use crate::accd_protocol::ACCDProtocol;
use crate::accd_seq::lemma_first_where;
use crate::accd_utils::{read_string, take_string};
use crate::accd_wire::{has_bytes, i32_at, reads, ByteCursor};

verus! {

/// What happened.
#[derive(Clone, Copy, Debug, PartialEq, Eq, Structural)]
pub enum BroadcastingCarEventType {
    NoEvent,
    GreenFlag,
    SessionOver,
    PenaltyCommMsg,
    Accident,
    LapCompleted,
    BestSessionLap,
    BestPersonalLap,
    /// A tag that names no event, with the tag itself.
    Unknown(u8),
}

impl From<u8> for BroadcastingCarEventType {
    fn from(value: u8) -> (kind: Self) {
        match value {
            0 => BroadcastingCarEventType::NoEvent,
            1 => BroadcastingCarEventType::GreenFlag,
            2 => BroadcastingCarEventType::SessionOver,
            3 => BroadcastingCarEventType::PenaltyCommMsg,
            4 => BroadcastingCarEventType::Accident,
            5 => BroadcastingCarEventType::LapCompleted,
            6 => BroadcastingCarEventType::BestSessionLap,
            7 => BroadcastingCarEventType::BestPersonalLap,
            _ => BroadcastingCarEventType::Unknown(value),
        }
    }
}

/// The event that a tag names.
pub open spec fn event_type_of(value: u8) -> BroadcastingCarEventType {
    match value {
        0 => BroadcastingCarEventType::NoEvent,
        1 => BroadcastingCarEventType::GreenFlag,
        2 => BroadcastingCarEventType::SessionOver,
        3 => BroadcastingCarEventType::PenaltyCommMsg,
        4 => BroadcastingCarEventType::Accident,
        5 => BroadcastingCarEventType::LapCompleted,
        6 => BroadcastingCarEventType::BestSessionLap,
        7 => BroadcastingCarEventType::BestPersonalLap,
        _ => BroadcastingCarEventType::Unknown(value),
    }
}

impl FromSpecImpl<u8> for BroadcastingCarEventType {
    open spec fn obeys_from_spec() -> bool {
        true
    }

    open spec fn from_spec(value: u8) -> Self {
        event_type_of(value)
    }
}

/// An event as a message tells it, with a copy of the car that it names
/// as the entry list knew that car when the message was decoded.
#[derive(Debug)]
pub struct ACCDBroadcastingEvent {
    pub event_type: BroadcastingCarEventType,
    pub event_msg: String,
    pub event_time_ms: i32,
    pub event_car_id: i32,
    pub event_car_data: ACCDCarInfo,
}

/// The mathematical value of an [`ACCDBroadcastingEvent`].
pub struct BroadcastingEventView {
    pub event_type: BroadcastingCarEventType,
    pub event_msg: Seq<char>,
    pub event_time_ms: i32,
    pub event_car_id: i32,
    pub event_car_data: CarInfoView,
}

impl View for ACCDBroadcastingEvent {
    type V = BroadcastingEventView;

    open spec fn view(&self) -> BroadcastingEventView {
        BroadcastingEventView {
            event_type: self.event_type,
            event_msg: self.event_msg@,
            event_time_ms: self.event_time_ms,
            event_car_id: self.event_car_id,
            event_car_data: self.event_car_data@,
        }
    }
}

/// The event that stands for "nothing received yet".
pub open spec fn default_broadcasting_event() -> BroadcastingEventView {
    BroadcastingEventView {
        event_type: BroadcastingCarEventType::Unknown(255),
        event_msg: Seq::empty(),
        event_time_ms: -1i32,
        event_car_id: -1i32,
        event_car_data: default_car_info(),
    }
}

/// The car that an event with car id `car_id` is about: the first in
/// `cars` whose index is that id, and the default car where there is none.
/// An id that no 16-bit index can equal finds no car.
pub open spec fn event_car(cars: Seq<CarInfoView>, car_id: i32) -> CarInfoView {
    if 0 <= car_id <= 65535 {
        car_or_default(cars, car_id as u16)
    } else {
        default_car_info()
    }
}

/// The event at `at` and the offset behind it: an event byte, a message,
/// the session time in milliseconds and a car id. The car is looked up in
/// `cars` by the id.
pub open spec fn take_broadcasting_event(s: Seq<u8>, at: int, cars: Seq<CarInfoView>) -> Option<
    (BroadcastingEventView, int),
> {
    let msg = take_string(s, at + 1);
    let tail = msg.unwrap().1;
    if has_bytes(s, at, 1) && msg is Some && has_bytes(s, tail, 8) {
        Some(
            (
                BroadcastingEventView {
                    event_type: event_type_of(s[at]),
                    event_msg: msg.unwrap().0,
                    event_time_ms: i32_at(s, tail),
                    event_car_id: i32_at(s, tail + 4),
                    event_car_data: event_car(cars, i32_at(s, tail + 4)),
                },
                tail + 8,
            ),
        )
    } else {
        None
    }
}

impl ACCDBroadcastingEvent {
    /// Decodes an event at the cursor and resolves its car against the
    /// entry list of `accd_conn`.
    pub fn new(cur: &mut ByteCursor, accd_conn: &ACCDProtocol) -> (r: Result<
        ACCDBroadcastingEvent,
        ProtocolError,
    >)
        ensures
            reads(
                *old(cur),
                *final(cur),
                r,
                take_broadcasting_event(old(cur).data@, old(cur).pos as int, accd_conn@.cars),
            ),
    {
        let mut c = *cur;
        let event_type = BroadcastingCarEventType::from(c.read_u8()?);
        let event_msg = read_string(&mut c)?;
        let event_time_ms: i32 = c.read_i32()?;
        let event_car_id: i32 = c.read_i32()?;
        let cars = accd_conn.cars();
        let event_car_data = if 0 <= event_car_id && event_car_id <= 65535 {
            match ACCDCarInfo::find(cars, event_car_id as u16) {
                Some(i) => cars[i].clone(),
                None => ACCDCarInfo::default(),
            }
        } else {
            ACCDCarInfo::default()
        };
        *cur = c;
        Ok(
            ACCDBroadcastingEvent {
                event_type,
                event_msg,
                event_time_ms,
                event_car_id,
                event_car_data,
            },
        )
    }
}

/// The car of a decoded event is the first car of the entry list whose
/// index is the event's car id. Where no car has that index, and so for
/// every id below 0 or above 65535, it is the default car, whose index is
/// 65535.
pub proof fn lemma_event_car_resolution(s: Seq<u8>, at: int, cars: Seq<CarInfoView>)
    requires
        take_broadcasting_event(s, at, cars) is Some,
    ensures
        ({
            let event = take_broadcasting_event(s, at, cars).unwrap().0;
            if exists|i: int| 0 <= i < cars.len() && cars[i].car_index == event.event_car_id {
                exists|i: int|
                    {
                        &&& 0 <= i < cars.len()
                        &&& cars[i].car_index == event.event_car_id
                        &&& forall|j: int| 0 <= j < i ==> cars[j].car_index != event.event_car_id
                        &&& event.event_car_data == cars[i]
                    }
            } else {
                event.event_car_data == default_car_info()
            }
        }),
{
    let event = take_broadcasting_event(s, at, cars).unwrap().0;
    let id = event.event_car_id;
    if 0 <= id <= 65535 {
        let wanted = id as u16;
        lemma_first_where(cars, |car: CarInfoView| car.car_index == wanted);
        match car_position(cars, wanted) {
            Some(i) => {
                assert(cars[i].car_index == id);
                assert(forall|j: int| 0 <= j < i ==> cars[j].car_index != id);
                assert(event.event_car_data == cars[i]);
            },
            None => {
                assert(forall|j: int| 0 <= j < cars.len() ==> cars[j].car_index != id);
            },
        }
    }
}

impl Clone for ACCDBroadcastingEvent {
    fn clone(&self) -> (copy: Self)
        ensures
            copy@ == self@,
    {
        ACCDBroadcastingEvent {
            event_type: self.event_type,
            event_msg: self.event_msg.clone(),
            event_time_ms: self.event_time_ms,
            event_car_id: self.event_car_id,
            event_car_data: self.event_car_data.clone(),
        }
    }
}

impl Default for ACCDBroadcastingEvent {
    fn default() -> (event: Self)
        ensures
            event@ == default_broadcasting_event(),
    {
        ACCDBroadcastingEvent {
            event_type: BroadcastingCarEventType::Unknown(255),
            event_msg: String::new(),
            event_time_ms: -1,
            event_car_id: -1,
            event_car_data: ACCDCarInfo::default(),
        }
    }
}

} // verus!
