//! The session engine: it keeps the registration and the entry list, turns
//! each received datagram into a typed result, and says which datagrams
//! are to be sent in answer. It reads no clock and owns no socket: the
//! caller hands in the datagram and the time, and sends what comes back.

use vstd::prelude::*;
use vstd::std_specs::convert::FromSpecImpl;
use crate::accd_broadcasting_event::{
    take_broadcasting_event,
    ACCDBroadcastingEvent,
    BroadcastingEventView,
};
use crate::accd_car_info::{
    car_position,
    default_car_info,
    placeholder_car,
    take_car_details,
    ACCDCarInfo,
    CarInfoView,
};
use crate::accd_config::{default_config, ACCDConfig, ConfigView};
use crate::accd_error::ProtocolError;
use crate::accd_outbound::{
    builds,
    change_focus_wire,
    change_hud_page_wire,
    encode_change_focus,
    encode_change_hud_page,
    encode_instant_replay,
    encode_register,
    encode_request_entry_list,
    encode_request_track_data,
    encode_unregister,
    focus_camera_fits,
    instant_replay_wire,
    register_wire,
    request_entry_list_wire,
    request_track_data_wire,
    unregister_wire,
};
use crate::accd_realtime_car_update::{
    take_realtime_car_update,
    ACCDRealtimeCarUpdate,
    RealtimeCarUpdateView,
};
use crate::accd_realtime_update::{take_realtime_update, ACCDRealtimeUpdate, RealtimeUpdateView};
use crate::accd_registration_result::{
    default_registration_result,
    take_registration_result,
    ACCDRegistrationResult,
    RegistrationResultView,
};
use crate::accd_seq::{lemma_first_where, views};
use crate::accd_track_data::{default_track_data, take_track_data, ACCDTrackData, TrackDataView};
use crate::accd_utils::string_fits;
use crate::accd_wire::{has_bytes, i32_at, u16_at, ByteCursor, WireFloat};

verus! {

/// The kinds of message that a client receives.
#[derive(Clone, Copy, Debug, PartialEq, Eq, Structural)]
pub enum InboundMessageTypes {
    RegistrationResult,
    RealTimeUpdate,
    RealTimeCarUpdate,
    EntryList,
    TrackData,
    EntryListCar,
    BroadcastingEvent,
    /// A tag that names no kind of message, with the tag itself.
    Unknown(u8),
}

/// The kind of message that a tag names.
pub open spec fn inbound_type_of(value: u8) -> InboundMessageTypes {
    match value {
        1 => InboundMessageTypes::RegistrationResult,
        2 => InboundMessageTypes::RealTimeUpdate,
        3 => InboundMessageTypes::RealTimeCarUpdate,
        4 => InboundMessageTypes::EntryList,
        5 => InboundMessageTypes::TrackData,
        6 => InboundMessageTypes::EntryListCar,
        7 => InboundMessageTypes::BroadcastingEvent,
        _ => InboundMessageTypes::Unknown(value),
    }
}

impl From<u8> for InboundMessageTypes {
    fn from(value: u8) -> (kind: Self) {
        match value {
            1 => InboundMessageTypes::RegistrationResult,
            2 => InboundMessageTypes::RealTimeUpdate,
            3 => InboundMessageTypes::RealTimeCarUpdate,
            4 => InboundMessageTypes::EntryList,
            5 => InboundMessageTypes::TrackData,
            6 => InboundMessageTypes::EntryListCar,
            7 => InboundMessageTypes::BroadcastingEvent,
            _ => InboundMessageTypes::Unknown(value),
        }
    }
}

impl FromSpecImpl<u8> for InboundMessageTypes {
    open spec fn obeys_from_spec() -> bool {
        true
    }

    open spec fn from_spec(value: u8) -> Self {
        inbound_type_of(value)
    }
}

/// How far the handshake has come.
#[derive(Clone, Copy, Debug, PartialEq, Eq, Structural)]
pub enum SessionState {
    /// No registration was asked for.
    Idle,
    /// A registration was asked for and not yet answered.
    AwaitingRegistration,
    /// The server has answered; its connection id is in force.
    Registered,
}

/// For how long after a request for the entry list a roster that does not
/// fit asks for no other, in milliseconds.
pub const RESYNC_INTERVAL_MS: u64 = 1000;

/// What one received datagram amounts to.
#[derive(Debug)]
pub enum ListenResult {
    RegistrationResult(ACCDRegistrationResult),
    RealTimeUpdate(ACCDRealtimeUpdate),
    RealTimeCarUpdate(ACCDRealtimeCarUpdate),
    EntryList(Vec<ACCDCarInfo>),
    TrackData(ACCDTrackData),
    EntryListCar(ACCDCarInfo),
    BroadcastingEvent(ACCDBroadcastingEvent),
    /// The datagram had an unknown tag, or it was a car update that the
    /// entry list could not place.
    NoResult,
}

/// The mathematical value of a [`ListenResult`].
pub enum ListenResultView {
    RegistrationResult(RegistrationResultView),
    RealTimeUpdate(RealtimeUpdateView),
    RealTimeCarUpdate(RealtimeCarUpdateView),
    EntryList(Seq<CarInfoView>),
    TrackData(TrackDataView),
    EntryListCar(CarInfoView),
    BroadcastingEvent(BroadcastingEventView),
    NoResult,
}

impl View for ListenResult {
    type V = ListenResultView;

    open spec fn view(&self) -> ListenResultView {
        match self {
            ListenResult::RegistrationResult(result) => ListenResultView::RegistrationResult(
                result@,
            ),
            ListenResult::RealTimeUpdate(update) => ListenResultView::RealTimeUpdate(update@),
            ListenResult::RealTimeCarUpdate(update) => ListenResultView::RealTimeCarUpdate(update@),
            ListenResult::EntryList(cars) => ListenResultView::EntryList(views(cars@)),
            ListenResult::TrackData(track) => ListenResultView::TrackData(track@),
            ListenResult::EntryListCar(car) => ListenResultView::EntryListCar(car@),
            ListenResult::BroadcastingEvent(event) => ListenResultView::BroadcastingEvent(event@),
            ListenResult::NoResult => ListenResultView::NoResult,
        }
    }
}

/// What [`ACCDProtocol::listen_step`] hands back: the typed result, and the
/// datagrams that the caller is to send to the server, in this order.
#[derive(Debug)]
pub struct ListenStep {
    pub result: ListenResult,
    pub requests: Vec<Vec<u8>>,
}

/// The session engine.
#[derive(Debug)]
pub struct ACCDProtocol {
    pub config: ACCDConfig,
    state: SessionState,
    registration_result: ACCDRegistrationResult,
    entry_list_cars: Vec<ACCDCarInfo>,
    last_entry_list_request: u64,
}

/// The mathematical value of an [`ACCDProtocol`].
pub struct ProtocolView {
    pub config: ConfigView,
    pub state: SessionState,
    pub registration: RegistrationResultView,
    pub cars: Seq<CarInfoView>,
    /// When the entry list was last asked for again because a roster did
    /// not fit, in milliseconds on the caller's clock.
    pub last_entry_list_request: u64,
}

/// What a step of the engine comes to: the engine afterwards, the typed
/// result, and the datagrams to send.
pub struct StepView {
    pub after: ProtocolView,
    pub result: ListenResultView,
    pub requests: Seq<Seq<u8>>,
}

/// A step that changes nothing and sends nothing.
pub open spec fn quiet_step(pre: ProtocolView, result: ListenResultView) -> StepView {
    StepView { after: pre, result, requests: Seq::empty() }
}

/// The engine before anything has happened, made at time `now_ms`.
pub open spec fn initial_protocol(config: ConfigView, now_ms: u64) -> ProtocolView {
    ProtocolView {
        config,
        state: SessionState::Idle,
        registration: default_registration_result(),
        cars: Seq::empty(),
        last_entry_list_request: now_ms,
    }
}

/// Whether the three strings of the handshake can go on the wire.
pub open spec fn handshake_fits(config: ConfigView) -> bool {
    string_fits(config.display_name) && string_fits(config.connection_psw) && string_fits(
        config.command_psw,
    )
}

/// What a command owes its caller. While the engine is not registered it
/// is refused with `NotRegistered`, whatever its arguments. Once the
/// engine is registered it is refused with `StringTooLong` where a string
/// that it would send does not fit (`fits`), and else it is the message
/// `wire`.
pub open spec fn commands(
    got: Result<Vec<u8>, ProtocolError>,
    state: SessionState,
    fits: bool,
    wire: Seq<u8>,
) -> bool {
    if state != SessionState::Registered {
        got matches Err(e) && e == ProtocolError::NotRegistered
    } else if !fits {
        got matches Err(e) && e == ProtocolError::StringTooLong
    } else {
        got matches Ok(datagram) && datagram@ == wire
    }
}

/// Whether more than the resync interval has passed since `last`.
pub open spec fn resync_due(last: u64, now_ms: u64) -> bool {
    now_ms - last > RESYNC_INTERVAL_MS
}

/// A registration result is taken in: the engine is registered from now
/// on, under the connection id of the result, and asks for the track data
/// and for the entry list, in this order.
pub open spec fn registration_step(pre: ProtocolView, datagram: Seq<u8>) -> Option<StepView> {
    match take_registration_result(datagram, 1) {
        Some((registration, _)) => Some(
            StepView {
                after: ProtocolView { state: SessionState::Registered, registration, ..pre },
                result: ListenResultView::RegistrationResult(registration),
                requests: seq![
                    request_track_data_wire(registration.connection_id),
                    request_entry_list_wire(registration.connection_id),
                ],
            },
        ),
        None => None,
    }
}

/// A session update is decoded and handed on.
pub open spec fn realtime_update_step(pre: ProtocolView, datagram: Seq<u8>) -> Option<StepView> {
    match take_realtime_update(datagram, 1) {
        Some((update, _)) => Some(quiet_step(pre, ListenResultView::RealTimeUpdate(update))),
        None => None,
    }
}

/// A car update starts with the car's index, the driver's index and the
/// size of the car's roster. Where the entry list does not know the car,
/// nothing comes of it. Where the entry list knows the car with a roster of
/// another size, the rest is not decoded and nothing comes of it, but the
/// entry list is asked for again if that was last done more than the
/// resync interval ago. Else the update is decoded and handed on.
pub open spec fn car_update_step(pre: ProtocolView, datagram: Seq<u8>, now_ms: u64) -> Option<
    StepView,
> {
    if has_bytes(datagram, 1, 5) {
        let car_index = u16_at(datagram, 1);
        let driver_index = u16_at(datagram, 3);
        let driver_count = datagram[5];
        match car_position(pre.cars, car_index) {
            Some(i) => if pre.cars[i].drivers.len() != driver_count {
                if resync_due(pre.last_entry_list_request, now_ms) {
                    Some(
                        StepView {
                            after: ProtocolView { last_entry_list_request: now_ms, ..pre },
                            result: ListenResultView::NoResult,
                            requests: seq![
                                request_entry_list_wire(pre.registration.connection_id),
                            ],
                        },
                    )
                } else {
                    Some(quiet_step(pre, ListenResultView::NoResult))
                }
            } else {
                match take_realtime_car_update(
                    datagram,
                    6,
                    car_index as i32,
                    driver_index as i32,
                    driver_count,
                ) {
                    Some((update, _)) => Some(
                        quiet_step(pre, ListenResultView::RealTimeCarUpdate(update)),
                    ),
                    None => None,
                }
            },
            None => Some(quiet_step(pre, ListenResultView::NoResult)),
        }
    } else {
        None
    }
}

/// The cars that an entry list of `count` indices from offset 7 on stands
/// for: one placeholder for each index, in the order of the message.
pub open spec fn listed_cars(datagram: Seq<u8>, count: nat) -> Seq<CarInfoView> {
    Seq::new(count, |i: int| placeholder_car(u16_at(datagram, 7 + 2 * i)))
}

/// An entry list replaces whatever cars the engine knew: by a placeholder
/// for each listed index where the list carries the connection id in
/// force, by nothing where it carries another. The new cars are handed
/// on.
pub open spec fn entry_list_step(pre: ProtocolView, datagram: Seq<u8>) -> Option<StepView> {
    if has_bytes(datagram, 1, 4) {
        if i32_at(datagram, 1) == pre.registration.connection_id {
            if has_bytes(datagram, 5, 2) && has_bytes(datagram, 7, 2 * u16_at(datagram, 5)) {
                let cars = listed_cars(datagram, u16_at(datagram, 5) as nat);
                Some(
                    StepView {
                        after: ProtocolView { cars, ..pre },
                        result: ListenResultView::EntryList(cars),
                        requests: Seq::empty(),
                    },
                )
            } else {
                None
            }
        } else {
            Some(
                StepView {
                    after: ProtocolView { cars: Seq::empty(), ..pre },
                    result: ListenResultView::EntryList(Seq::empty()),
                    requests: Seq::empty(),
                },
            )
        }
    } else {
        None
    }
}

/// Track data is decoded and handed on where it carries the connection id
/// in force; where it carries another, the default track data is handed
/// on and the rest of the datagram is not looked at.
pub open spec fn track_data_step(pre: ProtocolView, datagram: Seq<u8>) -> Option<StepView> {
    if has_bytes(datagram, 1, 4) {
        if i32_at(datagram, 1) == pre.registration.connection_id {
            match take_track_data(datagram, 5) {
                Some((track, _)) => Some(quiet_step(pre, ListenResultView::TrackData(track))),
                None => None,
            }
        } else {
            Some(quiet_step(pre, ListenResultView::TrackData(default_track_data())))
        }
    } else {
        None
    }
}

/// The details of a car start with the car's index. Where the entry list
/// knows the car, the details are decoded, take the place of what the
/// entry list held of that car, and are handed on. Where it does not, the
/// rest of the datagram is not looked at, the entry list stays as it is
/// and the default car is handed on.
pub open spec fn entry_list_car_step(pre: ProtocolView, datagram: Seq<u8>) -> Option<StepView> {
    if has_bytes(datagram, 1, 2) {
        let car_index = u16_at(datagram, 1);
        match car_position(pre.cars, car_index) {
            Some(i) => match take_car_details(datagram, 3, car_index) {
                Some((car, _)) => Some(
                    StepView {
                        after: ProtocolView { cars: pre.cars.update(i, car), ..pre },
                        result: ListenResultView::EntryListCar(car),
                        requests: Seq::empty(),
                    },
                ),
                None => None,
            },
            None => Some(quiet_step(pre, ListenResultView::EntryListCar(default_car_info()))),
        }
    } else {
        None
    }
}

/// An event is decoded, its car resolved against the entry list, and
/// handed on.
pub open spec fn broadcasting_event_step(pre: ProtocolView, datagram: Seq<u8>) -> Option<
    StepView,
> {
    match take_broadcasting_event(datagram, 1, pre.cars) {
        Some((event, _)) => Some(quiet_step(pre, ListenResultView::BroadcastingEvent(event))),
        None => None,
    }
}

/// What the engine `pre` makes of `datagram` at time `now_ms`; nothing
/// where the datagram is empty or ends before its message does, or where a
/// string in it is not UTF-8. The first byte of a datagram is its tag; a
/// tag that names no kind of message comes to no result.
pub open spec fn step(pre: ProtocolView, datagram: Seq<u8>, now_ms: u64) -> Option<StepView> {
    if datagram.len() == 0 {
        None
    } else {
        match inbound_type_of(datagram[0]) {
            InboundMessageTypes::RegistrationResult => registration_step(pre, datagram),
            InboundMessageTypes::RealTimeUpdate => realtime_update_step(pre, datagram),
            InboundMessageTypes::RealTimeCarUpdate => car_update_step(pre, datagram, now_ms),
            InboundMessageTypes::EntryList => entry_list_step(pre, datagram),
            InboundMessageTypes::TrackData => track_data_step(pre, datagram),
            InboundMessageTypes::EntryListCar => entry_list_car_step(pre, datagram),
            InboundMessageTypes::BroadcastingEvent => broadcasting_event_step(pre, datagram),
            InboundMessageTypes::Unknown(_) => Some(quiet_step(pre, ListenResultView::NoResult)),
        }
    }
}

/// What a call that handles one datagram owes its caller, given what the
/// step comes to (`want`): on something, that result, those requests and
/// the engine as the step leaves it; on nothing, `MalformedMessage` and
/// the engine as it was.
pub open spec fn steps(
    before: ProtocolView,
    after: ProtocolView,
    got: Result<ListenStep, ProtocolError>,
    want: Option<StepView>,
) -> bool {
    match want {
        Some(expected) => {
            &&& got matches Ok(out) && out.result@ == expected.result && views(out.requests@)
                == expected.requests
            &&& after == expected.after
        },
        None => {
            &&& got matches Err(e) && e == ProtocolError::MalformedMessage
            &&& after == before
        },
    }
}

impl View for ACCDProtocol {
    type V = ProtocolView;

    closed spec fn view(&self) -> ProtocolView {
        ProtocolView {
            config: self.config@,
            state: self.state,
            registration: self.registration_result@,
            cars: views(self.entry_list_cars@),
            last_entry_list_request: self.last_entry_list_request,
        }
    }
}

impl Default for ACCDProtocol {
    /// An engine with the default configuration, made at time zero.
    fn default() -> (engine: Self)
        ensures
            engine@ == initial_protocol(default_config(), 0),
    {
        ACCDProtocol::new(ACCDConfig::default(), 0)
    }
}

impl ACCDProtocol {
    /// An engine that has done nothing yet. `now_ms` is the time of the
    /// call in milliseconds, on the clock that later calls of
    /// [`ACCDProtocol::listen_step`] go by.
    pub fn new(config: ACCDConfig, now_ms: u64) -> (engine: Self)
        ensures
            engine@ == initial_protocol(config@, now_ms),
    {
        let engine = ACCDProtocol {
            config,
            state: SessionState::Idle,
            registration_result: ACCDRegistrationResult::default(),
            entry_list_cars: Vec::new(),
            last_entry_list_request: now_ms,
        };
        assert(engine@.cars =~= Seq::empty());
        engine
    }

    /// How far the handshake has come.
    pub fn state(&self) -> (state: SessionState)
        ensures
            state == self@.state,
    {
        self.state
    }

    /// The registration result in force; the default one before any.
    pub fn registration_result(&self) -> (result: &ACCDRegistrationResult)
        ensures
            result@ == self@.registration,
    {
        &self.registration_result
    }

    /// The cars of the entry list.
    pub fn cars(&self) -> (cars: &Vec<ACCDCarInfo>)
        ensures
            views(cars@) == self@.cars,
    {
        &self.entry_list_cars
    }

    /// The configuration that the engine was made with.
    pub fn config(&self) -> (config: &ACCDConfig)
        ensures
            config@ == self@.config,
    {
        &self.config
    }

    /// Builds the registration request from the configuration. The caller
    /// sends it; the engine awaits the answer from now on. Where a string
    /// of the configuration is too long to send, nothing is built and the
    /// engine stays as it was.
    pub fn request_connection(&mut self) -> (r: Result<Vec<u8>, ProtocolError>)
        ensures
            builds(
                r,
                handshake_fits(old(self)@.config),
                register_wire(
                    old(self)@.config.protocol_version,
                    old(self)@.config.display_name,
                    old(self)@.config.connection_psw,
                    old(self)@.config.update_interval,
                    old(self)@.config.command_psw,
                ),
            ),
            final(self)@ == if handshake_fits(old(self)@.config) {
                ProtocolView { state: SessionState::AwaitingRegistration, ..old(self)@ }
            } else {
                old(self)@
            },
    {
        let datagram = encode_register(
            self.config.protocol_version,
            &self.config.display_name,
            &self.config.connection_psw,
            self.config.update_interval,
            &self.config.command_psw,
        )?;
        self.state = SessionState::AwaitingRegistration;
        Ok(datagram)
    }

    /// Builds the request to end the registration.
    pub fn disconnect(&self) -> (r: Result<Vec<u8>, ProtocolError>)
        ensures
            commands(r, self@.state, true, unregister_wire(self@.registration.connection_id)),
    {
        if self.state != SessionState::Registered {
            return Err(ProtocolError::NotRegistered);
        }
        Ok(encode_unregister(self.registration_result.connection_id))
    }

    /// Builds the request for the entry list, under the connection id that
    /// the engine holds.
    fn request_entry_list(&self) -> (datagram: Vec<u8>)
        ensures
            datagram@ == request_entry_list_wire(self@.registration.connection_id),
    {
        encode_request_entry_list(self.registration_result.connection_id)
    }

    /// Builds the request for the track data, under the connection id that
    /// the engine holds.
    fn request_track_data(&self) -> (datagram: Vec<u8>)
        ensures
            datagram@ == request_track_data_wire(self@.registration.connection_id),
    {
        encode_request_track_data(self.registration_result.connection_id)
    }

    /// Builds the request to change the camera and leave the focus where
    /// it is.
    pub fn set_camera(&self, camera_set: String, camera: String) -> (r: Result<
        Vec<u8>,
        ProtocolError,
    >)
        ensures
            commands(
                r,
                self@.state,
                focus_camera_fits(camera_set@, camera@),
                change_focus_wire(self@.registration.connection_id, None, camera_set@, camera@),
            ),
    {
        self.set_focus_internal(None, camera_set, camera)
    }

    /// Builds the request to focus on a car, to change the camera, or
    /// both.
    pub fn set_focus(&self, car_index: Option<u16>, camera_set: String, camera: String) -> (r:
        Result<Vec<u8>, ProtocolError>)
        ensures
            commands(
                r,
                self@.state,
                focus_camera_fits(camera_set@, camera@),
                change_focus_wire(
                    self@.registration.connection_id,
                    car_index,
                    camera_set@,
                    camera@,
                ),
            ),
    {
        self.set_focus_internal(car_index, camera_set, camera)
    }

    fn set_focus_internal(&self, car_index: Option<u16>, camera_set: String, camera: String) -> (r:
        Result<Vec<u8>, ProtocolError>)
        ensures
            commands(
                r,
                self@.state,
                focus_camera_fits(camera_set@, camera@),
                change_focus_wire(
                    self@.registration.connection_id,
                    car_index,
                    camera_set@,
                    camera@,
                ),
            ),
    {
        if self.state != SessionState::Registered {
            return Err(ProtocolError::NotRegistered);
        }
        encode_change_focus(self.registration_result.connection_id, car_index, &camera_set, &camera)
    }

    /// Builds the request for an instant replay.
    pub fn request_instant_replay(
        &self,
        start_session_time: WireFloat,
        duration_ms: WireFloat,
        initial_focused_car_index: i32,
        initial_camera_set: String,
        initial_camera: String,
    ) -> (r: Result<Vec<u8>, ProtocolError>)
        ensures
            commands(
                r,
                self@.state,
                string_fits(initial_camera_set@) && string_fits(initial_camera@),
                instant_replay_wire(
                    self@.registration.connection_id,
                    start_session_time,
                    duration_ms,
                    initial_focused_car_index,
                    initial_camera_set@,
                    initial_camera@,
                ),
            ),
    {
        if self.state != SessionState::Registered {
            return Err(ProtocolError::NotRegistered);
        }
        encode_instant_replay(
            self.registration_result.connection_id,
            start_session_time,
            duration_ms,
            initial_focused_car_index,
            &initial_camera_set,
            &initial_camera,
        )
    }

    /// Builds the request to show a HUD page.
    pub fn request_hud_page(&self, hud_page: String) -> (r: Result<Vec<u8>, ProtocolError>)
        ensures
            commands(
                r,
                self@.state,
                string_fits(hud_page@),
                change_hud_page_wire(self@.registration.connection_id, hud_page@),
            ),
    {
        if self.state != SessionState::Registered {
            return Err(ProtocolError::NotRegistered);
        }
        encode_change_hud_page(self.registration_result.connection_id, &hud_page)
    }

    /// Handles one received datagram at time `now_ms`.
    pub fn listen_step(&mut self, datagram: &Vec<u8>, now_ms: u64) -> (r: Result<
        ListenStep,
        ProtocolError,
    >)
        ensures
            steps(old(self)@, final(self)@, r, step(old(self)@, datagram@, now_ms)),
    {
        let mut cur = ByteCursor::new(datagram);
        let tag: u8 = cur.read_u8()?;
        match InboundMessageTypes::from(tag) {
            InboundMessageTypes::RegistrationResult => self.on_registration_result(&mut cur),
            InboundMessageTypes::RealTimeUpdate => {
                let update = ACCDRealtimeUpdate::new(&mut cur)?;
                Ok(quiet(ListenResult::RealTimeUpdate(update)))
            },
            InboundMessageTypes::RealTimeCarUpdate => self.on_car_update(&mut cur, now_ms),
            InboundMessageTypes::EntryList => self.on_entry_list(&mut cur),
            InboundMessageTypes::TrackData => {
                let connection_id: i32 = cur.read_i32()?;
                if connection_id == self.registration_result.connection_id {
                    let track = ACCDTrackData::new(&mut cur)?;
                    Ok(quiet(ListenResult::TrackData(track)))
                } else {
                    Ok(quiet(ListenResult::TrackData(ACCDTrackData::default())))
                }
            },
            InboundMessageTypes::EntryListCar => self.on_entry_list_car(&mut cur),
            InboundMessageTypes::BroadcastingEvent => {
                let event = ACCDBroadcastingEvent::new(&mut cur, &*self)?;
                Ok(quiet(ListenResult::BroadcastingEvent(event)))
            },
            InboundMessageTypes::Unknown(_) => Ok(quiet(ListenResult::NoResult)),
        }
    }

    fn on_registration_result(&mut self, cur: &mut ByteCursor) -> (r: Result<
        ListenStep,
        ProtocolError,
    >)
        requires
            old(cur).pos == 1,
        ensures
            steps(old(self)@, final(self)@, r, registration_step(old(self)@, old(cur).data@)),
    {
        let registration = ACCDRegistrationResult::new(cur)?;
        let handed_on = registration.clone();
        self.registration_result = registration;
        self.state = SessionState::Registered;
        let mut requests: Vec<Vec<u8>> = Vec::new();
        requests.push(self.request_track_data());
        requests.push(self.request_entry_list());
        assert(views(requests@) =~= seq![
            request_track_data_wire(handed_on@.connection_id),
            request_entry_list_wire(handed_on@.connection_id),
        ]);
        Ok(ListenStep { result: ListenResult::RegistrationResult(handed_on), requests })
    }

    fn on_car_update(&mut self, cur: &mut ByteCursor, now_ms: u64) -> (r: Result<
        ListenStep,
        ProtocolError,
    >)
        requires
            old(cur).pos == 1,
        ensures
            steps(old(self)@, final(self)@, r, car_update_step(old(self)@, old(cur).data@, now_ms)),
    {
        let car_index: u16 = cur.read_u16()?;
        let driver_index: u16 = cur.read_u16()?;
        let driver_count: u8 = cur.read_u8()?;
        match ACCDCarInfo::find(&self.entry_list_cars, car_index) {
            Some(i) => {
                if self.entry_list_cars[i].drivers.len() != driver_count as usize {
                    let mut requests: Vec<Vec<u8>> = Vec::new();
                    if now_ms > self.last_entry_list_request && now_ms
                        - self.last_entry_list_request > RESYNC_INTERVAL_MS {
                        self.last_entry_list_request = now_ms;
                        requests.push(self.request_entry_list());
                        assert(views(requests@) =~= seq![
                            request_entry_list_wire(self@.registration.connection_id),
                        ]);
                    } else {
                        assert(views(requests@) =~= Seq::empty());
                    }
                    Ok(ListenStep { result: ListenResult::NoResult, requests })
                } else {
                    let update = ACCDRealtimeCarUpdate::new(
                        cur,
                        car_index as i32,
                        driver_index as i32,
                        driver_count,
                    )?;
                    Ok(quiet(ListenResult::RealTimeCarUpdate(update)))
                }
            },
            None => Ok(quiet(ListenResult::NoResult)),
        }
    }

    fn on_entry_list(&mut self, cur: &mut ByteCursor) -> (r: Result<ListenStep, ProtocolError>)
        requires
            old(cur).pos == 1,
        ensures
            steps(old(self)@, final(self)@, r, entry_list_step(old(self)@, old(cur).data@)),
    {
        let ghost s = cur.data@;
        let connection_id: i32 = cur.read_i32()?;
        let mut cars: Vec<ACCDCarInfo> = Vec::new();
        assert(views(cars@) =~= Seq::empty());
        if connection_id == self.registration_result.connection_id {
            let count: u16 = cur.read_u16()?;
            let mut i: u16 = 0;
            assert(views(cars@) =~= listed_cars(s, 0));
            while i < count
                invariant
                    s == cur.data@,
                    cur.data == old(cur).data,
                    *self == *old(self),
                    has_bytes(s, 1, 6),
                    i32_at(s, 1) == self@.registration.connection_id,
                    count == u16_at(s, 5),
                    i <= count,
                    cur.pos == 7 + 2 * i,
                    cur.pos <= s.len(),
                    views(cars@) == listed_cars(s, i as nat),
                decreases count - i,
            {
                let ghost before = views(cars@);
                let listed: u16 = cur.read_u16()?;
                cars.push(ACCDCarInfo::new(listed));
                assert(views(cars@) =~= before.push(placeholder_car(listed)));
                i = i + 1;
                assert(before.push(placeholder_car(listed)) =~= listed_cars(s, i as nat));
            }
        }
        let handed_on = cars.clone();
        assert(views(handed_on@) =~= views(cars@));
        self.entry_list_cars = cars;
        Ok(quiet(ListenResult::EntryList(handed_on)))
    }

    fn on_entry_list_car(&mut self, cur: &mut ByteCursor) -> (r: Result<ListenStep, ProtocolError>)
        requires
            old(cur).pos == 1,
        ensures
            steps(old(self)@, final(self)@, r, entry_list_car_step(old(self)@, old(cur).data@)),
    {
        let car_index: u16 = cur.read_u16()?;
        match ACCDCarInfo::find(&self.entry_list_cars, car_index) {
            Some(i) => {
                let car = ACCDCarInfo::read_details(cur, car_index)?;
                let handed_on = car.clone();
                self.entry_list_cars[i] = car;
                assert(views(self.entry_list_cars@) =~= old(self)@.cars.update(
                    i as int,
                    handed_on@,
                ));
                Ok(quiet(ListenResult::EntryListCar(handed_on)))
            },
            None => Ok(quiet(ListenResult::EntryListCar(ACCDCarInfo::default()))),
        }
    }
}

/// Whether `datagram` is a car update for a car that the entry list of
/// `pre` knows with a roster of another size than the update declares.
pub open spec fn is_roster_mismatch(pre: ProtocolView, datagram: Seq<u8>) -> bool {
    &&& datagram.len() >= 6
    &&& inbound_type_of(datagram[0]) == InboundMessageTypes::RealTimeCarUpdate
    &&& match car_position(pre.cars, u16_at(datagram, 1)) {
        Some(i) => pre.cars[i].drivers.len() != datagram[5],
        None => false,
    }
}

/// A registration result makes the engine registered under the id that it
/// brings and asks for the track data and the entry list, in this order.
/// No other message touches the state of the handshake or the
/// registration, and none touches the configuration.
pub proof fn lemma_only_registration_changes_session(
    pre: ProtocolView,
    datagram: Seq<u8>,
    now_ms: u64,
)
    requires
        step(pre, datagram, now_ms) is Some,
    ensures
        ({
            let outcome = step(pre, datagram, now_ms).unwrap();
            &&& outcome.after.config == pre.config
            &&& if inbound_type_of(datagram[0]) == InboundMessageTypes::RegistrationResult {
                &&& outcome.after.state == SessionState::Registered
                &&& outcome.result == ListenResultView::RegistrationResult(
                    outcome.after.registration,
                )
                &&& outcome.requests == seq![
                    request_track_data_wire(outcome.after.registration.connection_id),
                    request_entry_list_wire(outcome.after.registration.connection_id),
                ]
                &&& outcome.after.cars == pre.cars
            } else {
                &&& outcome.after.state == pre.state
                &&& outcome.after.registration == pre.registration
            }
        }),
{
}

/// After an entry list the engine knows the listed cars and no others,
/// whatever it knew before: a placeholder for each listed index, in the
/// order of the list, where the list carries the connection id in force,
/// and no car where it carries another. Nothing else of the engine
/// changes, and the new cars are what is handed on.
pub proof fn lemma_entry_list_rebuilds_cache(pre: ProtocolView, datagram: Seq<u8>, now_ms: u64)
    requires
        datagram.len() > 0,
        inbound_type_of(datagram[0]) == InboundMessageTypes::EntryList,
        step(pre, datagram, now_ms) is Some,
    ensures
        ({
            let outcome = step(pre, datagram, now_ms).unwrap();
            let cars = outcome.after.cars;
            &&& outcome.after == (ProtocolView { cars, ..pre })
            &&& outcome.result == ListenResultView::EntryList(cars)
            &&& outcome.requests.len() == 0
            &&& if i32_at(datagram, 1) == pre.registration.connection_id {
                &&& cars.len() == u16_at(datagram, 5)
                &&& forall|i: int|
                    0 <= i < cars.len() ==> #[trigger] cars[i] == placeholder_car(
                        u16_at(datagram, 7 + 2 * i),
                    )
            } else {
                cars.len() == 0
            }
        }),
{
}

/// Two engines under one connection id come out of one entry list with
/// the same cars, whatever cars each of them knew before.
pub proof fn lemma_entry_list_forgets_prior_cars(
    one: ProtocolView,
    other: ProtocolView,
    datagram: Seq<u8>,
    now_ms: u64,
)
    requires
        datagram.len() > 0,
        inbound_type_of(datagram[0]) == InboundMessageTypes::EntryList,
        one.registration.connection_id == other.registration.connection_id,
    ensures
        step(one, datagram, now_ms) is Some <==> step(other, datagram, now_ms) is Some,
        step(one, datagram, now_ms) is Some ==> step(one, datagram, now_ms).unwrap().after.cars
            == step(other, datagram, now_ms).unwrap().after.cars,
{
}

/// The details of a car that the entry list does not know change
/// nothing: the engine stays as it was, the default car is handed on and
/// nothing is sent, however the datagram goes on behind the car's index.
pub proof fn lemma_patch_for_unknown_car(pre: ProtocolView, datagram: Seq<u8>, now_ms: u64)
    requires
        datagram.len() >= 3,
        inbound_type_of(datagram[0]) == InboundMessageTypes::EntryListCar,
        forall|i: int|
            0 <= i < pre.cars.len() ==> (#[trigger] pre.cars[i]).car_index != u16_at(datagram, 1),
    ensures
        step(pre, datagram, now_ms) == Some(
            quiet_step(pre, ListenResultView::EntryListCar(default_car_info())),
        ),
{
    let wanted = u16_at(datagram, 1);
    lemma_first_where(pre.cars, |car: CarInfoView| car.car_index == wanted);
}

/// The details of a car never change how many cars the entry list holds,
/// nor any car but the one that they are about, nor the index of that
/// one.
pub proof fn lemma_patch_keeps_cache_size(pre: ProtocolView, datagram: Seq<u8>, now_ms: u64)
    requires
        datagram.len() > 0,
        inbound_type_of(datagram[0]) == InboundMessageTypes::EntryListCar,
        step(pre, datagram, now_ms) is Some,
    ensures
        ({
            let after = step(pre, datagram, now_ms).unwrap().after;
            &&& after.cars.len() == pre.cars.len()
            &&& forall|j: int|
                0 <= j < pre.cars.len() ==> (#[trigger] after.cars[j]).car_index
                    == pre.cars[j].car_index
            &&& forall|j: int|
                0 <= j < pre.cars.len() && pre.cars[j].car_index != u16_at(datagram, 1)
                    ==> #[trigger] after.cars[j] == pre.cars[j]
        }),
{
    let wanted = u16_at(datagram, 1);
    lemma_first_where(pre.cars, |car: CarInfoView| car.car_index == wanted);
}

/// A car update whose roster size does not fit comes to no result and
/// leaves the cars alone. It asks for the entry list, once and under the
/// connection id in force, if the last such request is more than the
/// resync interval old, and then notes the time; else it sends nothing.
pub proof fn lemma_mismatch_yields_no_result(pre: ProtocolView, datagram: Seq<u8>, now_ms: u64)
    requires
        is_roster_mismatch(pre, datagram),
    ensures
        step(pre, datagram, now_ms) is Some,
        ({
            let outcome = step(pre, datagram, now_ms).unwrap();
            &&& outcome.result == ListenResultView::NoResult
            &&& if resync_due(pre.last_entry_list_request, now_ms) {
                &&& outcome.requests == seq![
                    request_entry_list_wire(pre.registration.connection_id),
                ]
                &&& outcome.after == (ProtocolView { last_entry_list_request: now_ms, ..pre })
            } else {
                &&& outcome.requests.len() == 0
                &&& outcome.after == pre
            }
        }),
{
}

/// Once a roster that does not fit has made the engine ask for the entry
/// list, another one within the resync interval sends nothing.
pub proof fn lemma_resync_at_most_once_per_interval(
    pre: ProtocolView,
    first: Seq<u8>,
    first_ms: u64,
    second: Seq<u8>,
    second_ms: u64,
)
    requires
        is_roster_mismatch(pre, first),
        resync_due(pre.last_entry_list_request, first_ms),
        is_roster_mismatch(step(pre, first, first_ms).unwrap().after, second),
        second_ms <= first_ms + RESYNC_INTERVAL_MS,
    ensures
        step(pre, first, first_ms).unwrap().requests.len() == 1,
        step(step(pre, first, first_ms).unwrap().after, second, second_ms).unwrap().requests.len()
            == 0,
{
    lemma_mismatch_yields_no_result(pre, first, first_ms);
    lemma_mismatch_yields_no_result(step(pre, first, first_ms).unwrap().after, second, second_ms);
}

/// Only a roster that does not fit, at a time when a resync is due, moves
/// the time from which the resync interval is counted; every other
/// datagram leaves it where it was.
pub proof fn lemma_resync_clock(pre: ProtocolView, datagram: Seq<u8>, now_ms: u64)
    requires
        step(pre, datagram, now_ms) is Some,
    ensures
        ({
            let after = step(pre, datagram, now_ms).unwrap().after;
            if is_roster_mismatch(pre, datagram) && resync_due(
                pre.last_entry_list_request,
                now_ms,
            ) {
                after.last_entry_list_request == now_ms
            } else {
                after.last_entry_list_request == pre.last_entry_list_request
            }
        }),
{
}

/// A result with nothing to send.
fn quiet(result: ListenResult) -> (out: ListenStep)
    ensures
        out.result == result,
        views(out.requests@) == Seq::<Seq<u8>>::empty(),
{
    let requests: Vec<Vec<u8>> = Vec::new();
    assert(views(requests@) =~= Seq::<Seq<u8>>::empty());
    ListenStep { result, requests }
}

} // verus!
