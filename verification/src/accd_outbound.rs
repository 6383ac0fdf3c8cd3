//! The messages that a client sends, each as the bytes of one datagram.
//! Every message starts with its tag; every message but the registration
//! carries the connection id next.

use vstd::prelude::*;
use vstd::std_specs::convert::FromSpecImpl;
use crate::accd_error::ProtocolError;
use crate::accd_utils::{string_fits, string_wire, write_string};
use crate::accd_wire::{
    i32_le_bytes,
    u16_le_bytes,
    u32_le_bytes,
    write_f32,
    write_i32,
    write_u16,
    write_u8,
    WireFloat,
};

verus! {

/// The kinds of message that a client sends.
#[derive(Clone, Copy, Debug, PartialEq, Eq, Structural)]
pub enum OutboundMessageTypes {
    RegisterCommandApplication,
    UnregisterCommandApplication,
    RequestEntryList,
    RequestTrackData,
    ChangeHudPage,
    ChangeFocus,
    InstantReplayRequest,
    PlayManualReplayHighlight,
    SaveManualReplayHighlight,
    /// A tag that names no kind of message, with the tag itself.
    Unknown(u8),
}

/// The kind of message that a tag names.
pub open spec fn outbound_type_of(value: u8) -> OutboundMessageTypes {
    match value {
        1 => OutboundMessageTypes::RegisterCommandApplication,
        9 => OutboundMessageTypes::UnregisterCommandApplication,
        10 => OutboundMessageTypes::RequestEntryList,
        11 => OutboundMessageTypes::RequestTrackData,
        49 => OutboundMessageTypes::ChangeHudPage,
        50 => OutboundMessageTypes::ChangeFocus,
        51 => OutboundMessageTypes::InstantReplayRequest,
        52 => OutboundMessageTypes::PlayManualReplayHighlight,
        60 => OutboundMessageTypes::SaveManualReplayHighlight,
        _ => OutboundMessageTypes::Unknown(value),
    }
}

impl From<u8> for OutboundMessageTypes {
    fn from(value: u8) -> (kind: Self) {
        match value {
            1 => OutboundMessageTypes::RegisterCommandApplication,
            9 => OutboundMessageTypes::UnregisterCommandApplication,
            10 => OutboundMessageTypes::RequestEntryList,
            11 => OutboundMessageTypes::RequestTrackData,
            49 => OutboundMessageTypes::ChangeHudPage,
            50 => OutboundMessageTypes::ChangeFocus,
            51 => OutboundMessageTypes::InstantReplayRequest,
            52 => OutboundMessageTypes::PlayManualReplayHighlight,
            60 => OutboundMessageTypes::SaveManualReplayHighlight,
            _ => OutboundMessageTypes::Unknown(value),
        }
    }
}

impl FromSpecImpl<u8> for OutboundMessageTypes {
    open spec fn obeys_from_spec() -> bool {
        true
    }

    open spec fn from_spec(value: u8) -> Self {
        outbound_type_of(value)
    }
}

impl OutboundMessageTypes {
    /// The tag of this kind of message.
    pub open spec fn spec_tag(self) -> u8 {
        match self {
            OutboundMessageTypes::RegisterCommandApplication => 1,
            OutboundMessageTypes::UnregisterCommandApplication => 9,
            OutboundMessageTypes::RequestEntryList => 10,
            OutboundMessageTypes::RequestTrackData => 11,
            OutboundMessageTypes::ChangeHudPage => 49,
            OutboundMessageTypes::ChangeFocus => 50,
            OutboundMessageTypes::InstantReplayRequest => 51,
            OutboundMessageTypes::PlayManualReplayHighlight => 52,
            OutboundMessageTypes::SaveManualReplayHighlight => 60,
            OutboundMessageTypes::Unknown(value) => value,
        }
    }

    /// The tag of this kind of message.
    #[verifier::when_used_as_spec(spec_tag)]
    pub fn tag(self) -> (value: u8)
        ensures
            value == self.spec_tag(),
    {
        match self {
            OutboundMessageTypes::RegisterCommandApplication => 1,
            OutboundMessageTypes::UnregisterCommandApplication => 9,
            OutboundMessageTypes::RequestEntryList => 10,
            OutboundMessageTypes::RequestTrackData => 11,
            OutboundMessageTypes::ChangeHudPage => 49,
            OutboundMessageTypes::ChangeFocus => 50,
            OutboundMessageTypes::InstantReplayRequest => 51,
            OutboundMessageTypes::PlayManualReplayHighlight => 52,
            OutboundMessageTypes::SaveManualReplayHighlight => 60,
            OutboundMessageTypes::Unknown(value) => value,
        }
    }
}

/// The kind that a tag names has that tag.
pub proof fn lemma_outbound_tag_round_trip(value: u8)
    ensures
        outbound_type_of(value).tag() == value,
{
}

/// The start of every message of a registered client: the tag, then the
/// connection id.
pub open spec fn header_wire(kind: OutboundMessageTypes, connection_id: i32) -> Seq<u8> {
    seq![kind.tag()] + i32_le_bytes(connection_id)
}

/// The registration request: tag, protocol version, display name,
/// connection password, update interval in milliseconds, command password.
pub open spec fn register_wire(
    protocol_version: u8,
    display_name: Seq<char>,
    connection_psw: Seq<char>,
    update_interval: i32,
    command_psw: Seq<char>,
) -> Seq<u8> {
    seq![OutboundMessageTypes::RegisterCommandApplication.tag(), protocol_version] + string_wire(
        display_name,
    ) + string_wire(connection_psw) + i32_le_bytes(update_interval) + string_wire(command_psw)
}

/// The request to end the registration.
pub open spec fn unregister_wire(connection_id: i32) -> Seq<u8> {
    header_wire(OutboundMessageTypes::UnregisterCommandApplication, connection_id)
}

/// The request for the entry list.
pub open spec fn request_entry_list_wire(connection_id: i32) -> Seq<u8> {
    header_wire(OutboundMessageTypes::RequestEntryList, connection_id)
}

/// The request for the track data.
pub open spec fn request_track_data_wire(connection_id: i32) -> Seq<u8> {
    header_wire(OutboundMessageTypes::RequestTrackData, connection_id)
}

/// The request to show a HUD page.
pub open spec fn change_hud_page_wire(connection_id: i32, hud_page: Seq<char>) -> Seq<u8> {
    header_wire(OutboundMessageTypes::ChangeHudPage, connection_id) + string_wire(hud_page)
}

/// The car part of a focus change: a zero byte where no car is named, else
/// a one and the car's index.
pub open spec fn focus_car_wire(car_index: Option<u16>) -> Seq<u8> {
    match car_index {
        Some(index) => seq![1u8] + u16_le_bytes(index),
        None => seq![0u8],
    }
}

/// The camera part of a focus change: a zero byte where the camera set or
/// the camera has no name, else a one and the two names.
pub open spec fn focus_camera_wire(camera_set: Seq<char>, camera: Seq<char>) -> Seq<u8> {
    if camera_set.len() == 0 || camera.len() == 0 {
        seq![0u8]
    } else {
        seq![1u8] + string_wire(camera_set) + string_wire(camera)
    }
}

/// Whether the camera part of a focus change can be written: it holds the
/// two names only where neither is empty, and then both must fit.
pub open spec fn focus_camera_fits(camera_set: Seq<char>, camera: Seq<char>) -> bool {
    camera_set.len() == 0 || camera.len() == 0 || (string_fits(camera_set) && string_fits(camera))
}

/// What a builder of a message owes its caller: the message where all its
/// strings fit, and `StringTooLong` where one does not.
pub open spec fn builds(got: Result<Vec<u8>, ProtocolError>, fits: bool, wire: Seq<u8>) -> bool {
    match got {
        Ok(buffer) => fits && buffer@ == wire,
        Err(e) => !fits && e == ProtocolError::StringTooLong,
    }
}

/// The request to focus on a car, to change the camera, or both.
pub open spec fn change_focus_wire(
    connection_id: i32,
    car_index: Option<u16>,
    camera_set: Seq<char>,
    camera: Seq<char>,
) -> Seq<u8> {
    header_wire(OutboundMessageTypes::ChangeFocus, connection_id) + focus_car_wire(car_index)
        + focus_camera_wire(camera_set, camera)
}

/// The request for an instant replay: where in the session it starts and
/// how long it runs (milliseconds, single precision), the car to focus on,
/// and the camera set and camera to start with.
pub open spec fn instant_replay_wire(
    connection_id: i32,
    start_session_time: WireFloat,
    duration_ms: WireFloat,
    initial_focused_car_index: i32,
    initial_camera_set: Seq<char>,
    initial_camera: Seq<char>,
) -> Seq<u8> {
    header_wire(OutboundMessageTypes::InstantReplayRequest, connection_id) + u32_le_bytes(
        start_session_time.bits,
    ) + u32_le_bytes(duration_ms.bits) + i32_le_bytes(initial_focused_car_index) + string_wire(
        initial_camera_set,
    ) + string_wire(initial_camera)
}

/// A buffer that holds a tag and a connection id.
fn header(kind: OutboundMessageTypes, connection_id: i32) -> (buffer: Vec<u8>)
    ensures
        buffer@ == header_wire(kind, connection_id),
{
    let mut buffer: Vec<u8> = Vec::new();
    write_u8(&mut buffer, kind.tag());
    write_i32(&mut buffer, connection_id);
    assert(buffer@ =~= header_wire(kind, connection_id));
    buffer
}

/// Builds the registration request.
pub fn encode_register(
    protocol_version: u8,
    display_name: &String,
    connection_psw: &String,
    update_interval: i32,
    command_psw: &String,
) -> (r: Result<Vec<u8>, ProtocolError>)
    ensures
        builds(
            r,
            string_fits(display_name@) && string_fits(connection_psw@) && string_fits(command_psw@),
            register_wire(
                protocol_version,
                display_name@,
                connection_psw@,
                update_interval,
                command_psw@,
            ),
        ),
{
    let mut buffer: Vec<u8> = Vec::new();
    write_u8(&mut buffer, OutboundMessageTypes::RegisterCommandApplication.tag());
    write_u8(&mut buffer, protocol_version);
    write_string(&mut buffer, display_name)?;
    write_string(&mut buffer, connection_psw)?;
    write_i32(&mut buffer, update_interval);
    write_string(&mut buffer, command_psw)?;
    assert(buffer@ =~= register_wire(
        protocol_version,
        display_name@,
        connection_psw@,
        update_interval,
        command_psw@,
    ));
    Ok(buffer)
}

/// Builds the request to end the registration.
pub fn encode_unregister(connection_id: i32) -> (buffer: Vec<u8>)
    ensures
        buffer@ == unregister_wire(connection_id),
{
    header(OutboundMessageTypes::UnregisterCommandApplication, connection_id)
}

/// Builds the request for the entry list.
pub fn encode_request_entry_list(connection_id: i32) -> (buffer: Vec<u8>)
    ensures
        buffer@ == request_entry_list_wire(connection_id),
{
    header(OutboundMessageTypes::RequestEntryList, connection_id)
}

/// Builds the request for the track data.
pub fn encode_request_track_data(connection_id: i32) -> (buffer: Vec<u8>)
    ensures
        buffer@ == request_track_data_wire(connection_id),
{
    header(OutboundMessageTypes::RequestTrackData, connection_id)
}

/// Builds the request to show a HUD page.
pub fn encode_change_hud_page(connection_id: i32, hud_page: &String) -> (r: Result<
    Vec<u8>,
    ProtocolError,
>)
    ensures
        builds(r, string_fits(hud_page@), change_hud_page_wire(connection_id, hud_page@)),
{
    let mut buffer = header(OutboundMessageTypes::ChangeHudPage, connection_id);
    write_string(&mut buffer, hud_page)?;
    Ok(buffer)
}

/// Builds the request to focus on a car, to change the camera, or both.
pub fn encode_change_focus(
    connection_id: i32,
    car_index: Option<u16>,
    camera_set: &String,
    camera: &String,
) -> (r: Result<Vec<u8>, ProtocolError>)
    ensures
        builds(
            r,
            focus_camera_fits(camera_set@, camera@),
            change_focus_wire(connection_id, car_index, camera_set@, camera@),
        ),
{
    let mut buffer = header(OutboundMessageTypes::ChangeFocus, connection_id);
    match car_index {
        None => {
            write_u8(&mut buffer, 0u8);
        },
        Some(index) => {
            write_u8(&mut buffer, 1u8);
            write_u16(&mut buffer, index);
        },
    }
    assert(buffer@ =~= header_wire(OutboundMessageTypes::ChangeFocus, connection_id)
        + focus_car_wire(car_index));
    if camera_set.as_str().is_empty() || camera.as_str().is_empty() {
        write_u8(&mut buffer, 0u8);
    } else {
        write_u8(&mut buffer, 1u8);
        write_string(&mut buffer, camera_set)?;
        write_string(&mut buffer, camera)?;
    }
    assert(buffer@ =~= change_focus_wire(connection_id, car_index, camera_set@, camera@));
    Ok(buffer)
}

/// Builds the request for an instant replay.
pub fn encode_instant_replay(
    connection_id: i32,
    start_session_time: WireFloat,
    duration_ms: WireFloat,
    initial_focused_car_index: i32,
    initial_camera_set: &String,
    initial_camera: &String,
) -> (r: Result<Vec<u8>, ProtocolError>)
    ensures
        builds(
            r,
            string_fits(initial_camera_set@) && string_fits(initial_camera@),
            instant_replay_wire(
                connection_id,
                start_session_time,
                duration_ms,
                initial_focused_car_index,
                initial_camera_set@,
                initial_camera@,
            ),
        ),
{
    let mut buffer = header(OutboundMessageTypes::InstantReplayRequest, connection_id);
    write_f32(&mut buffer, start_session_time);
    write_f32(&mut buffer, duration_ms);
    write_i32(&mut buffer, initial_focused_car_index);
    write_string(&mut buffer, initial_camera_set)?;
    write_string(&mut buffer, initial_camera)?;
    Ok(buffer)
}

} // verus!
