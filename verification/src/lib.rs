//! Client side of a racing-simulation broadcasting protocol: the byte-level
//! wire codec, the typed message catalog, the roster cache and the session
//! engine that ties them together. The engine never touches a socket: it is
//! handed datagrams and hands back typed results and the bytes to send.

pub mod accd_error;
pub mod accd_seq;
pub mod accd_wire;
pub mod accd_utils;
pub mod accd_text;
pub mod accd_lap_info;
pub mod accd_realtime_update;
pub mod accd_realtime_car_update;
pub mod accd_enums;
pub mod accd_driver_info;
pub mod accd_car_info;
pub mod accd_registration_result;
pub mod accd_track_data;
pub mod accd_config;
pub mod accd_outbound;
pub mod accd_broadcasting_event;
pub mod accd_protocol;
