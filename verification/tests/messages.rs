use accd_core::accd_car_info::ACCDCarInfo;
use accd_core::accd_driver_info::{ACCDDriverInfo, DriverCategory};
use accd_core::accd_enums::NationalityEnum;
use accd_core::accd_error::ProtocolError;
use accd_core::accd_lap_info::LapType;
use accd_core::accd_realtime_car_update::{ACCDRealtimeCarUpdate, CarLocationEnum};
use accd_core::accd_realtime_update::{ACCDRealtimeUpdate, RaceSessionType, SessionPhase};
use accd_core::accd_registration_result::ACCDRegistrationResult;
use accd_core::accd_track_data::{ACCDTrackData, CameraSet};
use accd_core::accd_wire::ByteCursor;

fn put_string(bytes: &mut Vec<u8>, text: &str) {
    bytes.extend_from_slice(&(text.len() as u16).to_le_bytes());
    bytes.extend_from_slice(text.as_bytes());
}

fn put_lap(bytes: &mut Vec<u8>, lap_time: i32, splits: &[i32], flags: [u8; 4]) {
    bytes.extend_from_slice(&lap_time.to_le_bytes());
    bytes.extend_from_slice(&3u16.to_le_bytes());
    bytes.extend_from_slice(&1u16.to_le_bytes());
    bytes.push(splits.len() as u8);
    for split in splits {
        bytes.extend_from_slice(&split.to_le_bytes());
    }
    bytes.extend_from_slice(&flags);
}

fn session_update(replay: Option<(f32, f32)>, weather: [u8; 3]) -> Vec<u8> {
    let mut bytes: Vec<u8> = Vec::new();
    bytes.extend_from_slice(&7u16.to_le_bytes());
    bytes.extend_from_slice(&65535u16.to_le_bytes());
    bytes.push(10);
    bytes.push(5);
    bytes.extend_from_slice(&1_234_567.0f32.to_le_bytes());
    bytes.extend_from_slice(&3_600_000.0f32.to_le_bytes());
    bytes.extend_from_slice(&(-1i32).to_le_bytes());
    put_string(&mut bytes, "Drivable");
    put_string(&mut bytes, "Cockpit");
    put_string(&mut bytes, "Basic HUD");
    match replay {
        Some((time, remaining)) => {
            bytes.push(1);
            bytes.extend_from_slice(&time.to_le_bytes());
            bytes.extend_from_slice(&remaining.to_le_bytes());
        }
        None => bytes.push(0),
    }
    bytes.extend_from_slice(&43_200_000.0f32.to_le_bytes());
    bytes.push(21);
    bytes.push(29);
    bytes.extend_from_slice(&weather);
    put_lap(&mut bytes, 101_000, &[33_000, 34_000, 34_000], [0, 1, 0, 0]);
    bytes
}

#[test]
fn a_session_update_without_replay() {
    let bytes = session_update(None, [5, 0, 10]);
    let mut cur = ByteCursor::new(&bytes);
    let update = ACCDRealtimeUpdate::new(&mut cur).unwrap();
    assert_eq!(cur.pos, bytes.len());
    assert_eq!(update.event_index, 7);
    assert_eq!(update.session_index, 65535);
    assert_eq!(update.session_type, RaceSessionType::Race);
    assert_eq!(update.phase, SessionPhase::Session);
    assert_eq!(f32::from_bits(update.session_time.bits), 1_234_567.0);
    assert_eq!(f32::from_bits(update.session_end_time.bits), 3_600_000.0);
    assert_eq!(update.focused_car_index, -1);
    assert_eq!(update.active_camera_set, "Drivable");
    assert_eq!(update.active_camera, "Cockpit");
    assert_eq!(update.current_hud_page, "Basic HUD");
    assert!(!update.is_replay_playing);
    assert_eq!(update.replay_session_time.bits, 0);
    assert_eq!(update.replay_remaining_time.bits, 0);
    assert_eq!(f32::from_bits(update.time_of_day.bits), 43_200_000.0);
    assert_eq!(update.ambient_temp, 21);
    assert_eq!(update.track_temp, 29);
    assert_eq!(update.clouds_tenths, 5);
    assert_eq!(update.rain_level_tenths, 0);
    assert_eq!(update.wetness_tenths, 10);
    assert_eq!(update.best_session_lap.lap_time_ms, 101_000);
    assert_eq!(update.best_session_lap.splits, vec![33_000, 34_000, 34_000]);
    assert_eq!(update.best_session_lap.lap_type, LapType::Regular);
    assert_eq!(update.remaining_time.bits, 0);
    assert_eq!(update.session_remaining_time.bits, 0);
    assert_eq!(update.bestlap_car_index, 0);
    assert_eq!(update.bestlap_driver_index, 0);
}

#[test]
fn a_weather_byte_of_five_is_one_half() {
    let bytes = session_update(None, [5, 5, 5]);
    let mut cur = ByteCursor::new(&bytes);
    let update = ACCDRealtimeUpdate::new(&mut cur).unwrap();
    assert_eq!(update.clouds_tenths, 5);
    assert_eq!(update.rain_level_tenths, 5);
    assert_eq!(update.wetness_tenths, 5);
    assert_eq!(f32::from(update.clouds_tenths) / 10.0, 0.5);
    assert_eq!(f32::from(update.rain_level_tenths) / 10.0, 0.5);
    assert_eq!(f32::from(update.wetness_tenths) / 10.0, 0.5);
}

#[test]
fn weather_bytes_keep_their_places() {
    let bytes = session_update(None, [1, 2, 255]);
    let mut cur = ByteCursor::new(&bytes);
    let update = ACCDRealtimeUpdate::new(&mut cur).unwrap();
    assert_eq!(update.clouds_tenths, 1);
    assert_eq!(update.rain_level_tenths, 2);
    assert_eq!(update.wetness_tenths, 255);
}

#[test]
fn a_session_update_with_replay_holds_two_more_numbers() {
    let plain = session_update(None, [0, 0, 0]);
    let bytes = session_update(Some((1000.5, 250.25)), [0, 0, 0]);
    assert_eq!(bytes.len(), plain.len() + 8);
    let mut cur = ByteCursor::new(&bytes);
    let update = ACCDRealtimeUpdate::new(&mut cur).unwrap();
    assert_eq!(cur.pos, bytes.len());
    assert!(update.is_replay_playing);
    assert_eq!(f32::from_bits(update.replay_session_time.bits), 1000.5);
    assert_eq!(f32::from_bits(update.replay_remaining_time.bits), 250.25);
    assert_eq!(f32::from_bits(update.time_of_day.bits), 43_200_000.0);
    assert_eq!(update.ambient_temp, 21);
    assert_eq!(update.best_session_lap.lap_time_ms, 101_000);
}

#[test]
fn a_cut_session_update_is_malformed() {
    let bytes = session_update(Some((1.0, 2.0)), [1, 2, 3]);
    for len in 0..bytes.len() {
        let cut: Vec<u8> = bytes[..len].to_vec();
        let mut cur = ByteCursor::new(&cut);
        assert_eq!(ACCDRealtimeUpdate::new(&mut cur).err(), Some(ProtocolError::MalformedMessage));
        assert_eq!(cur.pos, 0);
    }
}

#[test]
fn the_default_session_update() {
    let update = ACCDRealtimeUpdate::default();
    assert_eq!(update.event_index, -1);
    assert_eq!(update.session_index, -1);
    assert_eq!(update.phase, SessionPhase::NONE);
    assert_eq!(update.session_type, RaceSessionType::Unknown(255));
    assert_eq!(update.clouds_tenths, -10);
    assert_eq!(update.rain_level_tenths, -10);
    assert_eq!(update.wetness_tenths, -10);
    assert_eq!(f32::from(update.clouds_tenths) / 10.0, -1.0);
    assert_eq!(f32::from_bits(update.replay_session_time.bits), -1.0);
    assert_eq!(f32::from_bits(update.replay_remaining_time.bits), -1.0);
    assert_eq!(f32::from_bits(update.session_time.bits), 0.0);
    assert_eq!(update.bestlap_car_index, 65535);
    assert_eq!(update.bestlap_driver_index, 65535);
    assert_eq!(update.focused_car_index, -1);
    assert_eq!(update.ambient_temp, 255);
    assert_eq!(update.track_temp, 255);
    assert!(!update.is_replay_playing);
    assert_eq!(update.active_camera_set, "");
    assert_eq!(update.best_session_lap.lap_type, LapType::Unknown(0));
}

#[test]
fn session_phase_from_a_tag() {
    assert_eq!(SessionPhase::from(0), SessionPhase::NONE);
    assert_eq!(SessionPhase::from(1), SessionPhase::Starting);
    assert_eq!(SessionPhase::from(2), SessionPhase::PreFormation);
    assert_eq!(SessionPhase::from(3), SessionPhase::FormationLap);
    assert_eq!(SessionPhase::from(4), SessionPhase::PreSession);
    assert_eq!(SessionPhase::from(5), SessionPhase::Session);
    assert_eq!(SessionPhase::from(6), SessionPhase::SessionOver);
    assert_eq!(SessionPhase::from(7), SessionPhase::PostSession);
    assert_eq!(SessionPhase::from(8), SessionPhase::ResultUI);
    assert_eq!(SessionPhase::from(9), SessionPhase::Unknown(9));
    assert_eq!(SessionPhase::from(255), SessionPhase::Unknown(255));
}

#[test]
fn race_session_type_from_a_tag() {
    assert_eq!(RaceSessionType::from(0), RaceSessionType::Practice);
    assert_eq!(RaceSessionType::from(4), RaceSessionType::Qualifying);
    assert_eq!(RaceSessionType::from(9), RaceSessionType::Superpole);
    assert_eq!(RaceSessionType::from(10), RaceSessionType::Race);
    assert_eq!(RaceSessionType::from(11), RaceSessionType::Hotlap);
    assert_eq!(RaceSessionType::from(12), RaceSessionType::Hotstint);
    assert_eq!(RaceSessionType::from(13), RaceSessionType::HotlapSuperpole);
    assert_eq!(RaceSessionType::from(14), RaceSessionType::Replay);
    assert_eq!(RaceSessionType::from(1), RaceSessionType::Unknown(1));
    assert_eq!(RaceSessionType::from(15), RaceSessionType::Unknown(15));
}

fn car_update_body() -> Vec<u8> {
    let mut bytes: Vec<u8> = Vec::new();
    bytes.push(4);
    bytes.extend_from_slice(&12.5f32.to_le_bytes());
    bytes.extend_from_slice(&(-7.25f32).to_le_bytes());
    bytes.extend_from_slice(&1.5f32.to_le_bytes());
    bytes.push(2);
    bytes.extend_from_slice(&187u16.to_le_bytes());
    bytes.extend_from_slice(&3u16.to_le_bytes());
    bytes.extend_from_slice(&2u16.to_le_bytes());
    bytes.extend_from_slice(&5u16.to_le_bytes());
    bytes.extend_from_slice(&0.75f32.to_le_bytes());
    bytes.extend_from_slice(&14u16.to_le_bytes());
    bytes.extend_from_slice(&(-350i32).to_le_bytes());
    put_lap(&mut bytes, 100_000, &[1, 2, 3], [0, 1, 0, 0]);
    put_lap(&mut bytes, 101_000, &[4, 5, 6], [1, 0, 0, 0]);
    put_lap(&mut bytes, 5_000, &[], [0, 0, 1, 0]);
    bytes
}

#[test]
fn a_car_update_is_decoded_field_by_field() {
    let bytes = car_update_body();
    let mut cur = ByteCursor::new(&bytes);
    let update = ACCDRealtimeCarUpdate::new(&mut cur, 9, 1, 2).unwrap();
    assert_eq!(cur.pos, bytes.len());
    assert_eq!(update.car_index, 9);
    assert_eq!(update.driver_index, 1);
    assert_eq!(update.driver_count, 2);
    assert_eq!(update.gear, 3);
    assert_eq!(f32::from_bits(update.world_pos_x.bits), 12.5);
    assert_eq!(f32::from_bits(update.world_pos_y.bits), -7.25);
    assert_eq!(f32::from_bits(update.yaw.bits), 1.5);
    assert_eq!(update.car_location, CarLocationEnum::Pitlane);
    assert_eq!(update.kmh, 187);
    assert_eq!(update.position, 3);
    assert_eq!(update.cup_position, 2);
    assert_eq!(update.track_position, 5);
    assert_eq!(f32::from_bits(update.spline_position.bits), 0.75);
    assert_eq!(update.laps, 14);
    assert_eq!(update.delta, -350);
    assert_eq!(update.best_session_lap.lap_time_ms, 100_000);
    assert_eq!(update.best_session_lap.splits, vec![1, 2, 3]);
    assert_eq!(update.last_lap.lap_time_ms, 101_000);
    assert!(update.last_lap.is_invalid);
    assert_eq!(update.current_lap.lap_time_ms, 5_000);
    assert_eq!(update.current_lap.lap_type, LapType::Outlap);
}

#[test]
fn gear_is_one_less_than_its_byte() {
    let mut bytes = car_update_body();
    bytes[0] = 0;
    let mut cur = ByteCursor::new(&bytes);
    assert_eq!(ACCDRealtimeCarUpdate::new(&mut cur, 0, 0, 0).unwrap().gear, -1);
    bytes[0] = 1;
    let mut cur = ByteCursor::new(&bytes);
    assert_eq!(ACCDRealtimeCarUpdate::new(&mut cur, 0, 0, 0).unwrap().gear, 0);
    bytes[0] = 255;
    let mut cur = ByteCursor::new(&bytes);
    assert_eq!(ACCDRealtimeCarUpdate::new(&mut cur, 0, 0, 0).unwrap().gear, 254);
}

#[test]
fn a_cut_car_update_is_malformed() {
    let bytes = car_update_body();
    for len in 0..bytes.len() {
        let cut: Vec<u8> = bytes[..len].to_vec();
        let mut cur = ByteCursor::new(&cut);
        assert_eq!(
            ACCDRealtimeCarUpdate::new(&mut cur, 1, 1, 1).err(),
            Some(ProtocolError::MalformedMessage)
        );
        assert_eq!(cur.pos, 0);
    }
}

#[test]
fn car_location_from_a_tag() {
    assert_eq!(CarLocationEnum::from(0), CarLocationEnum::NONE);
    assert_eq!(CarLocationEnum::from(1), CarLocationEnum::Track);
    assert_eq!(CarLocationEnum::from(2), CarLocationEnum::Pitlane);
    assert_eq!(CarLocationEnum::from(3), CarLocationEnum::PitEntry);
    assert_eq!(CarLocationEnum::from(4), CarLocationEnum::PitExit);
    assert_eq!(CarLocationEnum::from(5), CarLocationEnum::Unknown(5));
}

#[test]
fn the_default_car_update() {
    let update = ACCDRealtimeCarUpdate::default();
    assert_eq!(update.car_index, -1);
    assert_eq!(update.driver_index, -1);
    assert_eq!(update.gear, -1000);
    assert_eq!(update.car_location, CarLocationEnum::Unknown(255));
    assert_eq!(update.kmh, -1);
    assert_eq!(update.position, -1);
    assert_eq!(update.track_position, -1);
    assert_eq!(update.laps, -1);
    assert_eq!(update.delta, 0);
    assert_eq!(update.cup_position, 0);
    assert_eq!(update.driver_count, 255);
    assert_eq!(f32::from_bits(update.world_pos_x.bits), 0.0);
}

fn put_driver(bytes: &mut Vec<u8>, first: &str, last: &str, short: &str, grade: u8, country: u16) {
    put_string(bytes, first);
    put_string(bytes, last);
    put_string(bytes, short);
    bytes.push(grade);
    bytes.extend_from_slice(&country.to_le_bytes());
}

#[test]
fn a_driver_is_decoded_field_by_field() {
    let mut bytes: Vec<u8> = Vec::new();
    put_driver(&mut bytes, "Ayrton", "Senna", "SEN", 3, 17);
    let mut cur = ByteCursor::new(&bytes);
    let driver = ACCDDriverInfo::new(&mut cur).unwrap();
    assert_eq!(cur.pos, bytes.len());
    assert_eq!(driver.first_name, "Ayrton");
    assert_eq!(driver.last_name, "Senna");
    assert_eq!(driver.short_name, "SEN");
    assert_eq!(driver.category, DriverCategory::Platinum);
    assert_eq!(driver.nationality, NationalityEnum::Country(17));
}

#[test]
fn driver_category_from_a_tag() {
    assert_eq!(DriverCategory::from(0), DriverCategory::Bronze);
    assert_eq!(DriverCategory::from(1), DriverCategory::Silver);
    assert_eq!(DriverCategory::from(2), DriverCategory::Gold);
    assert_eq!(DriverCategory::from(3), DriverCategory::Platinum);
    assert_eq!(DriverCategory::from(4), DriverCategory::Unknown(4));
    assert_eq!(DriverCategory::from(255), DriverCategory::Unknown(255));
}

#[test]
fn a_roster_is_read_in_order_or_not_at_all() {
    let mut bytes: Vec<u8> = Vec::new();
    put_driver(&mut bytes, "A", "One", "ONE", 0, 1);
    put_driver(&mut bytes, "B", "Two", "TWO", 1, 2);
    let mut cur = ByteCursor::new(&bytes);
    let roster = ACCDDriverInfo::read_roster(&mut cur, 2).unwrap();
    assert_eq!(roster.len(), 2);
    assert_eq!(roster[0].last_name, "One");
    assert_eq!(roster[1].last_name, "Two");
    assert_eq!(roster[1].category, DriverCategory::Silver);
    assert_eq!(cur.pos, bytes.len());
    let mut cur = ByteCursor::new(&bytes);
    assert_eq!(
        ACCDDriverInfo::read_roster(&mut cur, 3).err(),
        Some(ProtocolError::MalformedMessage)
    );
    assert_eq!(cur.pos, 0);
    let mut cur = ByteCursor::new(&bytes);
    assert_eq!(ACCDDriverInfo::read_roster(&mut cur, 1).unwrap().len(), 1);
}

#[test]
fn the_default_driver() {
    let driver = ACCDDriverInfo::default();
    assert_eq!(driver.first_name, "");
    assert_eq!(driver.last_name, "");
    assert_eq!(driver.short_name, "");
    assert_eq!(driver.category, DriverCategory::Unknown(255));
    assert_eq!(driver.nationality, NationalityEnum::Unknown);
}

#[test]
fn a_placeholder_car_and_the_default_car() {
    let car = ACCDCarInfo::new(12);
    assert_eq!(car.car_index, 12);
    assert_eq!(car.car_model_type, 255);
    assert_eq!(car.team_name, "");
    assert_eq!(car.race_number, -1);
    assert_eq!(car.cup_category, 255);
    assert_eq!(car.current_driver_index, -1);
    assert!(car.drivers.is_empty());
    assert_eq!(car.nationality, NationalityEnum::Unknown);
    let unknown = ACCDCarInfo::default();
    assert_eq!(unknown.car_index, 65535);
    assert_eq!(unknown.car_model_type, 255);
    assert_eq!(unknown.race_number, -1);
    assert_eq!(unknown.cup_category, 255);
    assert_eq!(unknown.current_driver_index, -1);
    assert!(unknown.drivers.is_empty());
}

#[test]
fn car_details_are_decoded_field_by_field() {
    let mut bytes: Vec<u8> = Vec::new();
    bytes.push(24);
    put_string(&mut bytes, "Ferrari");
    bytes.extend_from_slice(&51i32.to_le_bytes());
    bytes.push(1);
    bytes.push(1);
    bytes.extend_from_slice(&1u16.to_le_bytes());
    bytes.push(2);
    put_driver(&mut bytes, "A", "One", "ONE", 0, 1);
    put_driver(&mut bytes, "B", "Two", "TWO", 2, 258);
    let mut cur = ByteCursor::new(&bytes);
    let car = ACCDCarInfo::read_details(&mut cur, 5).unwrap();
    assert_eq!(cur.pos, bytes.len());
    assert_eq!(car.car_index, 5);
    assert_eq!(car.car_model_type, 24);
    assert_eq!(car.team_name, "Ferrari");
    assert_eq!(car.race_number, 51);
    assert_eq!(car.cup_category, 1);
    assert_eq!(car.current_driver_index, 1);
    assert_eq!(car.nationality, NationalityEnum::Country(1));
    assert_eq!(car.drivers.len(), 2);
    assert_eq!(car.drivers[1].short_name, "TWO");
    assert_eq!(car.drivers[1].nationality, NationalityEnum::Country(258));
    for len in 0..bytes.len() {
        let cut: Vec<u8> = bytes[..len].to_vec();
        let mut cur = ByteCursor::new(&cut);
        assert_eq!(
            ACCDCarInfo::read_details(&mut cur, 5).err(),
            Some(ProtocolError::MalformedMessage)
        );
        assert_eq!(cur.pos, 0);
    }
}

#[test]
fn find_gives_the_first_car_with_the_index() {
    let mut first = ACCDCarInfo::new(5);
    first.team_name = "first".to_string();
    let mut second = ACCDCarInfo::new(5);
    second.team_name = "second".to_string();
    let cars = vec![ACCDCarInfo::new(1), first, ACCDCarInfo::new(9), second];
    assert_eq!(ACCDCarInfo::find(&cars, 1), Some(0));
    assert_eq!(ACCDCarInfo::find(&cars, 5), Some(1));
    assert_eq!(ACCDCarInfo::find(&cars, 9), Some(2));
    assert_eq!(ACCDCarInfo::find(&cars, 2), None);
    assert_eq!(ACCDCarInfo::find(&cars, 65535), None);
    assert_eq!(ACCDCarInfo::find(&Vec::new(), 5), None);
}

#[test]
fn a_registration_result_takes_the_rest_as_its_message() {
    let bytes: Vec<u8> = vec![42, 0, 0, 0, 1, 0, b'O', b'K'];
    let mut cur = ByteCursor::new(&bytes);
    let result = ACCDRegistrationResult::new(&mut cur).unwrap();
    assert_eq!(result.connection_id, 42);
    assert_eq!(result.connection_success, 1);
    assert_eq!(result.is_read_only, 0);
    assert_eq!(result.err_msg, "OK");
    assert_eq!(cur.pos, 8);
    let bare: Vec<u8> = vec![0xff, 0xff, 0xff, 0xff, 0, 1];
    let mut cur = ByteCursor::new(&bare);
    let result = ACCDRegistrationResult::new(&mut cur).unwrap();
    assert_eq!(result.connection_id, -1);
    assert_eq!(result.connection_success, 0);
    assert_eq!(result.is_read_only, 1);
    assert_eq!(result.err_msg, "");
    assert_eq!(cur.pos, 6);
}

#[test]
fn a_registration_result_that_is_short_or_not_utf8_is_malformed() {
    let short: Vec<u8> = vec![42, 0, 0, 0, 1];
    let mut cur = ByteCursor::new(&short);
    assert_eq!(ACCDRegistrationResult::new(&mut cur).err(), Some(ProtocolError::MalformedMessage));
    assert_eq!(cur.pos, 0);
    let bad: Vec<u8> = vec![42, 0, 0, 0, 1, 0, 0xff];
    let mut cur = ByteCursor::new(&bad);
    assert_eq!(ACCDRegistrationResult::new(&mut cur).err(), Some(ProtocolError::MalformedMessage));
    assert_eq!(cur.pos, 0);
}

#[test]
fn the_default_registration_result() {
    let result = ACCDRegistrationResult::default();
    assert_eq!(result.connection_id, -1);
    assert_eq!(result.connection_success, 0);
    assert_eq!(result.is_read_only, 0);
    assert_eq!(result.err_msg, "default");
}

fn track_bytes(sets: &[(&str, &[&str])], pages: &[&str]) -> Vec<u8> {
    let mut bytes: Vec<u8> = Vec::new();
    put_string(&mut bytes, "Spa-Francorchamps");
    bytes.extend_from_slice(&8i32.to_le_bytes());
    bytes.extend_from_slice(&7004i32.to_le_bytes());
    bytes.push(sets.len() as u8);
    for (name, cameras) in sets {
        put_string(&mut bytes, name);
        bytes.push(cameras.len() as u8);
        for camera in cameras.iter() {
            put_string(&mut bytes, camera);
        }
    }
    bytes.push(pages.len() as u8);
    for page in pages {
        put_string(&mut bytes, page);
    }
    bytes
}

#[test]
fn track_data_is_decoded_field_by_field() {
    let bytes = track_bytes(
        &[("set1", &["CameraTV1", "CameraTV2"]), ("Drivable", &[]), ("Onboard", &["Onboard0"])],
        &["Blank", "Basic HUD", "Help"],
    );
    let mut cur = ByteCursor::new(&bytes);
    let track = ACCDTrackData::new(&mut cur).unwrap();
    assert_eq!(cur.pos, bytes.len());
    assert_eq!(track.track_name, "Spa-Francorchamps");
    assert_eq!(track.track_id, 8);
    assert_eq!(track.track_meters, 7004);
    assert_eq!(track.camera_sets.len(), 3);
    assert_eq!(track.camera_sets[0].name, "set1");
    assert_eq!(track.camera_sets[0].cameras, vec!["CameraTV1".to_string(), "CameraTV2".to_string()]);
    assert_eq!(track.camera_sets[1].name, "Drivable");
    assert!(track.camera_sets[1].cameras.is_empty());
    assert_eq!(track.camera_sets[2].name, "Onboard");
    assert_eq!(track.hud_pages, vec!["Blank".to_string(), "Basic HUD".to_string(), "Help".to_string()]);
    assert_eq!(
        track.cameras_of(&"Onboard".to_string()),
        Some(&vec!["Onboard0".to_string()])
    );
    assert_eq!(track.cameras_of(&"Drivable".to_string()), Some(&Vec::new()));
    assert_eq!(track.cameras_of(&"Helicam".to_string()), None);
}

#[test]
fn of_two_camera_sets_with_one_name_the_later_stays() {
    let bytes = track_bytes(
        &[("set1", &["old1", "old2"]), ("set2", &["x"]), ("set1", &["new"]), ("set3", &[])],
        &[],
    );
    let mut cur = ByteCursor::new(&bytes);
    let track = ACCDTrackData::new(&mut cur).unwrap();
    assert_eq!(cur.pos, bytes.len());
    assert_eq!(track.camera_sets.len(), 3);
    assert_eq!(track.camera_sets[0].name, "set1");
    assert_eq!(track.camera_sets[0].cameras, vec!["new".to_string()]);
    assert_eq!(track.camera_sets[1].name, "set2");
    assert_eq!(track.camera_sets[2].name, "set3");
    assert_eq!(track.cameras_of(&"set1".to_string()), Some(&vec!["new".to_string()]));
    assert!(track.hud_pages.is_empty());
}

#[test]
fn a_cut_track_data_is_malformed() {
    let bytes = track_bytes(&[("set1", &["a", "b"]), ("set2", &["c"])], &["p", "q"]);
    for len in 0..bytes.len() {
        let cut: Vec<u8> = bytes[..len].to_vec();
        let mut cur = ByteCursor::new(&cut);
        assert_eq!(ACCDTrackData::new(&mut cur).err(), Some(ProtocolError::MalformedMessage));
        assert_eq!(cur.pos, 0);
    }
}

#[test]
fn the_default_track_data() {
    let track = ACCDTrackData::default();
    assert_eq!(track.track_name, "");
    assert_eq!(track.track_id, -1);
    assert_eq!(track.track_meters, -1);
    assert!(track.camera_sets.is_empty());
    assert!(track.hud_pages.is_empty());
}

#[test]
fn put_replaces_in_place_or_appends() {
    let mut sets: Vec<CameraSet> = Vec::new();
    CameraSet::put(&mut sets, CameraSet { name: "a".to_string(), cameras: vec!["1".to_string()] });
    CameraSet::put(&mut sets, CameraSet { name: "b".to_string(), cameras: vec![] });
    CameraSet::put(&mut sets, CameraSet { name: "a".to_string(), cameras: vec!["2".to_string()] });
    assert_eq!(sets.len(), 2);
    assert_eq!(sets[0].name, "a");
    assert_eq!(sets[0].cameras, vec!["2".to_string()]);
    assert_eq!(sets[1].name, "b");
    assert_eq!(CameraSet::find(&sets, &"b".to_string()), Some(1));
    assert_eq!(CameraSet::find(&sets, &"c".to_string()), None);
}
