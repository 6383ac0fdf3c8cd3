//! One car of the entry list, and the look-up of a car by its index.

use vstd::prelude::*;
use crate::accd_driver_info::{take_drivers, ACCDDriverInfo, DriverInfoView};
use crate::accd_enums::NationalityEnum;
use crate::accd_error::ProtocolError;
use crate::accd_utils::{read_string, take_string};
use crate::accd_seq::{first_where, lemma_first_where, lemma_first_where_unique, views};
use crate::accd_wire::{has_bytes, i32_at, reads, u16_at, ByteCursor};

verus! {

/// A car of the entry list. It starts as a bare index and is filled in
/// when the details of that car arrive.
#[derive(Debug)]
pub struct ACCDCarInfo {
    pub car_index: u16,
    pub car_model_type: u8,
    pub team_name: String,
    pub race_number: i32,
    pub cup_category: u8,
    pub current_driver_index: i32,
    pub drivers: Vec<ACCDDriverInfo>,
    pub nationality: NationalityEnum,
}

/// The mathematical value of an [`ACCDCarInfo`].
pub struct CarInfoView {
    pub car_index: u16,
    pub car_model_type: u8,
    pub team_name: Seq<char>,
    pub race_number: i32,
    pub cup_category: u8,
    pub current_driver_index: i32,
    pub drivers: Seq<DriverInfoView>,
    pub nationality: NationalityEnum,
}

impl View for ACCDCarInfo {
    type V = CarInfoView;

    open spec fn view(&self) -> CarInfoView {
        CarInfoView {
            car_index: self.car_index,
            car_model_type: self.car_model_type,
            team_name: self.team_name@,
            race_number: self.race_number,
            cup_category: self.cup_category,
            current_driver_index: self.current_driver_index,
            drivers: views(self.drivers@),
            nationality: self.nationality,
        }
    }
}

/// A car of which only the index is known.
pub open spec fn placeholder_car(car_index: u16) -> CarInfoView {
    CarInfoView {
        car_index,
        car_model_type: 255,
        team_name: Seq::empty(),
        race_number: -1i32,
        cup_category: 255,
        current_driver_index: -1i32,
        drivers: Seq::empty(),
        nationality: NationalityEnum::Unknown,
    }
}

/// The car that stands for "not known": index 65535, every other field as
/// in a placeholder.
pub open spec fn default_car_info() -> CarInfoView {
    placeholder_car(65535)
}

/// The details of car `car_index` at `at` and the offset behind them: model
/// (a byte), team name, race number, cup category and current driver (a
/// byte each), a 16-bit country code, a count byte and that many drivers.
pub open spec fn take_car_details(s: Seq<u8>, at: int, car_index: u16) -> Option<
    (CarInfoView, int),
> {
    let team = take_string(s, at + 1);
    let tail = team.unwrap().1;
    let drivers = take_drivers(s, tail + 9, s[tail + 8] as nat);
    if has_bytes(s, at, 1) && team is Some && has_bytes(s, tail, 9) && drivers is Some {
        Some(
            (
                CarInfoView {
                    car_index,
                    car_model_type: s[at],
                    team_name: team.unwrap().0,
                    race_number: i32_at(s, tail),
                    cup_category: s[tail + 4],
                    current_driver_index: s[tail + 5] as i32,
                    nationality: NationalityEnum::Country(u16_at(s, tail + 6)),
                    drivers: drivers.unwrap().0,
                },
                drivers.unwrap().1,
            ),
        )
    } else {
        None
    }
}

/// The first place in `cars` that holds car `car_index`, if there is one.
pub open spec fn car_position(cars: Seq<CarInfoView>, car_index: u16) -> Option<int> {
    first_where(cars, |car: CarInfoView| car.car_index == car_index)
}

/// The car that a look-up of `car_index` gives: the first in `cars` with
/// that index, and the default car where there is none.
pub open spec fn car_or_default(cars: Seq<CarInfoView>, car_index: u16) -> CarInfoView {
    match car_position(cars, car_index) {
        Some(i) => cars[i],
        None => default_car_info(),
    }
}

impl ACCDCarInfo {
    /// A car of which only the index is known.
    pub fn new(car_index: u16) -> (car: Self)
        ensures
            car@ == placeholder_car(car_index),
    {
        let car = ACCDCarInfo {
            car_index,
            car_model_type: 255,
            team_name: String::new(),
            race_number: -1,
            cup_category: 255,
            current_driver_index: -1,
            drivers: Vec::new(),
            nationality: NationalityEnum::Unknown,
        };
        assert(car@.drivers =~= Seq::empty());
        car
    }

    /// Decodes the details of car `car_index` at the cursor.
    pub fn read_details(cur: &mut ByteCursor, car_index: u16) -> (r: Result<
        ACCDCarInfo,
        ProtocolError,
    >)
        ensures
            reads(
                *old(cur),
                *final(cur),
                r,
                take_car_details(old(cur).data@, old(cur).pos as int, car_index),
            ),
    {
        let mut c = *cur;
        let car_model_type: u8 = c.read_u8()?;
        let team_name = read_string(&mut c)?;
        let race_number: i32 = c.read_i32()?;
        let cup_category: u8 = c.read_u8()?;
        let current_driver_index: i32 = c.read_u8()? as i32;
        let nationality = NationalityEnum::Country(c.read_u16()?);
        let driver_count: u8 = c.read_u8()?;
        let drivers = ACCDDriverInfo::read_roster(&mut c, driver_count)?;
        *cur = c;
        Ok(
            ACCDCarInfo {
                car_index,
                car_model_type,
                team_name,
                race_number,
                cup_category,
                current_driver_index,
                drivers,
                nationality,
            },
        )
    }

    /// The place of the first car in `cars` with index `car_index`.
    pub fn find(cars: &Vec<ACCDCarInfo>, car_index: u16) -> (place: Option<usize>)
        ensures
            match place {
                Some(i) => car_position(views(cars@), car_index) == Some(i as int),
                None => car_position(views(cars@), car_index) is None,
            },
    {
        let mut i: usize = 0;
        while i < cars.len()
            invariant
                i <= cars.len(),
                forall|j: int| 0 <= j < i ==> (#[trigger] views(cars@)[j]).car_index != car_index,
            decreases cars.len() - i,
        {
            if cars[i].car_index == car_index {
                proof {
                    lemma_first_where_unique(
                        views(cars@),
                        |car: CarInfoView| car.car_index == car_index,
                        i as int,
                    );
                }
                return Some(i);
            }
            i = i + 1;
        }
        proof {
            lemma_first_where(views(cars@), |car: CarInfoView| car.car_index == car_index);
            if car_position(views(cars@), car_index) is Some {
                let k = car_position(views(cars@), car_index).unwrap();
                assert(views(cars@)[k].car_index == car_index);
            }
        }
        None
    }
}

impl Clone for ACCDCarInfo {
    fn clone(&self) -> (copy: Self)
        ensures
            copy@ == self@,
    {
        let drivers = self.drivers.clone();
        assert(views(drivers@) =~= views(self.drivers@));
        ACCDCarInfo {
            car_index: self.car_index,
            car_model_type: self.car_model_type,
            team_name: self.team_name.clone(),
            race_number: self.race_number,
            cup_category: self.cup_category,
            current_driver_index: self.current_driver_index,
            drivers,
            nationality: self.nationality,
        }
    }
}

impl Default for ACCDCarInfo {
    fn default() -> (car: Self)
        ensures
            car@ == default_car_info(),
    {
        ACCDCarInfo::new(65535)
    }
}

} // verus!
