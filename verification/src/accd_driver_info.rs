//! One driver of a car's roster.

use vstd::prelude::*;
use vstd::std_specs::convert::FromSpecImpl;
use crate::accd_enums::NationalityEnum;
use crate::accd_error::ProtocolError;
use crate::accd_seq::views;
use crate::accd_utils::{read_string, take_string};
use crate::accd_wire::{
    has_bytes,
    lemma_take_many_stays_none,
    reads,
    reads_all,
    take_many,
    u16_at,
    ByteCursor,
};

verus! {

/// The licence grade of a driver.
#[derive(Clone, Copy, Debug, PartialEq, Eq, Structural)]
pub enum DriverCategory {
    Platinum,
    Gold,
    Silver,
    Bronze,
    /// A tag that names no grade, with the tag itself.
    Unknown(u8),
}

impl From<u8> for DriverCategory {
    fn from(value: u8) -> (category: Self) {
        match value {
            0 => DriverCategory::Bronze,
            1 => DriverCategory::Silver,
            2 => DriverCategory::Gold,
            3 => DriverCategory::Platinum,
            _ => DriverCategory::Unknown(value),
        }
    }
}

/// The grade that a tag names.
pub open spec fn driver_category_of(value: u8) -> DriverCategory {
    match value {
        0 => DriverCategory::Bronze,
        1 => DriverCategory::Silver,
        2 => DriverCategory::Gold,
        3 => DriverCategory::Platinum,
        _ => DriverCategory::Unknown(value),
    }
}

impl FromSpecImpl<u8> for DriverCategory {
    open spec fn obeys_from_spec() -> bool {
        true
    }

    open spec fn from_spec(value: u8) -> Self {
        driver_category_of(value)
    }
}

/// A driver as a roster message describes them.
#[derive(Debug)]
pub struct ACCDDriverInfo {
    pub first_name: String,
    pub last_name: String,
    pub short_name: String,
    pub category: DriverCategory,
    pub nationality: NationalityEnum,
}

/// The mathematical value of an [`ACCDDriverInfo`].
pub struct DriverInfoView {
    pub first_name: Seq<char>,
    pub last_name: Seq<char>,
    pub short_name: Seq<char>,
    pub category: DriverCategory,
    pub nationality: NationalityEnum,
}

impl View for ACCDDriverInfo {
    type V = DriverInfoView;

    open spec fn view(&self) -> DriverInfoView {
        DriverInfoView {
            first_name: self.first_name@,
            last_name: self.last_name@,
            short_name: self.short_name@,
            category: self.category,
            nationality: self.nationality,
        }
    }
}

/// The driver that stands for "not known".
pub open spec fn default_driver_info() -> DriverInfoView {
    DriverInfoView {
        first_name: Seq::empty(),
        last_name: Seq::empty(),
        short_name: Seq::empty(),
        category: DriverCategory::Unknown(255),
        nationality: NationalityEnum::Unknown,
    }
}

/// The driver at `at` and the offset behind it: first, last and short name,
/// a grade byte and a 16-bit country code.
pub open spec fn take_driver(s: Seq<u8>, at: int) -> Option<(DriverInfoView, int)> {
    let first = take_string(s, at);
    let last = take_string(s, first.unwrap().1);
    let short = take_string(s, last.unwrap().1);
    let tail = short.unwrap().1;
    if first is Some && last is Some && short is Some && has_bytes(s, tail, 3) {
        Some(
            (
                DriverInfoView {
                    first_name: first.unwrap().0,
                    last_name: last.unwrap().0,
                    short_name: short.unwrap().0,
                    category: driver_category_of(s[tail]),
                    nationality: NationalityEnum::Country(u16_at(s, tail + 1)),
                },
                tail + 3,
            ),
        )
    } else {
        None
    }
}

/// `n` drivers in a row from `at` on.
pub open spec fn take_drivers(s: Seq<u8>, at: int, n: nat) -> Option<(Seq<DriverInfoView>, int)> {
    take_many(|s: Seq<u8>, p: int| take_driver(s, p), s, at, n)
}

impl ACCDDriverInfo {
    /// Decodes a driver at the cursor.
    pub fn new(cur: &mut ByteCursor) -> (r: Result<ACCDDriverInfo, ProtocolError>)
        ensures
            reads(*old(cur), *final(cur), r, take_driver(old(cur).data@, old(cur).pos as int)),
    {
        let mut c = *cur;
        let first_name = read_string(&mut c)?;
        let last_name = read_string(&mut c)?;
        let short_name = read_string(&mut c)?;
        let category = DriverCategory::from(c.read_u8()?);
        let nationality = NationalityEnum::Country(c.read_u16()?);
        *cur = c;
        Ok(ACCDDriverInfo { first_name, last_name, short_name, category, nationality })
    }

    /// Decodes `count` drivers in a row at the cursor.
    pub fn read_roster(cur: &mut ByteCursor, count: u8) -> (r: Result<
        Vec<ACCDDriverInfo>,
        ProtocolError,
    >)
        ensures
            reads_all(
                *old(cur),
                *final(cur),
                r,
                take_drivers(old(cur).data@, old(cur).pos as int, count as nat),
            ),
    {
        let mut c = *cur;
        let ghost s = cur.data@;
        let ghost at = cur.pos as int;
        let mut drivers: Vec<ACCDDriverInfo> = Vec::new();
        let mut i: u8 = 0;
        assert(views(drivers@) =~= Seq::empty());
        while i < count
            invariant
                c.data == cur.data,
                s == cur.data@,
                at == cur.pos,
                *cur == *old(cur),
                i <= count,
                take_drivers(s, at, i as nat) == Some((views(drivers@), c.pos as int)),
            decreases count - i,
        {
            let ghost before = views(drivers@);
            match ACCDDriverInfo::new(&mut c) {
                Ok(driver) => {
                    drivers.push(driver);
                },
                Err(e) => {
                    proof {
                        lemma_take_many_stays_none(
                            |s: Seq<u8>, p: int| take_driver(s, p),
                            s,
                            at,
                            (i + 1) as nat,
                            count as nat,
                        );
                    }
                    return Err(e);
                },
            }
            i = i + 1;
            assert(views(drivers@) =~= before.push(drivers@.last()@));
        }
        *cur = c;
        Ok(drivers)
    }
}

impl Clone for ACCDDriverInfo {
    fn clone(&self) -> (copy: Self)
        ensures
            copy@ == self@,
    {
        ACCDDriverInfo {
            first_name: self.first_name.clone(),
            last_name: self.last_name.clone(),
            short_name: self.short_name.clone(),
            category: self.category,
            nationality: self.nationality,
        }
    }
}

impl Default for ACCDDriverInfo {
    fn default() -> (driver: Self)
        ensures
            driver@ == default_driver_info(),
    {
        ACCDDriverInfo {
            first_name: String::new(),
            last_name: String::new(),
            short_name: String::new(),
            category: DriverCategory::Unknown(255),
            nationality: NationalityEnum::Unknown,
        }
    }
}

} // verus!
