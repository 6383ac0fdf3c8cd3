//! One lap: its time, its sector splits and what kind of lap it was.

use vstd::prelude::*;
use vstd::std_specs::convert::FromSpecImpl;
use vstd::string::StringExecFns;
use crate::accd_error::ProtocolError;
use crate::accd_text::{decimal, push_decimal};
use crate::accd_wire::{has_bytes, i32_at, reads, u16_at, ByteCursor};

verus! {

/// What kind of lap a car is on.
#[derive(Clone, Copy, Debug, PartialEq, Eq, Structural)]
pub enum LapType {
    Outlap,
    Regular,
    Inlap,
    /// A tag that names no kind, with the tag itself.
    Unknown(u8),
}

impl From<u8> for LapType {
    fn from(value: u8) -> (kind: Self) {
        match value {
            1 => LapType::Outlap,
            2 => LapType::Regular,
            3 => LapType::Inlap,
            _ => LapType::Unknown(value),
        }
    }
}

/// The kind of lap that a tag names.
pub open spec fn lap_type_of(value: u8) -> LapType {
    match value {
        1 => LapType::Outlap,
        2 => LapType::Regular,
        3 => LapType::Inlap,
        _ => LapType::Unknown(value),
    }
}

impl FromSpecImpl<u8> for LapType {
    open spec fn obeys_from_spec() -> bool {
        true
    }

    open spec fn from_spec(value: u8) -> Self {
        lap_type_of(value)
    }
}

/// The kind of a lap as its two wire flags give it: an out lap wins over an
/// in lap, and a lap that is neither is a regular one.
pub open spec fn lap_kind(is_outlap: bool, is_inlap: bool) -> LapType {
    if is_outlap {
        LapType::Outlap
    } else if is_inlap {
        LapType::Inlap
    } else {
        LapType::Regular
    }
}

/// A lap as decoded from a car or session update.
#[derive(Debug)]
pub struct ACCDLapInfo {
    pub lap_time_ms: i32,
    pub splits: Vec<i32>,
    pub car_index: u16,
    pub driver_index: u16,
    pub is_invalid: bool,
    pub is_valid_for_best: bool,
    pub lap_type: LapType,
}

/// The mathematical value of an [`ACCDLapInfo`].
pub struct LapInfoView {
    pub lap_time_ms: i32,
    pub splits: Seq<i32>,
    pub car_index: u16,
    pub driver_index: u16,
    pub is_invalid: bool,
    pub is_valid_for_best: bool,
    pub lap_type: LapType,
}

impl View for ACCDLapInfo {
    type V = LapInfoView;

    open spec fn view(&self) -> LapInfoView {
        LapInfoView {
            lap_time_ms: self.lap_time_ms,
            splits: self.splits@,
            car_index: self.car_index,
            driver_index: self.driver_index,
            is_invalid: self.is_invalid,
            is_valid_for_best: self.is_valid_for_best,
            lap_type: self.lap_type,
        }
    }
}

/// The lap that a decoder has before any message has told it one.
pub open spec fn default_lap_info() -> LapInfoView {
    LapInfoView {
        lap_time_ms: 0,
        splits: Seq::empty(),
        car_index: 0,
        driver_index: 0,
        is_invalid: false,
        is_valid_for_best: false,
        lap_type: LapType::Unknown(0),
    }
}

/// The lap at `at` and the offset behind it. A lap is its time, a car and a
/// driver index, a count byte, that many splits, and four flag bytes:
/// invalid, valid for best, out lap, in lap. A flag is set when its byte is
/// not zero.
pub open spec fn take_lap_info(s: Seq<u8>, at: int) -> Option<(LapInfoView, int)> {
    if has_bytes(s, at, 9) && has_bytes(s, at + 9, 4 * (s[at + 8] as int) + 4) {
        let count = s[at + 8] as int;
        let flags = at + 9 + 4 * count;
        Some(
            (
                LapInfoView {
                    lap_time_ms: i32_at(s, at),
                    splits: Seq::new(count as nat, |i: int| i32_at(s, at + 9 + 4 * i)),
                    car_index: u16_at(s, at + 4),
                    driver_index: u16_at(s, at + 6),
                    is_invalid: s[flags] > 0,
                    is_valid_for_best: s[flags + 1] > 0,
                    lap_type: lap_kind(s[flags + 2] > 0, s[flags + 3] > 0),
                },
                flags + 4,
            ),
        )
    } else {
        None
    }
}

/// The split times in decimal, with a bar between one and the next.
pub open spec fn splits_text(splits: Seq<i32>) -> Seq<char>
    decreases splits.len(),
{
    if splits.len() == 0 {
        Seq::empty()
    } else if splits.len() == 1 {
        decimal(splits[0] as int)
    } else {
        splits_text(splits.drop_last()) + seq!['|'] + decimal(splits.last() as int)
    }
}

/// A lap as one line of text: the lap time in decimal and, right behind
/// it, the split times with a bar between one and the next.
pub open spec fn lap_text(lap: LapInfoView) -> Seq<char> {
    decimal(lap.lap_time_ms as int) + splits_text(lap.splits)
}

impl ACCDLapInfo {
    /// The lap as one line of text.
    pub fn to_string(&self) -> (text: String)
        ensures
            text@ == lap_text(self@),
    {
        let mut text = String::new();
        push_decimal(&mut text, self.lap_time_ms);
        let mut i: usize = 0;
        assert(self.splits@.take(0) =~= Seq::empty());
        while i < self.splits.len()
            invariant
                i <= self.splits.len(),
                text@ == decimal(self.lap_time_ms as int) + splits_text(self.splits@.take(i as int)),
            decreases self.splits.len() - i,
        {
            if i > 0 {
                proof {
                    reveal_strlit("|");
                }
                text.append("|");
            }
            push_decimal(&mut text, self.splits[i]);
            proof {
                let done = self.splits@.take(i + 1);
                assert(done.drop_last() =~= self.splits@.take(i as int));
                assert(done.last() == self.splits@[i as int]);
                assert("|"@ =~= seq!['|']) by {
                    reveal_strlit("|");
                }
                assert(text@ =~= decimal(self.lap_time_ms as int) + splits_text(done));
            }
            i = i + 1;
        }
        assert(self.splits@.take(i as int) =~= self.splits@);
        text
    }

    /// Decodes a lap at the cursor.
    pub fn new(cur: &mut ByteCursor) -> (r: Result<ACCDLapInfo, ProtocolError>)
        ensures
            reads(*old(cur), *final(cur), r, take_lap_info(old(cur).data@, old(cur).pos as int)),
    {
        let mut c = *cur;
        let ghost s = cur.data@;
        let ghost at = cur.pos as int;
        let lap_time_ms: i32 = c.read_i32()?;
        let car_index: u16 = c.read_u16()?;
        let driver_index: u16 = c.read_u16()?;
        let split_count: u8 = c.read_u8()?;
        let mut splits: Vec<i32> = Vec::new();
        let mut i: u8 = 0;
        while i < split_count
            invariant
                c.data == cur.data,
                s == cur.data@,
                at == cur.pos,
                has_bytes(s, at, 9),
                split_count == s[at + 8],
                i <= split_count,
                c.pos == at + 9 + 4 * i,
                splits@ == Seq::new(i as nat, |k: int| i32_at(s, at + 9 + 4 * k)),
                *cur == *old(cur),
            decreases split_count - i,
        {
            let split: i32 = c.read_i32()?;
            splits.push(split);
            i = i + 1;
            assert(splits@ =~= Seq::new(i as nat, |k: int| i32_at(s, at + 9 + 4 * k)));
        }
        let is_invalid = c.read_u8()? > 0;
        let is_valid_for_best = c.read_u8()? > 0;
        let is_out_lap = c.read_u8()? > 0;
        let is_in_lap = c.read_u8()? > 0;
        let lap_type = if is_out_lap {
            LapType::Outlap
        } else if is_in_lap {
            LapType::Inlap
        } else {
            LapType::Regular
        };
        *cur = c;
        Ok(
            ACCDLapInfo {
                lap_time_ms,
                splits,
                car_index,
                driver_index,
                is_invalid,
                is_valid_for_best,
                lap_type,
            },
        )
    }
}

impl Clone for ACCDLapInfo {
    fn clone(&self) -> (copy: Self)
        ensures
            copy@ == self@,
    {
        ACCDLapInfo {
            lap_time_ms: self.lap_time_ms,
            splits: self.splits.clone(),
            car_index: self.car_index,
            driver_index: self.driver_index,
            is_invalid: self.is_invalid,
            is_valid_for_best: self.is_valid_for_best,
            lap_type: self.lap_type,
        }
    }
}

impl Default for ACCDLapInfo {
    fn default() -> (lap: Self)
        ensures
            lap@ == default_lap_info(),
    {
        ACCDLapInfo {
            lap_time_ms: 0,
            splits: Vec::new(),
            car_index: 0,
            driver_index: 0,
            is_invalid: false,
            is_valid_for_best: false,
            lap_type: LapType::Unknown(0),
        }
    }
}

/// Whatever else a lap message holds, its kind goes by the two last flag
/// bytes alone: out lap if the first is set, else in lap if the second is,
/// else regular.
pub proof fn lemma_lap_kind_precedence(s: Seq<u8>, at: int)
    requires
        take_lap_info(s, at) is Some,
    ensures
        ({
            let (lap, next) = take_lap_info(s, at)->0;
            &&& s[next - 2] > 0 ==> lap.lap_type == LapType::Outlap
            &&& s[next - 2] == 0 && s[next - 1] > 0 ==> lap.lap_type == LapType::Inlap
            &&& s[next - 2] == 0 && s[next - 1] == 0 ==> lap.lap_type == LapType::Regular
        }),
{
}

} // verus!
