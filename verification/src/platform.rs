//! What passes between the resolvers and the host's time-zone service:
//! calendar moments, the host's calendar record, its tick values, and its
//! report of the time zone in force.

use crate::offset::div_toward_zero;
use vstd::prelude::*;

verus! {

/// The number of ticks in one second: a tick is 100 nanoseconds.
pub const TICKS_PER_SECOND: u64 = 10_000_000;

/// A civil date and time of day, down to the millisecond. The fields are
/// taken as they are given: whether they name a real moment is for the host
/// to say when it converts them.
#[derive(Debug, Copy, Clone, PartialEq, Eq, Structural, Hash)]
pub struct CalendarMoment {
    pub year: i32,
    /// 1 for January to 12 for December.
    pub month: u8,
    pub day: u8,
    pub hour: u8,
    pub minute: u8,
    pub second: u8,
    pub millisecond: u16,
}

/// A date and time of day in the host's own calendar record, every field 16
/// bits wide.
#[derive(Debug, Copy, Clone, PartialEq, Eq, Structural, Hash)]
pub struct SystemTime {
    pub year: u16,
    pub month: u16,
    /// The host works the day of the week out for itself on input.
    pub day_of_week: u16,
    pub day: u16,
    pub hour: u16,
    pub minute: u16,
    pub second: u16,
    pub milliseconds: u16,
}

impl CalendarMoment {
    /// The host's record of this moment, where its 16-bit year can hold the
    /// year.
    pub open spec fn systemtime(self) -> Option<SystemTime> {
        if 0 <= self.year <= u16::MAX {
            Some(
                SystemTime {
                    year: self.year as u16,
                    month: self.month as u16,
                    day_of_week: 0,
                    day: self.day as u16,
                    hour: self.hour as u16,
                    minute: self.minute as u16,
                    second: self.second as u16,
                    milliseconds: self.millisecond,
                },
            )
        } else {
            None
        }
    }

    /// Writes the moment into the host's calendar record, field by field.
    /// There is none for a year that 16 bits cannot hold.
    pub fn to_systemtime(self) -> (systime: Option<SystemTime>)
        ensures
            systime == self.systemtime(),
            systime is Some <==> 0 <= self.year <= u16::MAX,
    {
        if self.year < 0 || self.year > 0xffff {
            return None;
        }
        Some(
            SystemTime {
                year: self.year as u16,
                month: self.month as u16,
                day_of_week: 0,
                day: self.day as u16,
                hour: self.hour as u16,
                minute: self.minute as u16,
                second: self.second as u16,
                milliseconds: self.millisecond,
            },
        )
    }
}

/// An absolute time in the host's ticks, held as the host hands it out: in
/// two 32-bit halves.
#[derive(Debug, Copy, Clone, PartialEq, Eq, Structural, Hash)]
pub struct TickTime {
    pub low: u32,
    pub high: u32,
}

impl View for TickTime {
    type V = int;

    /// The number of ticks: the high half counts units of 2^32.
    open spec fn view(&self) -> int {
        self.high * 0x1_0000_0000 + self.low
    }
}

impl TickTime {
    /// The tick value of `ticks` ticks.
    pub fn from_ticks(ticks: u64) -> (tick: TickTime)
        ensures
            tick@ == ticks,
    {
        TickTime { low: (ticks % 0x1_0000_0000) as u32, high: (ticks / 0x1_0000_0000) as u32 }
    }

    /// The number of ticks.
    pub fn ticks(self) -> (ticks: u64)
        ensures
            ticks == self@,
    {
        self.high as u64 * 0x1_0000_0000 + self.low as u64
    }

    /// A tick value is its number of ticks: two with the same number are
    /// equal, and the number fits in 64 bits.
    pub proof fn lemma_same_ticks(a: TickTime, b: TickTime)
        ensures
            a@ == b@ <==> a == b,
            0 <= a@ <= u64::MAX,
    {
    }
}

/// The whole seconds by which `a` is later than `b`, negative where it is
/// earlier: the difference of the two tick counts, divided by the ticks in a
/// second and rounded toward zero.
pub fn diff_seconds(a: TickTime, b: TickTime) -> (seconds: i64)
    ensures
        seconds == div_toward_zero(a@ - b@, TICKS_PER_SECOND as int),
{
    let later: u64 = a.ticks();
    let earlier: u64 = b.ticks();
    if later >= earlier {
        ((later - earlier) / TICKS_PER_SECOND) as i64
    } else {
        -(((earlier - later) / TICKS_PER_SECOND) as i64)
    }
}

/// Which daylight-saving regime the host says is in force.
#[derive(Debug, Copy, Clone, PartialEq, Eq, Structural, Hash)]
pub enum DstStatus {
    /// The zone has no daylight-saving transitions.
    Unknown,
    /// Standard time is in force.
    Standard,
    /// Daylight-saving time is in force.
    Daylight,
    /// The host could not say.
    QueryFailed,
}

impl DstStatus {
    /// The status that the host's numeric code stands for.
    pub open spec fn of_code(code: u32) -> DstStatus {
        if code == 0 {
            DstStatus::Unknown
        } else if code == 1 {
            DstStatus::Standard
        } else if code == 2 {
            DstStatus::Daylight
        } else {
            DstStatus::QueryFailed
        }
    }

    /// Reads the host's numeric status code: 0, 1 and 2 are the three regimes,
    /// and every other code counts as a failed query.
    pub fn from_code(code: u32) -> (status: DstStatus)
        ensures
            status == DstStatus::of_code(code),
    {
        match code {
            0 => DstStatus::Unknown,
            1 => DstStatus::Standard,
            2 => DstStatus::Daylight,
            _ => DstStatus::QueryFailed,
        }
    }
}

/// The host's report of the time zone in force. A bias is in minutes and
/// runs the other way from an offset: UTC is local time plus the bias.
#[derive(Debug, Copy, Clone, PartialEq, Eq, Structural, Hash)]
pub struct TimeZoneReport {
    /// The zone's base bias.
    pub bias: i32,
    /// What standard time adds to the base bias.
    pub standard_bias: i32,
    /// What daylight-saving time adds to the base bias.
    pub daylight_bias: i32,
    pub status: DstStatus,
}

} // verus!
