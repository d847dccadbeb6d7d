//! The offset value: a signed number of seconds, east of UTC positive.

use crate::duration::Duration;
use vstd::prelude::*;

verus! {

/// The quotient of `n` by a positive `d`, rounded toward zero.
pub open spec fn div_toward_zero(n: int, d: int) -> int {
    if n >= 0 {
        n / d
    } else {
        -((-n) / d)
    }
}

/// The number in the signed 32-bit range that differs from `n` by a multiple
/// of 2^32: what is left of `n` in a 32-bit field.
pub open spec fn wrap_i32(n: int) -> int {
    let low = n % 0x1_0000_0000;
    if low < 0x8000_0000 {
        low
    } else {
        low - 0x1_0000_0000
    }
}

/// An offset from UTC, in whole seconds. Positive is east, negative is west.
///
/// Offsets up to 23:59:59 either way are the supported range; the type holds
/// any 32-bit number of seconds.
#[derive(Debug, Copy, Clone, PartialEq, Eq, Structural, Hash, Ord)]
pub struct UtcOffset {
    seconds: i32,
}

impl View for UtcOffset {
    type V = int;

    /// The number of seconds east of UTC.
    closed spec fn view(&self) -> int {
        self.seconds as int
    }
}

impl UtcOffset {
    /// The offset of UTC itself.
    pub fn utc() -> (offset: UtcOffset)
        ensures
            offset@ == 0,
    {
        UtcOffset { seconds: 0 }
    }

    /// An offset of `hours` hours to the east.
    pub fn east_hours(hours: u8) -> (offset: UtcOffset)
        ensures
            offset@ == 3600 * hours,
    {
        UtcOffset { seconds: hours as i32 * 3_600 }
    }

    /// An offset of `hours` hours to the west.
    pub fn west_hours(hours: u8) -> (offset: UtcOffset)
        ensures
            offset@ == -3600 * hours,
    {
        UtcOffset { seconds: -(hours as i32 * 3_600) }
    }

    /// An offset of `hours` hours, east if positive.
    pub fn hours(hours: i8) -> (offset: UtcOffset)
        ensures
            offset@ == 3600 * hours,
    {
        UtcOffset { seconds: hours as i32 * 3_600 }
    }

    /// An offset of `minutes` minutes to the east.
    pub fn east_minutes(minutes: u16) -> (offset: UtcOffset)
        ensures
            offset@ == 60 * minutes,
    {
        UtcOffset { seconds: minutes as i32 * 60 }
    }

    /// An offset of `minutes` minutes to the west.
    pub fn west_minutes(minutes: u16) -> (offset: UtcOffset)
        ensures
            offset@ == -60 * minutes,
    {
        UtcOffset { seconds: -(minutes as i32 * 60) }
    }

    /// An offset of `minutes` minutes, east if positive.
    pub fn minutes(minutes: i16) -> (offset: UtcOffset)
        ensures
            offset@ == 60 * minutes,
    {
        UtcOffset { seconds: minutes as i32 * 60 }
    }

    /// An offset of `seconds` seconds to the east. A magnitude beyond the
    /// signed 32-bit range wraps round.
    pub fn east_seconds(seconds: u32) -> (offset: UtcOffset)
        ensures
            offset@ == wrap_i32(seconds as int),
            seconds <= i32::MAX ==> offset@ == seconds,
    {
        if seconds <= 0x7fff_ffff {
            UtcOffset { seconds: seconds as i32 }
        } else {
            UtcOffset { seconds: (seconds as i64 - 0x1_0000_0000) as i32 }
        }
    }

    /// An offset of `seconds` seconds to the west. A magnitude beyond the
    /// signed 32-bit range wraps round.
    pub fn west_seconds(seconds: u32) -> (offset: UtcOffset)
        ensures
            offset@ == wrap_i32(-(seconds as int)),
            seconds <= 0x8000_0000 ==> offset@ == -seconds,
    {
        if seconds <= 0x8000_0000 {
            UtcOffset { seconds: (-(seconds as i64)) as i32 }
        } else {
            UtcOffset { seconds: (0x1_0000_0000 - seconds as i64) as i32 }
        }
    }

    /// An offset of `seconds` seconds, east if positive.
    pub fn seconds(seconds: i32) -> (offset: UtcOffset)
        ensures
            offset@ == seconds,
    {
        UtcOffset { seconds }
    }

    /// The number of seconds east of UTC.
    pub fn as_seconds(self) -> (seconds: i32)
        ensures
            seconds == self@,
    {
        self.seconds
    }

    /// The number of whole minutes east of UTC, rounded toward zero. Within
    /// the supported range it is exact; a quotient beyond 16 bits is cut to
    /// its low 16 bits.
    pub fn as_minutes(self) -> (minutes: i16)
        ensures
            minutes == div_toward_zero(self@, 60) as i16,
            i16::MIN <= div_toward_zero(self@, 60) <= i16::MAX ==> minutes == div_toward_zero(
                self@,
                60,
            ),
    {
        #[verifier::truncate]
        ((self.seconds / 60) as i16)
    }

    /// The number of whole hours east of UTC, rounded toward zero. Within the
    /// supported range it is exact; a quotient beyond 8 bits is cut to its
    /// low 8 bits.
    pub fn as_hours(self) -> (hours: i8)
        ensures
            hours == div_toward_zero(self@, 3600) as i8,
            i8::MIN <= div_toward_zero(self@, 3600) <= i8::MAX ==> hours == div_toward_zero(
                self@,
                3600,
            ),
    {
        #[verifier::truncate]
        ((self.seconds / 3_600) as i8)
    }

    /// The span of time by which local time is ahead of UTC.
    pub fn as_duration(self) -> (duration: Duration)
        ensures
            duration@ == self@,
    {
        Duration::seconds(self.seconds as i64)
    }

    /// An offset is its number of seconds: two offsets with the same number
    /// are equal, and the number fits in 32 bits.
    pub proof fn lemma_same_seconds(a: UtcOffset, b: UtcOffset)
        ensures
            a@ == b@ <==> a == b,
            i32::MIN <= a@ <= i32::MAX,
    {
    }
}

/// Rounding toward zero never moves the quotient past the dividend: `q * d`
/// lies between zero and `n`, less than `d` away from `n`, and the quotient of
/// `-n` is `-q`.
pub proof fn lemma_div_toward_zero(n: int, d: int)
    requires
        d > 0,
    ensures
        n >= 0 ==> 0 <= div_toward_zero(n, d) * d <= n < div_toward_zero(n, d) * d + d,
        n <= 0 ==> 0 >= div_toward_zero(n, d) * d >= n > div_toward_zero(n, d) * d - d,
        div_toward_zero(-n, d) == -div_toward_zero(n, d),
{
    let magnitude = if n >= 0 {
        n
    } else {
        -n
    };
    vstd::arithmetic::div_mod::lemma_fundamental_div_mod(magnitude, d);
    vstd::arithmetic::div_mod::lemma_mod_bound(magnitude, d);
    vstd::arithmetic::div_mod::lemma_div_pos_is_pos(magnitude, d);
    assert(d * (magnitude / d) == (magnitude / d) * d) by (nonlinear_arith);
    assert((-(magnitude / d)) * d == -((magnitude / d) * d)) by (nonlinear_arith);
    assert((magnitude / d) * d >= 0) by (nonlinear_arith)
        requires
            magnitude / d >= 0,
            d > 0,
    ;
}

/// A number that fits in 32 bits is left as it is by wrapping.
pub proof fn lemma_wrap_i32_in_range(n: int)
    ensures
        i32::MIN <= wrap_i32(n) <= i32::MAX,
        i32::MIN <= n <= i32::MAX ==> wrap_i32(n) == n,
{
}

} // verus!
