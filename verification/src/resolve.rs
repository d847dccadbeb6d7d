//! The resolvers: the offset now in force, and the offset in force at a given
//! moment, each from what the host's time-zone service answers. Whatever the
//! host refuses, and whatever does not fit, gives UTC.

use crate::offset::{div_toward_zero, UtcOffset};
use crate::platform::{
    diff_seconds, CalendarMoment, DstStatus, SystemTime, TickTime, TimeZoneReport,
    TICKS_PER_SECOND,
};
use vstd::prelude::*;

verus! {

/// `n` where it fits in the 32 bits of an offset, and 0, the seconds of UTC,
/// where it does not.
pub open spec fn fit_or_zero(n: int) -> int {
    if i32::MIN <= n <= i32::MAX {
        n
    } else {
        0
    }
}

/// The bias in force according to a report, in minutes: the base bias, with
/// the adjustment of the regime in force added. There is none where the
/// query failed.
pub open spec fn effective_bias(report: TimeZoneReport) -> Option<int> {
    match report.status {
        DstStatus::Unknown => Some(report.bias as int),
        DstStatus::Standard => Some(report.bias + report.standard_bias),
        DstStatus::Daylight => Some(report.bias + report.daylight_bias),
        DstStatus::QueryFailed => None,
    }
}

/// The seconds of the offset now in force, given what the host answered to
/// the query for its time zone: the bias in force, turned round and taken in
/// seconds.
pub open spec fn local_seconds(report: Option<TimeZoneReport>) -> int {
    match report {
        Some(report) => match effective_bias(report) {
            Some(bias) => fit_or_zero(-60 * bias),
            None => 0,
        },
        None => 0,
    }
}

/// The seconds of the offset in force at `datetime`, given what the host
/// answered at each of the four conversions: the tick value of the moment,
/// the local calendar record of that tick value, then the tick value of the
/// moment once more and that of the local record.
pub open spec fn offset_at_seconds(
    datetime: CalendarMoment,
    instant: Option<TickTime>,
    local: Option<SystemTime>,
    reference: Option<TickTime>,
    zoned: Option<TickTime>,
) -> int {
    if datetime.systemtime() is Some && instant is Some && local is Some {
        match (zoned, reference) {
            (Some(zoned), Some(reference)) => fit_or_zero(
                div_toward_zero(zoned@ - reference@, TICKS_PER_SECOND as int),
            ),
            _ => 0,
        }
    } else {
        0
    }
}

/// The four answers are such as the two conversions of the host can give
/// for `datetime`, each asked with what the one before it answered. Nothing
/// is said of an answer that is not asked for, after an earlier refusal.
pub open spec fn answered<C, L>(
    calendar_to_tick: C,
    tick_to_zoned_calendar: L,
    datetime: CalendarMoment,
    instant: Option<TickTime>,
    local: Option<SystemTime>,
    reference: Option<TickTime>,
    zoned: Option<TickTime>,
) -> bool where C: Fn(SystemTime) -> Option<TickTime>, L: Fn(TickTime) -> Option<SystemTime> {
    datetime.systemtime() matches Some(systime) ==> {
        &&& call_ensures(calendar_to_tick, (systime,), instant)
        &&& instant matches Some(tick) ==> {
            &&& call_ensures(tick_to_zoned_calendar, (tick,), local)
            &&& local matches Some(zoned_systime) ==> {
                &&& call_ensures(calendar_to_tick, (systime,), reference)
                &&& reference is Some ==> call_ensures(
                    calendar_to_tick,
                    (zoned_systime,),
                    zoned,
                )
            }
        }
    }
}

/// `offset` is what the four conversions of the host can give for
/// `datetime`: there are answers that the host can give, one after the
/// other, from which it is resolved.
pub open spec fn resolves_to<C, L>(
    calendar_to_tick: C,
    tick_to_zoned_calendar: L,
    datetime: CalendarMoment,
    offset: UtcOffset,
) -> bool where C: Fn(SystemTime) -> Option<TickTime>, L: Fn(TickTime) -> Option<SystemTime> {
    exists|
        instant: Option<TickTime>,
        local: Option<SystemTime>,
        reference: Option<TickTime>,
        zoned: Option<TickTime>,
    | #[trigger]
        answered(
            calendar_to_tick,
            tick_to_zoned_calendar,
            datetime,
            instant,
            local,
            reference,
            zoned,
        ) && offset@ == offset_at_seconds(datetime, instant, local, reference, zoned)
}

impl UtcOffset {
    /// The offset of `seconds` seconds where that many fit in 32 bits, and
    /// UTC where they do not.
    pub fn seconds_or_utc(seconds: i64) -> (offset: UtcOffset)
        ensures
            offset@ == fit_or_zero(seconds as int),
    {
        if seconds < -0x8000_0000 || seconds > 0x7fff_ffff {
            UtcOffset::utc()
        } else {
            UtcOffset::seconds(seconds as i32)
        }
    }

    /// The offset now in force, from the host's answer to the query for its
    /// time zone; `None` is a query that the host refused.
    pub fn from_time_zone_report(report: Option<TimeZoneReport>) -> (offset: UtcOffset)
        ensures
            offset@ == local_seconds(report),
    {
        let report = match report {
            Some(report) => report,
            None => return UtcOffset::utc(),
        };
        let bias_mins: i64 = match report.status {
            DstStatus::Unknown => report.bias as i64,
            DstStatus::Standard => report.bias as i64 + report.standard_bias as i64,
            DstStatus::Daylight => report.bias as i64 + report.daylight_bias as i64,
            DstStatus::QueryFailed => return UtcOffset::utc(),
        };
        UtcOffset::seconds_or_utc(bias_mins * -60)
    }

    /// The offset now in force in the host's time zone. `query` asks the host
    /// for its report, once.
    pub fn local<Q>(query: Q) -> (offset: UtcOffset) where Q: FnOnce() -> Option<TimeZoneReport>
        requires
            call_requires(query, ()),
        ensures
            exists|report: Option<TimeZoneReport>| #[trigger]
                call_ensures(query, (), report) && offset@ == local_seconds(report),
    {
        let report = query();
        UtcOffset::from_time_zone_report(report)
    }

    /// The offset between two tick values of one instant, `tick_local` read
    /// off the local calendar and `tick_reference` off UTC.
    pub fn from_tick_times(tick_local: TickTime, tick_reference: TickTime) -> (offset: UtcOffset)
        ensures
            offset@ == fit_or_zero(
                div_toward_zero(tick_local@ - tick_reference@, TICKS_PER_SECOND as int),
            ),
    {
        UtcOffset::seconds_or_utc(diff_seconds(tick_local, tick_reference))
    }

    /// The offset in force in the host's time zone at `datetime`, a reading
    /// of UTC. `calendar_to_tick` asks the host for the tick value of a
    /// calendar record, `tick_to_zoned_calendar` for the local calendar
    /// record of a tick value; `None` is a refusal.
    pub fn local_offset_at<C, L>(
        datetime: CalendarMoment,
        calendar_to_tick: C,
        tick_to_zoned_calendar: L,
    ) -> (offset: UtcOffset) where
        C: Fn(SystemTime) -> Option<TickTime>,
        L: Fn(TickTime) -> Option<SystemTime>,

        requires
            forall|systime: SystemTime| call_requires(calendar_to_tick, (systime,)),
            forall|tick: TickTime| call_requires(tick_to_zoned_calendar, (tick,)),
        ensures
            resolves_to(calendar_to_tick, tick_to_zoned_calendar, datetime, offset),
    {
        let systime_utc = match datetime.to_systemtime() {
            Some(systime) => systime,
            None => {
                assert(answered(
                    calendar_to_tick,
                    tick_to_zoned_calendar,
                    datetime,
                    None,
                    None,
                    None,
                    None,
                ));
                return UtcOffset::utc();
            },
        };
        let instant = calendar_to_tick(systime_utc);
        let tick = match instant {
            Some(tick) => tick,
            None => {
                assert(answered(
                    calendar_to_tick,
                    tick_to_zoned_calendar,
                    datetime,
                    instant,
                    None,
                    None,
                    None,
                ));
                return UtcOffset::utc();
            },
        };
        let local = tick_to_zoned_calendar(tick);
        let systime_local = match local {
            Some(systime) => systime,
            None => {
                assert(answered(
                    calendar_to_tick,
                    tick_to_zoned_calendar,
                    datetime,
                    instant,
                    local,
                    None,
                    None,
                ));
                return UtcOffset::utc();
            },
        };
        let reference = calendar_to_tick(systime_utc);
        let tick_reference = match reference {
            Some(tick) => tick,
            None => {
                assert(answered(
                    calendar_to_tick,
                    tick_to_zoned_calendar,
                    datetime,
                    instant,
                    local,
                    reference,
                    None,
                ));
                return UtcOffset::utc();
            },
        };
        let zoned = calendar_to_tick(systime_local);
        assert(answered(
            calendar_to_tick,
            tick_to_zoned_calendar,
            datetime,
            instant,
            local,
            reference,
            zoned,
        ));
        match zoned {
            Some(tick_local) => UtcOffset::from_tick_times(tick_local, tick_reference),
            None => UtcOffset::utc(),
        }
    }
}

/// Whatever goes wrong on the way to the offset now in force gives UTC: a
/// query that the host refused, a status that says the query failed, and a
/// number of seconds that an offset cannot hold.
pub proof fn lemma_local_failure_is_utc(report: Option<TimeZoneReport>)
    requires
        report matches Some(given) ==> given.status == DstStatus::QueryFailed || !(i32::MIN <= -60
            * effective_bias(given).unwrap() <= i32::MAX),
    ensures
        local_seconds(report) == 0,
{
}

/// A status code of the host other than those of the three regimes gives
/// UTC, whatever the report's biases are.
pub proof fn lemma_unrecognized_status_is_utc(report: TimeZoneReport, code: u32)
    requires
        code > 2,
        report.status == DstStatus::of_code(code),
    ensures
        local_seconds(Some(report)) == 0,
{
}

/// Where nothing goes wrong, the offset now in force is the bias in force
/// with its sign turned round, in seconds.
pub proof fn lemma_local_is_bias_reversed(report: TimeZoneReport)
    requires
        report.status != DstStatus::QueryFailed,
    ensures
        effective_bias(report) matches Some(bias) && (i32::MIN <= -60 * bias <= i32::MAX
            ==> local_seconds(Some(report)) == -60 * bias),
{
}

/// Whatever goes wrong on the way to the offset at a moment gives UTC: a
/// year that the host's record cannot hold, a conversion that the host
/// refused at any of the four stages, and a difference that an offset cannot
/// hold.
pub proof fn lemma_offset_at_failure_is_utc(
    datetime: CalendarMoment,
    instant: Option<TickTime>,
    local: Option<SystemTime>,
    reference: Option<TickTime>,
    zoned: Option<TickTime>,
)
    requires
        datetime.systemtime() is None || instant is None || local is None || reference is None
            || zoned is None || !(i32::MIN <= div_toward_zero(
            zoned.unwrap()@ - reference.unwrap()@,
            TICKS_PER_SECOND as int,
        ) <= i32::MAX),
    ensures
        offset_at_seconds(datetime, instant, local, reference, zoned) == 0,
{
}

/// A host whose two conversions give one answer to one question gives one
/// offset for one moment: whatever it is asked on two occasions, the two
/// offsets resolved are equal.
pub proof fn lemma_fixed_host_one_offset<C, L>(
    calendar_to_tick: C,
    tick_to_zoned_calendar: L,
    datetime: CalendarMoment,
    first: UtcOffset,
    second: UtcOffset,
) where C: Fn(SystemTime) -> Option<TickTime>, L: Fn(TickTime) -> Option<SystemTime>
    requires
        forall|systime: SystemTime, a: Option<TickTime>, b: Option<TickTime>|
            call_ensures(calendar_to_tick, (systime,), a) && call_ensures(
                calendar_to_tick,
                (systime,),
                b,
            ) ==> a == b,
        forall|tick: TickTime, a: Option<SystemTime>, b: Option<SystemTime>|
            call_ensures(tick_to_zoned_calendar, (tick,), a) && call_ensures(
                tick_to_zoned_calendar,
                (tick,),
                b,
            ) ==> a == b,
        resolves_to(calendar_to_tick, tick_to_zoned_calendar, datetime, first),
        resolves_to(calendar_to_tick, tick_to_zoned_calendar, datetime, second),
    ensures
        first == second,
{
    UtcOffset::lemma_same_seconds(first, second);
}

} // verus!
