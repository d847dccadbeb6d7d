use std::cell::{Cell, RefCell};
use utc_offset::platform::{
    diff_seconds, CalendarMoment, DstStatus, SystemTime, TickTime, TimeZoneReport,
    TICKS_PER_SECOND,
};
use utc_offset::UtcOffset;

fn report(bias: i32, standard_bias: i32, daylight_bias: i32, status: DstStatus) -> TimeZoneReport {
    TimeZoneReport { bias, standard_bias, daylight_bias, status }
}

fn moment(year: i32, month: u8, day: u8, hour: u8, minute: u8, second: u8) -> CalendarMoment {
    CalendarMoment { year, month, day, hour, minute, second, millisecond: 0 }
}

/// A host calendar that counts every month as 31 days from the year 1601.
fn fake_ticks(systime: SystemTime) -> Option<TickTime> {
    if systime.year < 1601 || systime.month == 0 || systime.month > 12 || systime.day == 0 {
        return None;
    }
    let days = (u64::from(systime.year) - 1601) * 372
        + (u64::from(systime.month) - 1) * 31
        + (u64::from(systime.day) - 1);
    let seconds = ((days * 24 + u64::from(systime.hour)) * 60 + u64::from(systime.minute)) * 60
        + u64::from(systime.second);
    Some(TickTime::from_ticks(
        seconds * TICKS_PER_SECOND + u64::from(systime.milliseconds) * 10_000,
    ))
}

fn fake_systime(tick: TickTime) -> SystemTime {
    let ticks = tick.ticks();
    let milliseconds = (ticks % TICKS_PER_SECOND) / 10_000;
    let seconds = ticks / TICKS_PER_SECOND;
    let days = seconds / 86_400;
    SystemTime {
        year: (1601 + days / 372) as u16,
        month: (1 + (days % 372) / 31) as u16,
        day_of_week: 0,
        day: (1 + days % 31) as u16,
        hour: ((seconds / 3_600) % 24) as u16,
        minute: ((seconds / 60) % 60) as u16,
        second: (seconds % 60) as u16,
        milliseconds: milliseconds as u16,
    }
}

/// A host whose zone is `shift` seconds east of UTC.
fn fake_zone(shift: i64) -> impl Fn(TickTime) -> Option<SystemTime> {
    move |tick: TickTime| {
        let moved = tick.ticks() as i64 + shift * TICKS_PER_SECOND as i64;
        if moved < 0 {
            None
        } else {
            Some(fake_systime(TickTime::from_ticks(moved as u64)))
        }
    }
}

#[test]
fn local() {
    let _ = UtcOffset::local(|| Some(report(0, 0, 0, DstStatus::Unknown)));
}

#[test]
fn local_offset_at() {
    let now = moment(2019, 11, 23, 12, 30, 15);
    let _ = UtcOffset::local_offset_at(now, fake_ticks, fake_zone(0));
}

#[test]
fn bias_is_turned_round() {
    let offset = UtcOffset::local(|| Some(report(300, 0, 0, DstStatus::Unknown)));
    assert_eq!(offset.as_seconds(), -18_000);
    let offset = UtcOffset::local(|| Some(report(-120, 0, 0, DstStatus::Unknown)));
    assert_eq!(offset.as_seconds(), 7_200);
    assert_eq!(offset, UtcOffset::east_hours(2));
}

#[test]
fn unknown_status_takes_the_base_bias_alone() {
    let offset = UtcOffset::local(|| Some(report(300, 17, -60, DstStatus::Unknown)));
    assert_eq!(offset.as_seconds(), -18_000);
}

#[test]
fn daylight_status_adds_the_daylight_bias() {
    let offset = UtcOffset::local(|| Some(report(300, 0, -60, DstStatus::Daylight)));
    assert_eq!(offset.as_seconds(), -14_400);
    assert_eq!(
        UtcOffset::from_time_zone_report(Some(report(300, 0, -60, DstStatus::Daylight))),
        UtcOffset::west_hours(4)
    );
}

#[test]
fn standard_status_adds_the_standard_bias() {
    let offset = UtcOffset::local(|| Some(report(300, 0, -60, DstStatus::Standard)));
    assert_eq!(offset.as_seconds(), -18_000);
    let offset = UtcOffset::local(|| Some(report(-60, 30, -60, DstStatus::Standard)));
    assert_eq!(offset.as_seconds(), 1_800);
}

#[test]
fn failed_query_gives_utc() {
    assert_eq!(UtcOffset::local(|| None), UtcOffset::utc());
    assert_eq!(
        UtcOffset::local(|| Some(report(300, 0, -60, DstStatus::QueryFailed))),
        UtcOffset::utc()
    );
    assert_eq!(UtcOffset::from_time_zone_report(None).as_seconds(), 0);
}

#[test]
fn unrecognized_status_gives_utc() {
    for code in [3u32, 4, 255, 0x8000_0000, 0xffff_fffe, u32::MAX] {
        assert_eq!(DstStatus::from_code(code), DstStatus::QueryFailed);
        let offset = UtcOffset::local(|| Some(report(300, 0, -60, DstStatus::from_code(code))));
        assert_eq!(offset, UtcOffset::utc());
    }
}

#[test]
fn status_codes_name_the_three_regimes() {
    assert_eq!(DstStatus::from_code(0), DstStatus::Unknown);
    assert_eq!(DstStatus::from_code(1), DstStatus::Standard);
    assert_eq!(DstStatus::from_code(2), DstStatus::Daylight);
    let offset = UtcOffset::local(|| Some(report(300, 0, -60, DstStatus::from_code(2))));
    assert_eq!(offset.as_seconds(), -14_400);
}

#[test]
fn bias_beyond_an_offset_gives_utc() {
    // 60 * 35_791_394 is 2_147_483_640, the last bias that fits.
    assert_eq!(
        UtcOffset::local(|| Some(report(-35_791_394, 0, 0, DstStatus::Unknown))).as_seconds(),
        2_147_483_640
    );
    assert_eq!(
        UtcOffset::local(|| Some(report(-35_791_395, 0, 0, DstStatus::Unknown))),
        UtcOffset::utc()
    );
    assert_eq!(
        UtcOffset::local(|| Some(report(35_791_394, 0, 0, DstStatus::Unknown))).as_seconds(),
        -2_147_483_640
    );
    assert_eq!(
        UtcOffset::local(|| Some(report(35_791_395, 0, 0, DstStatus::Unknown))),
        UtcOffset::utc()
    );
    assert_eq!(
        UtcOffset::local(|| Some(report(i32::MAX, i32::MAX, 0, DstStatus::Standard))),
        UtcOffset::utc()
    );
    assert_eq!(
        UtcOffset::local(|| Some(report(i32::MIN, 0, i32::MIN, DstStatus::Daylight))),
        UtcOffset::utc()
    );
    // The sum is taken before anything is cut: these two cancel.
    assert_eq!(
        UtcOffset::local(|| Some(report(i32::MAX, 0, -i32::MAX, DstStatus::Daylight))),
        UtcOffset::utc()
    );
    assert_eq!(
        UtcOffset::local(|| Some(report(i32::MAX, 0, 60 - i32::MAX, DstStatus::Daylight)))
            .as_seconds(),
        -3_600
    );
}

#[test]
fn seconds_that_do_not_fit_give_utc() {
    assert_eq!(UtcOffset::seconds_or_utc(0), UtcOffset::utc());
    assert_eq!(UtcOffset::seconds_or_utc(-18_000).as_seconds(), -18_000);
    assert_eq!(UtcOffset::seconds_or_utc(i64::from(i32::MAX)).as_seconds(), i32::MAX);
    assert_eq!(UtcOffset::seconds_or_utc(i64::from(i32::MIN)).as_seconds(), i32::MIN);
    assert_eq!(UtcOffset::seconds_or_utc(i64::from(i32::MAX) + 1), UtcOffset::utc());
    assert_eq!(UtcOffset::seconds_or_utc(i64::from(i32::MIN) - 1), UtcOffset::utc());
    assert_eq!(UtcOffset::seconds_or_utc(i64::MAX), UtcOffset::utc());
    assert_eq!(UtcOffset::seconds_or_utc(i64::MIN), UtcOffset::utc());
}

#[test]
fn tick_values_are_two_halves() {
    let tick = TickTime::from_ticks(0x0123_4567_89ab_cdef);
    assert_eq!(tick, TickTime { low: 0x89ab_cdef, high: 0x0123_4567 });
    assert_eq!(tick.ticks(), 0x0123_4567_89ab_cdef);
    assert_eq!(TickTime { low: 0, high: 1 }.ticks(), 4_294_967_296);
    assert_eq!(TickTime { low: u32::MAX, high: u32::MAX }.ticks(), u64::MAX);
    assert_eq!(TickTime::from_ticks(u64::MAX), TickTime { low: u32::MAX, high: u32::MAX });
    assert_eq!(TickTime::from_ticks(0), TickTime { low: 0, high: 0 });
    assert_eq!(TickTime::from_ticks(7).ticks(), 7);
}

#[test]
fn tick_difference_is_in_whole_seconds() {
    let at = TickTime::from_ticks;
    assert_eq!(TICKS_PER_SECOND, 10_000_000);
    assert_eq!(diff_seconds(at(0), at(0)), 0);
    assert_eq!(diff_seconds(at(10_000_000), at(0)), 1);
    assert_eq!(diff_seconds(at(0), at(10_000_000)), -1);
    assert_eq!(diff_seconds(at(72_000_000_000), at(0)), 7_200);
    assert_eq!(
        diff_seconds(at(132_189_714_150_000_000), at(132_189_894_150_000_000)),
        -18_000
    );
}

#[test]
fn tick_difference_rounds_toward_zero() {
    let at = TickTime::from_ticks;
    assert_eq!(diff_seconds(at(9_999_999), at(0)), 0);
    assert_eq!(diff_seconds(at(0), at(9_999_999)), 0);
    assert_eq!(diff_seconds(at(19_999_999), at(0)), 1);
    assert_eq!(diff_seconds(at(0), at(19_999_999)), -1);
    // The ticks are subtracted before they are divided: these two are one
    // tick short of a second apart, though they lie in different seconds.
    assert_eq!(diff_seconds(at(10_000_005), at(6)), 0);
    assert_eq!(diff_seconds(at(6), at(10_000_005)), 0);
}

#[test]
fn tick_difference_spans_the_whole_range() {
    let at = TickTime::from_ticks;
    // 18_446_744_073_709_551_615 / 10_000_000
    assert_eq!(diff_seconds(at(u64::MAX), at(0)), 1_844_674_407_370);
    assert_eq!(diff_seconds(at(0), at(u64::MAX)), -1_844_674_407_370);
    assert_eq!(diff_seconds(at(u64::MAX), at(u64::MAX)), 0);
}

#[test]
fn offset_between_two_tick_values() {
    let at = TickTime::from_ticks;
    assert_eq!(
        UtcOffset::from_tick_times(at(72_000_000_000), at(0)),
        UtcOffset::east_hours(2)
    );
    assert_eq!(
        UtcOffset::from_tick_times(at(0), at(198_000_000_000)).as_seconds(),
        -19_800
    );
    assert_eq!(
        UtcOffset::from_tick_times(at(21_474_836_470_000_000), at(0)).as_seconds(),
        i32::MAX
    );
    assert_eq!(
        UtcOffset::from_tick_times(at(21_474_836_480_000_000), at(0)),
        UtcOffset::utc()
    );
    assert_eq!(
        UtcOffset::from_tick_times(at(0), at(21_474_836_480_000_000)).as_seconds(),
        i32::MIN
    );
    assert_eq!(
        UtcOffset::from_tick_times(at(0), at(21_474_836_490_000_000)),
        UtcOffset::utc()
    );
}

#[test]
fn calendar_moment_goes_into_the_host_record_field_by_field() {
    let datetime = CalendarMoment {
        year: 2019,
        month: 11,
        day: 23,
        hour: 12,
        minute: 30,
        second: 15,
        millisecond: 250,
    };
    assert_eq!(
        datetime.to_systemtime(),
        Some(SystemTime {
            year: 2019,
            month: 11,
            day_of_week: 0,
            day: 23,
            hour: 12,
            minute: 30,
            second: 15,
            milliseconds: 250,
        })
    );
    assert_eq!(moment(0, 1, 1, 0, 0, 0).to_systemtime().map(|s| s.year), Some(0));
    assert_eq!(moment(65_535, 12, 31, 23, 59, 59).to_systemtime().map(|s| s.year), Some(65_535));
}

#[test]
fn year_beyond_the_host_record_has_none() {
    assert_eq!(moment(-1, 1, 1, 0, 0, 0).to_systemtime(), None);
    assert_eq!(moment(65_536, 1, 1, 0, 0, 0).to_systemtime(), None);
    assert_eq!(moment(67_137, 1, 1, 0, 0, 0).to_systemtime(), None);
    assert_eq!(moment(i32::MIN, 1, 1, 0, 0, 0).to_systemtime(), None);
    assert_eq!(moment(i32::MAX, 1, 1, 0, 0, 0).to_systemtime(), None);
}

#[test]
fn offset_at_a_moment_is_the_zone_of_the_host() {
    let datetime = moment(2019, 11, 23, 12, 30, 15);
    assert_eq!(
        UtcOffset::local_offset_at(datetime, fake_ticks, fake_zone(7_200)),
        UtcOffset::east_hours(2)
    );
    assert_eq!(
        UtcOffset::local_offset_at(datetime, fake_ticks, fake_zone(-18_000)).as_seconds(),
        -18_000
    );
    assert_eq!(
        UtcOffset::local_offset_at(datetime, fake_ticks, fake_zone(20_700)).as_seconds(),
        20_700
    );
    assert_eq!(
        UtcOffset::local_offset_at(datetime, fake_ticks, fake_zone(0)),
        UtcOffset::utc()
    );
    // Across midnight and the end of a year.
    assert_eq!(
        UtcOffset::local_offset_at(moment(2019, 12, 31, 23, 0, 0), fake_ticks, fake_zone(7_200))
            .as_seconds(),
        7_200
    );
    assert_eq!(
        UtcOffset::local_offset_at(moment(2020, 1, 1, 0, 30, 0), fake_ticks, fake_zone(-3_600))
            .as_seconds(),
        -3_600
    );
}

#[test]
fn offset_at_a_moment_asks_the_host_in_order() {
    let asked: RefCell<Vec<String>> = RefCell::new(Vec::new());
    let datetime = moment(2019, 11, 23, 12, 30, 15);
    let offset = UtcOffset::local_offset_at(
        datetime,
        |systime: SystemTime| {
            asked.borrow_mut().push(format!("ticks of {:02}:{:02}", systime.hour, systime.minute));
            fake_ticks(systime)
        },
        |tick: TickTime| {
            asked.borrow_mut().push(format!("zoned {}", tick.ticks() % 864_000_000_000));
            fake_zone(5_400)(tick)
        },
    );
    assert_eq!(offset.as_seconds(), 5_400);
    assert_eq!(
        *asked.borrow(),
        vec![
            "ticks of 12:30".to_string(),
            "zoned 450150000000".to_string(),
            "ticks of 12:30".to_string(),
            "ticks of 14:00".to_string(),
        ]
    );
}

#[test]
fn refused_conversion_gives_utc_at_every_stage() {
    let datetime = moment(2019, 11, 23, 12, 30, 15);
    // The year does not fit the host's record: nothing is asked.
    let calls = Cell::new(0u32);
    let offset = UtcOffset::local_offset_at(
        moment(70_000, 1, 1, 0, 0, 0),
        |systime| {
            calls.set(calls.get() + 1);
            fake_ticks(systime)
        },
        fake_zone(7_200),
    );
    assert_eq!(offset, UtcOffset::utc());
    assert_eq!(calls.get(), 0);
    // The host refuses the moment itself.
    assert_eq!(
        UtcOffset::local_offset_at(moment(1600, 1, 1, 0, 0, 0), fake_ticks, fake_zone(7_200)),
        UtcOffset::utc()
    );
    assert_eq!(
        UtcOffset::local_offset_at(moment(2019, 13, 1, 0, 0, 0), fake_ticks, fake_zone(7_200)),
        UtcOffset::utc()
    );
    // The host refuses the local record of the tick value.
    assert_eq!(
        UtcOffset::local_offset_at(datetime, fake_ticks, |_| None),
        UtcOffset::utc()
    );
    // The host refuses the first, second or third conversion to ticks.
    for refused in 0..3u32 {
        let calls = Cell::new(0u32);
        let offset = UtcOffset::local_offset_at(
            datetime,
            |systime| {
                let call = calls.get();
                calls.set(call + 1);
                if call == refused {
                    None
                } else {
                    fake_ticks(systime)
                }
            },
            fake_zone(7_200),
        );
        assert_eq!(offset, UtcOffset::utc());
        assert_eq!(calls.get(), refused + 1);
    }
    // With nothing refused the same host gives its zone.
    let calls = Cell::new(0u32);
    let offset = UtcOffset::local_offset_at(
        datetime,
        |systime| {
            calls.set(calls.get() + 1);
            fake_ticks(systime)
        },
        fake_zone(7_200),
    );
    assert_eq!(offset.as_seconds(), 7_200);
    assert_eq!(calls.get(), 3);
}

#[test]
fn difference_beyond_an_offset_gives_utc() {
    let datetime = moment(2019, 11, 23, 12, 30, 15);
    // A zone seventy years east: the difference no longer fits in 32 bits.
    assert_eq!(
        UtcOffset::local_offset_at(datetime, fake_ticks, fake_zone(70 * 372 * 86_400)),
        UtcOffset::utc()
    );
    assert_eq!(
        UtcOffset::local_offset_at(datetime, fake_ticks, fake_zone(-70 * 372 * 86_400)),
        UtcOffset::utc()
    );
    assert_eq!(
        UtcOffset::local_offset_at(datetime, fake_ticks, fake_zone(60 * 372 * 86_400))
            .as_seconds(),
        1_928_448_000
    );
}

#[test]
fn offset_at_a_moment_is_the_same_when_asked_again() {
    for shift in [-43_200i64, -18_000, 0, 3_600, 20_700, 50_400] {
        for datetime in [
            moment(2019, 11, 23, 12, 30, 15),
            moment(1601, 1, 2, 0, 0, 0),
            moment(2020, 2, 29, 23, 59, 59),
        ] {
            let first = UtcOffset::local_offset_at(datetime, fake_ticks, fake_zone(shift));
            let second = UtcOffset::local_offset_at(datetime, fake_ticks, fake_zone(shift));
            assert_eq!(first, second);
            assert_eq!(i64::from(first.as_seconds()), shift);
        }
    }
    let refused = moment(1500, 1, 1, 0, 0, 0);
    assert_eq!(
        UtcOffset::local_offset_at(refused, fake_ticks, fake_zone(3_600)),
        UtcOffset::local_offset_at(refused, fake_ticks, fake_zone(3_600))
    );
}

#[test]
fn current_offset_is_the_same_for_the_same_report() {
    let query = || Some(report(-330, 0, -60, DstStatus::Standard));
    assert_eq!(UtcOffset::local(query), UtcOffset::local(query));
    assert_eq!(UtcOffset::local(query).as_seconds(), 19_800);
}
