//! Tests of the calendar-facing operations: full years with the century
//! flag, 12/24-hour conversion and 1-based weekdays.

use pcf8563_dd::DateTime;
use pcf8563_dd::Pcf8563;
use pcf8563_dd::RtcError;
use pcf8563_dd::Time;
use pcf8563_dd::calendar::CalendarDate;
use pcf8563_dd::calendar::CalendarDateTime;
use pcf8563_dd::calendar::Hours;
use pcf8563_dd::sim::SimTransport;

fn new_rtc() -> Pcf8563<SimTransport> {
    Pcf8563::new(SimTransport::new())
}

fn sample() -> CalendarDateTime {
    CalendarDateTime {
        year: 2024,
        month: 12,
        day: 1,
        weekday: 0,
        hours: 12,
        minutes: 30,
        seconds: 45,
    }
}

#[test]
fn calendar_datetime_round_trips_this_century() {
    let mut rtc = new_rtc();
    let c = sample();
    rtc.set_calendar_datetime(&c).unwrap();
    assert_eq!(rtc.datetime().unwrap(), c);
    assert!(!rtc.get_century_flag().unwrap());
}

#[test]
fn calendar_datetime_round_trips_last_century() {
    let mut rtc = new_rtc();
    let c = CalendarDateTime { year: 1999, ..sample() };
    rtc.set_calendar_datetime(&c).unwrap();
    assert_eq!(rtc.datetime().unwrap(), c);
    assert!(rtc.get_century_flag().unwrap());
}

#[test]
fn calendar_datetime_rejects_years_outside_range() {
    for year in [1899u16, 2100, 0, 9999] {
        let mut rtc = new_rtc();
        let c = CalendarDateTime { year, ..sample() };
        assert!(matches!(rtc.set_calendar_datetime(&c), Err(RtcError::InvalidInputData)));
        assert_eq!(rtc.transport.writes_attempted, 0);
    }
}

#[test]
fn year_derives_from_century_flag() {
    let mut rtc = new_rtc();
    rtc.set_calendar_datetime(&CalendarDateTime { year: 2045, ..sample() }).unwrap();
    assert_eq!(rtc.year().unwrap(), 2045);
    rtc.set_calendar_datetime(&CalendarDateTime { year: 1945, ..sample() }).unwrap();
    assert_eq!(rtc.year().unwrap(), 1945);
}

#[test]
fn set_year_round_trips_across_the_century_boundary() {
    let mut rtc = new_rtc();
    rtc.set_calendar_datetime(&sample()).unwrap();
    rtc.set_year(1999).unwrap();
    assert_eq!(rtc.year().unwrap(), 1999);
    rtc.set_year(2000).unwrap();
    assert_eq!(rtc.year().unwrap(), 2000);
    assert!(matches!(rtc.set_year(1899), Err(RtcError::InvalidInputData)));
    assert!(matches!(rtc.set_year(2100), Err(RtcError::InvalidInputData)));
}

#[test]
fn date_round_trips() {
    let mut rtc = new_rtc();
    rtc.set_calendar_datetime(&sample()).unwrap();
    let d = CalendarDate { year: 1987, month: 6, day: 24, weekday: 3 };
    rtc.set_date(&d).unwrap();
    assert_eq!(rtc.date().unwrap(), d);
    // The time of day is untouched.
    let t = rtc.time().unwrap();
    assert_eq!(t, Time { hours: 12, minutes: 30, seconds: 45 });
}

#[test]
fn set_date_rejects_years_outside_range() {
    let mut rtc = new_rtc();
    rtc.set_calendar_datetime(&sample()).unwrap();
    let d = CalendarDate { year: 1899, month: 6, day: 24, weekday: 3 };
    assert!(matches!(rtc.set_date(&d), Err(RtcError::InvalidInputData)));
}

#[test]
fn field_getters_read_the_stored_record() {
    let mut rtc = new_rtc();
    rtc.set_calendar_datetime(&sample()).unwrap();
    assert_eq!(rtc.seconds().unwrap(), 45);
    assert_eq!(rtc.minutes().unwrap(), 30);
    assert_eq!(rtc.hours().unwrap(), Hours::H24(12));
    assert_eq!(rtc.day().unwrap(), 1);
    assert_eq!(rtc.month().unwrap(), 12);
    assert_eq!(rtc.weekday().unwrap(), 1);
    assert_eq!(rtc.time().unwrap(), Time { hours: 12, minutes: 30, seconds: 45 });
}

#[test]
fn field_setters_rewrite_one_field() {
    let mut rtc = new_rtc();
    rtc.set_calendar_datetime(&sample()).unwrap();
    rtc.set_seconds(7).unwrap();
    rtc.set_minutes(8).unwrap();
    rtc.set_day(9).unwrap();
    rtc.set_month(10).unwrap();
    assert_eq!(rtc.seconds().unwrap(), 7);
    assert_eq!(rtc.minutes().unwrap(), 8);
    assert_eq!(rtc.day().unwrap(), 9);
    assert_eq!(rtc.month().unwrap(), 10);
    assert_eq!(rtc.year().unwrap(), 2024);
}

#[test]
fn field_setters_reject_out_of_range_values() {
    let mut rtc = new_rtc();
    rtc.set_calendar_datetime(&sample()).unwrap();
    assert!(matches!(rtc.set_seconds(60), Err(RtcError::InvalidInputData)));
    assert!(matches!(rtc.set_minutes(60), Err(RtcError::InvalidInputData)));
    assert!(matches!(rtc.set_day(0), Err(RtcError::InvalidInputData)));
    assert!(matches!(rtc.set_day(32), Err(RtcError::InvalidInputData)));
    assert!(matches!(rtc.set_month(0), Err(RtcError::InvalidInputData)));
    assert!(matches!(rtc.set_month(13), Err(RtcError::InvalidInputData)));
}

#[test]
fn set_hours_converts_twelve_hour_forms() {
    let cases = [
        (Hours::H24(0), 0u8),
        (Hours::H24(23), 23),
        (Hours::AM(12), 0),
        (Hours::AM(1), 1),
        (Hours::AM(11), 11),
        (Hours::PM(12), 12),
        (Hours::PM(1), 13),
        (Hours::PM(11), 23),
    ];
    for (hours, expected) in cases {
        let mut rtc = new_rtc();
        rtc.set_calendar_datetime(&sample()).unwrap();
        rtc.set_hours(hours).unwrap();
        assert_eq!(rtc.hours().unwrap(), Hours::H24(expected));
    }
}

#[test]
fn set_hours_rejects_out_of_range_forms() {
    let invalid = [Hours::H24(24), Hours::AM(0), Hours::AM(13), Hours::PM(0), Hours::PM(13)];
    for hours in invalid {
        let mut rtc = new_rtc();
        rtc.set_calendar_datetime(&sample()).unwrap();
        let writes_before = rtc.transport.writes_attempted;
        assert!(matches!(rtc.set_hours(hours), Err(RtcError::InvalidInputData)));
        assert_eq!(rtc.transport.writes_attempted, writes_before);
    }
}

#[test]
fn set_weekday_stores_zero_based_value() {
    let mut rtc = new_rtc();
    rtc.set_calendar_datetime(&sample()).unwrap();
    rtc.set_weekday(1).unwrap();
    assert_eq!(rtc.weekday().unwrap(), 1);
    assert_eq!(rtc.get_datetime().unwrap().weekday, 0);
    rtc.set_weekday(7).unwrap();
    assert_eq!(rtc.weekday().unwrap(), 7);
    assert_eq!(rtc.get_datetime().unwrap().weekday, 6);
    assert!(matches!(rtc.set_weekday(0), Err(RtcError::InvalidInputData)));
    assert!(matches!(rtc.set_weekday(8), Err(RtcError::InvalidInputData)));
}

#[test]
fn hours_getter_rejects_malformed_stored_value() {
    let mut rtc = new_rtc();
    // 0x3F decodes to 45, outside the 24-hour range.
    rtc.transport.poke(0x04, 0x3F);
    assert!(matches!(rtc.hours(), Err(RtcError::InvalidInputData)));
}

#[test]
fn weekday_getter_rejects_malformed_stored_value() {
    let mut rtc = new_rtc();
    rtc.transport.poke(0x06, 0x07);
    assert!(matches!(rtc.weekday(), Err(RtcError::InvalidInputData)));
}

#[test]
fn datetime_rejects_malformed_stored_record() {
    let mut rtc = new_rtc();
    // Month register zero decodes to month 0, outside 1-12.
    rtc.transport.poke(0x05, 0x01);
    rtc.transport.poke(0x07, 0x00);
    assert!(matches!(rtc.datetime(), Err(RtcError::InvalidInputData)));
}

#[test]
fn set_year_century_fault_leaves_date_writes_applied() {
    let mut rtc = new_rtc();
    rtc.set_calendar_datetime(&CalendarDateTime { year: 2045, ..sample() }).unwrap();
    // The seven date/time writes succeed; the trailing century
    // read-modify-write fails.
    rtc.transport.fail_writes_after(7);
    assert!(matches!(rtc.set_year(1999), Err(RtcError::I2c(_))));
    // The year register carries the new value; the century bit is the one
    // the month write left behind (cleared): the full seven-write image.
    assert_eq!(rtc.transport.peek(0x08), 0x99);
    assert!(!rtc.get_century_flag().unwrap());
}

#[test]
fn set_calendar_datetime_fault_midway_leaves_prefix_applied() {
    let mut rtc = new_rtc();
    rtc.set_calendar_datetime(&sample()).unwrap();
    // Seconds, minutes and hours are written; the day write fails.
    rtc.transport.fail_writes_after(3);
    let c = CalendarDateTime {
        year: 1987,
        month: 6,
        day: 24,
        weekday: 3,
        hours: 8,
        minutes: 15,
        seconds: 20,
    };
    assert!(matches!(rtc.set_calendar_datetime(&c), Err(RtcError::I2c(_))));
    assert_eq!(rtc.transport.peek(0x02), 0x20);
    assert_eq!(rtc.transport.peek(0x03), 0x15);
    assert_eq!(rtc.transport.peek(0x04), 0x08);
    assert_eq!(rtc.transport.peek(0x05), 0x01);
    assert_eq!(rtc.transport.peek(0x08), 0x24);
}

#[test]
fn plain_set_datetime_overwrites_century_flag() {
    // The month write of the plain seven-register sequence carries a cleared
    // century bit: callers who need the flag use the calendar operations,
    // which set it after the date/time writes.
    let mut rtc = new_rtc();
    rtc.set_century_flag(true).unwrap();
    let dt = DateTime { year: 50, month: 6, day: 15, weekday: 1, hours: 0, minutes: 0, seconds: 0 };
    rtc.set_datetime(&dt).unwrap();
    assert!(!rtc.get_century_flag().unwrap());
}
