//! Calendar-facing operations: the bridge between the device's 2-digit year
//! plus century flag and a full 4-digit calendar year, including 12/24-hour
//! conversion and 1-based weekdays.
//!
//! These operations work on plain field values; an adapter that speaks a
//! calendar library's types converts at the boundary and leaves every
//! decision here. Years outside 1900-2099 are rejected. The per-field
//! setters read the whole record, change one field and write the whole
//! record back; a tick of the physical clock between the read and the write
//! is silently overwritten — a known race kept from the device's design, not
//! resolved here.

use vstd::prelude::*;

use crate::DateTime;
use crate::RtcError;
use crate::Time;
use crate::bcd_encode;
use crate::driver::Pcf8563;
use crate::driver::datetime_image;
use crate::driver::datetime_of_regs;
use crate::driver::datetime_valid;
use crate::driver::time_valid;
use crate::regmap::REG_CENTURY_MONTHS;
use crate::regmap::century_flag;
use crate::regmap::spec_months_with_century;
use crate::transport::Transport;

verus! {

/// Hours in either 12-hour (AM/PM) or 24-hour form.
#[derive(Debug, Clone, Copy, PartialEq, Eq)]
pub enum Hours {
    /// AM (1-12)
    AM(u8),
    /// PM (1-12)
    PM(u8),
    /// 24-hour form (0-23)
    H24(u8),
}

/// A date and time with a full calendar year (1900-2099).
#[derive(Debug, Clone, Copy, PartialEq, Eq)]
pub struct CalendarDateTime {
    /// Full calendar year (1900-2099)
    pub year: u16,
    /// Month (1-12)
    pub month: u8,
    /// Day of month (1-31)
    pub day: u8,
    /// Weekday (0-6, 0=Sunday)
    pub weekday: u8,
    /// Hours (0-23)
    pub hours: u8,
    /// Minutes (0-59)
    pub minutes: u8,
    /// Seconds (0-59)
    pub seconds: u8,
}

/// A date with a full calendar year (1900-2099).
#[derive(Debug, Clone, Copy, PartialEq, Eq)]
pub struct CalendarDate {
    /// Full calendar year (1900-2099)
    pub year: u16,
    /// Month (1-12)
    pub month: u8,
    /// Day of month (1-31)
    pub day: u8,
    /// Weekday (0-6, 0=Sunday)
    pub weekday: u8,
}

/// The years the 2-digit-plus-century representation can hold.
pub open spec fn year_valid(year: u16) -> bool {
    1900 <= year <= 2099
}

/// The century flag that stores `year`: set for 1900-1999, clear for
/// 2000-2099.
pub open spec fn century_of_year(year: u16) -> bool {
    year < 2000
}

/// The full year named by a 2-digit year and a century flag.
pub open spec fn full_year(y: u8, century: bool) -> u16 {
    ((if century {
        1900int
    } else {
        2000int
    }) + y) as u16
}

/// The 24-hour value of `h`: `None` when out of its form's range. Noon edge
/// cases: 12 AM is hour 0, 12 PM is hour 12.
pub open spec fn hours_24_of(h: Hours) -> Option<u8> {
    match h {
        Hours::H24(v) => if v < 24 {
            Some(v)
        } else {
            None
        },
        Hours::AM(v) => if 1 <= v <= 12 {
            Some(
                if v == 12 {
                    0u8
                } else {
                    v
                },
            )
        } else {
            None
        },
        Hours::PM(v) => if 1 <= v <= 12 {
            Some(
                if v == 12 {
                    12u8
                } else {
                    (v + 12) as u8
                },
            )
        } else {
            None
        },
    }
}

/// Convert an AM/PM or 24-hour value to a plain 24-hour value, or `None`
/// when it is out of its form's range.
pub fn hours_to_h24(h: Hours) -> (r: Option<u8>)
    ensures
        r == hours_24_of(h),
{
    match h {
        Hours::H24(v) => if v < 24 {
            Some(v)
        } else {
            None
        },
        Hours::AM(v) => if 1 <= v && v <= 12 {
            Some(
                if v == 12 {
                    0
                } else {
                    v
                },
            )
        } else {
            None
        },
        Hours::PM(v) => if 1 <= v && v <= 12 {
            Some(
                if v == 12 {
                    12
                } else {
                    v + 12
                },
            )
        } else {
            None
        },
    }
}

/// The calendar view of a stored date/time under a century flag.
pub open spec fn calendar_of(dt: DateTime, century: bool) -> CalendarDateTime {
    CalendarDateTime {
        year: full_year(dt.year, century),
        month: dt.month,
        day: dt.day,
        weekday: dt.weekday,
        hours: dt.hours,
        minutes: dt.minutes,
        seconds: dt.seconds,
    }
}

/// The stored form of a calendar date/time: the year reduced to its last two
/// digits.
pub open spec fn datetime_of_calendar(c: CalendarDateTime) -> DateTime {
    DateTime {
        year: (c.year % 100) as u8,
        month: c.month,
        day: c.day,
        weekday: c.weekday,
        hours: c.hours,
        minutes: c.minutes,
        seconds: c.seconds,
    }
}

/// The time-of-day fields of a date/time.
pub open spec fn time_of_datetime(dt: DateTime) -> Time {
    Time { hours: dt.hours, minutes: dt.minutes, seconds: dt.seconds }
}

/// `dt` with its seconds replaced.
pub open spec fn with_seconds(dt: DateTime, seconds: u8) -> DateTime {
    DateTime { seconds, ..dt }
}

/// `dt` with its minutes replaced.
pub open spec fn with_minutes(dt: DateTime, minutes: u8) -> DateTime {
    DateTime { minutes, ..dt }
}

/// `dt` with its hours replaced.
pub open spec fn with_hours(dt: DateTime, hours: u8) -> DateTime {
    DateTime { hours, ..dt }
}

/// `dt` with its day replaced.
pub open spec fn with_day(dt: DateTime, day: u8) -> DateTime {
    DateTime { day, ..dt }
}

/// `dt` with its month replaced.
pub open spec fn with_month(dt: DateTime, month: u8) -> DateTime {
    DateTime { month, ..dt }
}

/// `dt` with its weekday replaced.
pub open spec fn with_weekday(dt: DateTime, weekday: u8) -> DateTime {
    DateTime { weekday, ..dt }
}

/// The register file after storing `dt` and then setting the century flag to
/// `century`: the seven date/time writes, whose month write clears the
/// century bit, followed by the read-modify-write that sets it right.
pub open spec fn datetime_with_century_image(regs: Seq<u8>, dt: DateTime, century: bool) -> Seq<
    u8,
> {
    datetime_image(regs, dt, 7).update(
        REG_CENTURY_MONTHS as int,
        spec_months_with_century(bcd_encode(dt.month), century),
    )
}

impl<T: Transport> Pcf8563<T> {
    /// Read the date and time together with the century flag, as a full
    /// calendar date/time. Fields outside their documented ranges (possible
    /// only if the hardware holds malformed values) are rejected.
    pub fn datetime(&mut self) -> (r: Result<CalendarDateTime, RtcError<T::BusError>>)
        requires
            old(self).wf(),
        ensures
            final(self).wf(),
            final(self).regs() == old(self).regs(),
            r matches Ok(c) ==> datetime_valid(datetime_of_regs(old(self).regs())) && c
                == calendar_of(
                datetime_of_regs(old(self).regs()),
                century_flag(old(self).regs()[REG_CENTURY_MONTHS as int]),
            ),
            r matches Err(RtcError::InvalidInputData) ==> !datetime_valid(
                datetime_of_regs(old(self).regs()),
            ),
    {
        let dt = match self.get_datetime() {
            Ok(v) => v,
            Err(e) => return Err(e),
        };
        let century = match self.get_century_flag() {
            Ok(v) => v,
            Err(e) => return Err(e),
        };
        if dt.year > 99 || dt.month < 1 || dt.month > 12 || dt.weekday > 6 || dt.day < 1 || dt.day
            > 31 || dt.hours > 23 || dt.minutes > 59 || dt.seconds > 59 {
            return Err(RtcError::InvalidInputData);
        }
        let base: u16 = if century {
            1900
        } else {
            2000
        };
        Ok(
            CalendarDateTime {
                year: base + dt.year as u16,
                month: dt.month,
                day: dt.day,
                weekday: dt.weekday,
                hours: dt.hours,
                minutes: dt.minutes,
                seconds: dt.seconds,
            },
        )
    }

    /// Store a full calendar date/time: the year's last two digits go to the
    /// year register, the century flag is set to `year < 2000` after the
    /// date/time writes so the month write cannot clobber it. Years outside
    /// 1900-2099 and out-of-range fields are rejected before any bus
    /// traffic.
    pub fn set_calendar_datetime(&mut self, c: &CalendarDateTime) -> (r: Result<
        (),
        RtcError<T::BusError>,
    >)
        requires
            old(self).wf(),
        ensures
            final(self).wf(),
            r is Ok ==> year_valid(c.year) && datetime_valid(datetime_of_calendar(*c)) && final(self).regs() == datetime_with_century_image(
                old(self).regs(),
                datetime_of_calendar(*c),
                century_of_year(c.year),
            ),
            r matches Err(RtcError::InvalidInputData) <==> !year_valid(c.year) || !datetime_valid(
                datetime_of_calendar(*c),
            ),
            !year_valid(c.year) || !datetime_valid(datetime_of_calendar(*c)) ==> final(self).regs()
                == old(self).regs() && final(self).txns() == old(self).txns(),
            r matches Err(RtcError::I2c(_)) ==> exists|k: int|
                0 <= k <= 7 && final(self).regs() == #[trigger] datetime_image(
                    old(self).regs(),
                    datetime_of_calendar(*c),
                    k,
                ),
    {
        if c.year < 1900 || c.year > 2099 {
            return Err(RtcError::InvalidInputData);
        }
        let dt = DateTime {
            year: (c.year % 100) as u8,
            month: c.month,
            day: c.day,
            weekday: c.weekday,
            hours: c.hours,
            minutes: c.minutes,
            seconds: c.seconds,
        };
        proof {
            assert(dt == datetime_of_calendar(*c));
        }
        match self.set_datetime(&dt) {
            Ok(_) => {},
            Err(e) => return Err(e),
        }
        proof {
            assert(self.regs() == datetime_image(old(self).regs(), datetime_of_calendar(*c), 7));
        }
        match self.set_century_flag(c.year < 2000) {
            Ok(_) => Ok(()),
            Err(e) => Err(e),
        }
    }

    /// Read the seconds (0-59 when the hardware holds well-formed BCD).
    pub fn seconds(&mut self) -> (r: Result<u8, RtcError<T::BusError>>)
        requires
            old(self).wf(),
        ensures
            final(self).wf(),
            final(self).regs() == old(self).regs(),
            r matches Ok(v) ==> v == datetime_of_regs(old(self).regs()).seconds,
            r matches Err(e) ==> e matches RtcError::I2c(_),
    {
        match self.get_datetime() {
            Ok(dt) => Ok(dt.seconds),
            Err(e) => Err(e),
        }
    }

    /// Read the minutes (0-59 when the hardware holds well-formed BCD).
    pub fn minutes(&mut self) -> (r: Result<u8, RtcError<T::BusError>>)
        requires
            old(self).wf(),
        ensures
            final(self).wf(),
            final(self).regs() == old(self).regs(),
            r matches Ok(v) ==> v == datetime_of_regs(old(self).regs()).minutes,
            r matches Err(e) ==> e matches RtcError::I2c(_),
    {
        match self.get_datetime() {
            Ok(dt) => Ok(dt.minutes),
            Err(e) => Err(e),
        }
    }

    /// Read the hours, in 24-hour form. A stored value above 23 is rejected.
    pub fn hours(&mut self) -> (r: Result<Hours, RtcError<T::BusError>>)
        requires
            old(self).wf(),
        ensures
            final(self).wf(),
            final(self).regs() == old(self).regs(),
            r matches Ok(h) ==> datetime_of_regs(old(self).regs()).hours <= 23 && h == Hours::H24(
                datetime_of_regs(old(self).regs()).hours,
            ),
            r matches Err(RtcError::InvalidInputData) ==> datetime_of_regs(
                old(self).regs(),
            ).hours > 23,
    {
        let dt = match self.get_datetime() {
            Ok(v) => v,
            Err(e) => return Err(e),
        };
        if dt.hours > 23 {
            Err(RtcError::InvalidInputData)
        } else {
            Ok(Hours::H24(dt.hours))
        }
    }

    /// Read the time of day. Stored values outside their ranges are
    /// rejected.
    pub fn time(&mut self) -> (r: Result<Time, RtcError<T::BusError>>)
        requires
            old(self).wf(),
        ensures
            final(self).wf(),
            final(self).regs() == old(self).regs(),
            r matches Ok(t) ==> time_valid(t) && t == time_of_datetime(
                datetime_of_regs(old(self).regs()),
            ),
            r matches Err(RtcError::InvalidInputData) ==> !time_valid(
                time_of_datetime(datetime_of_regs(old(self).regs())),
            ),
    {
        let dt = match self.get_datetime() {
            Ok(v) => v,
            Err(e) => return Err(e),
        };
        if dt.hours > 23 || dt.minutes > 59 || dt.seconds > 59 {
            return Err(RtcError::InvalidInputData);
        }
        Ok(Time { hours: dt.hours, minutes: dt.minutes, seconds: dt.seconds })
    }

    /// Read the weekday as 1-7 (1=Sunday). A stored value above 6 is
    /// rejected.
    pub fn weekday(&mut self) -> (r: Result<u8, RtcError<T::BusError>>)
        requires
            old(self).wf(),
        ensures
            final(self).wf(),
            final(self).regs() == old(self).regs(),
            r matches Ok(w) ==> datetime_of_regs(old(self).regs()).weekday <= 6 && w
                == datetime_of_regs(old(self).regs()).weekday + 1,
            r matches Err(RtcError::InvalidInputData) ==> datetime_of_regs(
                old(self).regs(),
            ).weekday > 6,
    {
        let dt = match self.get_datetime() {
            Ok(v) => v,
            Err(e) => return Err(e),
        };
        if dt.weekday > 6 {
            Err(RtcError::InvalidInputData)
        } else {
            Ok(dt.weekday + 1)
        }
    }

    /// Read the day of month (1-31 when the hardware holds well-formed BCD).
    pub fn day(&mut self) -> (r: Result<u8, RtcError<T::BusError>>)
        requires
            old(self).wf(),
        ensures
            final(self).wf(),
            final(self).regs() == old(self).regs(),
            r matches Ok(v) ==> v == datetime_of_regs(old(self).regs()).day,
            r matches Err(e) ==> e matches RtcError::I2c(_),
    {
        match self.get_datetime() {
            Ok(dt) => Ok(dt.day),
            Err(e) => Err(e),
        }
    }

    /// Read the month (1-12 when the hardware holds well-formed BCD).
    pub fn month(&mut self) -> (r: Result<u8, RtcError<T::BusError>>)
        requires
            old(self).wf(),
        ensures
            final(self).wf(),
            final(self).regs() == old(self).regs(),
            r matches Ok(v) ==> v == datetime_of_regs(old(self).regs()).month,
            r matches Err(e) ==> e matches RtcError::I2c(_),
    {
        match self.get_datetime() {
            Ok(dt) => Ok(dt.month),
            Err(e) => Err(e),
        }
    }

    /// Read the full calendar year (e.g. 2024), derived from the year
    /// register and the century flag.
    pub fn year(&mut self) -> (r: Result<u16, RtcError<T::BusError>>)
        requires
            old(self).wf(),
        ensures
            final(self).wf(),
            final(self).regs() == old(self).regs(),
            r matches Ok(y) ==> datetime_valid(datetime_of_regs(old(self).regs())) && y
                == full_year(
                datetime_of_regs(old(self).regs()).year,
                century_flag(old(self).regs()[REG_CENTURY_MONTHS as int]),
            ),
            r matches Err(RtcError::InvalidInputData) ==> !datetime_valid(
                datetime_of_regs(old(self).regs()),
            ),
    {
        match self.datetime() {
            Ok(c) => Ok(c.year),
            Err(e) => Err(e),
        }
    }

    /// Read the full calendar date, weekday included.
    pub fn date(&mut self) -> (r: Result<CalendarDate, RtcError<T::BusError>>)
        requires
            old(self).wf(),
        ensures
            final(self).wf(),
            final(self).regs() == old(self).regs(),
            r matches Ok(d) ==> datetime_valid(datetime_of_regs(old(self).regs())) && d
                == (CalendarDate {
                year: full_year(
                    datetime_of_regs(old(self).regs()).year,
                    century_flag(old(self).regs()[REG_CENTURY_MONTHS as int]),
                ),
                month: datetime_of_regs(old(self).regs()).month,
                day: datetime_of_regs(old(self).regs()).day,
                weekday: datetime_of_regs(old(self).regs()).weekday,
            }),
            r matches Err(RtcError::InvalidInputData) ==> !datetime_valid(
                datetime_of_regs(old(self).regs()),
            ),
    {
        match self.datetime() {
            Ok(c) => Ok(
                CalendarDate { year: c.year, month: c.month, day: c.day, weekday: c.weekday },
            ),
            Err(e) => Err(e),
        }
    }

    /// Set the seconds (0-59), rewriting the whole date/time record.
    pub fn set_seconds(&mut self, seconds: u8) -> (r: Result<(), RtcError<T::BusError>>)
        requires
            old(self).wf(),
        ensures
            final(self).wf(),
            r is Ok ==> datetime_valid(with_seconds(datetime_of_regs(old(self).regs()), seconds))
                && final(self).regs() == datetime_image(
                old(self).regs(),
                with_seconds(datetime_of_regs(old(self).regs()), seconds),
                7,
            ),
            r matches Err(RtcError::InvalidInputData) ==> final(self).regs() == old(self).regs()
                && !datetime_valid(with_seconds(datetime_of_regs(old(self).regs()), seconds)),
            r matches Err(RtcError::I2c(_)) ==> exists|k: int|
                0 <= k < 7 && final(self).regs() == datetime_image(
                    old(self).regs(),
                    with_seconds(datetime_of_regs(old(self).regs()), seconds),
                    k,
                ),
    {
        let ghost regs0 = self.regs();
        let mut dt = match self.get_datetime() {
            Ok(v) => v,
            Err(e) => {
                proof {
                    assert(self.regs() =~= datetime_image(
                        regs0,
                        with_seconds(datetime_of_regs(regs0), seconds),
                        0,
                    ));
                }
                return Err(e);
            },
        };
        dt.seconds = seconds;
        proof {
            assert(dt == with_seconds(datetime_of_regs(regs0), seconds));
        }
        self.set_datetime(&dt)
    }

    /// Set the minutes (0-59), rewriting the whole date/time record.
    pub fn set_minutes(&mut self, minutes: u8) -> (r: Result<(), RtcError<T::BusError>>)
        requires
            old(self).wf(),
        ensures
            final(self).wf(),
            r is Ok ==> datetime_valid(with_minutes(datetime_of_regs(old(self).regs()), minutes))
                && final(self).regs() == datetime_image(
                old(self).regs(),
                with_minutes(datetime_of_regs(old(self).regs()), minutes),
                7,
            ),
            r matches Err(RtcError::InvalidInputData) ==> final(self).regs() == old(self).regs()
                && !datetime_valid(with_minutes(datetime_of_regs(old(self).regs()), minutes)),
            r matches Err(RtcError::I2c(_)) ==> exists|k: int|
                0 <= k < 7 && final(self).regs() == datetime_image(
                    old(self).regs(),
                    with_minutes(datetime_of_regs(old(self).regs()), minutes),
                    k,
                ),
    {
        let ghost regs0 = self.regs();
        let mut dt = match self.get_datetime() {
            Ok(v) => v,
            Err(e) => {
                proof {
                    assert(self.regs() =~= datetime_image(
                        regs0,
                        with_minutes(datetime_of_regs(regs0), minutes),
                        0,
                    ));
                }
                return Err(e);
            },
        };
        dt.minutes = minutes;
        proof {
            assert(dt == with_minutes(datetime_of_regs(regs0), minutes));
        }
        self.set_datetime(&dt)
    }

    /// Set the hours from a 12-hour or 24-hour value, rewriting the whole
    /// date/time record. An out-of-range value is rejected before any bus
    /// traffic.
    pub fn set_hours(&mut self, hours: Hours) -> (r: Result<(), RtcError<T::BusError>>)
        requires
            old(self).wf(),
        ensures
            final(self).wf(),
            r is Ok ==> (hours_24_of(hours) matches Some(h) && datetime_valid(
                with_hours(datetime_of_regs(old(self).regs()), h),
            ) && final(self).regs() == datetime_image(
                old(self).regs(),
                with_hours(datetime_of_regs(old(self).regs()), h),
                7,
            )),
            hours_24_of(hours) is None ==> (r matches Err(RtcError::InvalidInputData) && final(self).regs() == old(self).regs() && final(self).txns() == old(self).txns()),
            r matches Err(RtcError::InvalidInputData) ==> final(self).regs() == old(self).regs(),
            r matches Err(RtcError::InvalidInputData) ==> (hours_24_of(hours) is None || (
            hours_24_of(hours) matches Some(h) && !datetime_valid(
                with_hours(datetime_of_regs(old(self).regs()), h),
            ))),
            r matches Err(RtcError::I2c(_)) ==> (hours_24_of(hours) matches Some(h) && exists|
                k: int,
            |
                0 <= k < 7 && final(self).regs() == datetime_image(
                    old(self).regs(),
                    with_hours(datetime_of_regs(old(self).regs()), h),
                    k,
                )),
    {
        let hours_24 = match hours_to_h24(hours) {
            Some(v) => v,
            None => return Err(RtcError::InvalidInputData),
        };
        let ghost regs0 = self.regs();
        let mut dt = match self.get_datetime() {
            Ok(v) => v,
            Err(e) => {
                proof {
                    assert(self.regs() =~= datetime_image(
                        regs0,
                        with_hours(datetime_of_regs(regs0), hours_24),
                        0,
                    ));
                }
                return Err(e);
            },
        };
        dt.hours = hours_24;
        proof {
            assert(dt == with_hours(datetime_of_regs(regs0), hours_24));
        }
        self.set_datetime(&dt)
    }

    /// Set the weekday from its 1-7 form (1=Sunday), rewriting the whole
    /// date/time record. Values outside 1-7 are rejected before any bus
    /// traffic.
    pub fn set_weekday(&mut self, weekday: u8) -> (r: Result<(), RtcError<T::BusError>>)
        requires
            old(self).wf(),
        ensures
            final(self).wf(),
            r is Ok ==> 1 <= weekday <= 7 && final(self).regs() == datetime_image(
                old(self).regs(),
                with_weekday(datetime_of_regs(old(self).regs()), (weekday - 1) as u8),
                7,
            ),
            !(1 <= weekday <= 7) ==> (r matches Err(RtcError::InvalidInputData) && final(self).regs() == old(self).regs() && final(self).txns() == old(self).txns()),
            r matches Err(RtcError::InvalidInputData) ==> final(self).regs() == old(self).regs(),
            r matches Err(RtcError::InvalidInputData) ==> !(1 <= weekday <= 7) || !datetime_valid(
                with_weekday(datetime_of_regs(old(self).regs()), (weekday - 1) as u8),
            ),
            r matches Err(RtcError::I2c(_)) ==> (1 <= weekday <= 7 && exists|k: int|
                0 <= k < 7 && final(self).regs() == #[trigger] datetime_image(
                    old(self).regs(),
                    with_weekday(datetime_of_regs(old(self).regs()), (weekday - 1) as u8),
                    k,
                )),
    {
        if weekday < 1 || weekday > 7 {
            return Err(RtcError::InvalidInputData);
        }
        let ghost regs0 = self.regs();
        let mut dt = match self.get_datetime() {
            Ok(v) => v,
            Err(e) => {
                proof {
                    assert(self.regs() =~= datetime_image(
                        regs0,
                        with_weekday(datetime_of_regs(regs0), (weekday - 1) as u8),
                        0,
                    ));
                }
                return Err(e);
            },
        };
        dt.weekday = weekday - 1;
        proof {
            assert(dt == with_weekday(datetime_of_regs(regs0), (weekday - 1) as u8));
        }
        self.set_datetime(&dt)
    }

    /// Set the day of month (1-31), rewriting the whole date/time record.
    pub fn set_day(&mut self, day: u8) -> (r: Result<(), RtcError<T::BusError>>)
        requires
            old(self).wf(),
        ensures
            final(self).wf(),
            r is Ok ==> datetime_valid(with_day(datetime_of_regs(old(self).regs()), day)) && final(self).regs() == datetime_image(
                old(self).regs(),
                with_day(datetime_of_regs(old(self).regs()), day),
                7,
            ),
            r matches Err(RtcError::InvalidInputData) ==> final(self).regs() == old(self).regs()
                && !datetime_valid(with_day(datetime_of_regs(old(self).regs()), day)),
            r matches Err(RtcError::I2c(_)) ==> exists|k: int|
                0 <= k < 7 && final(self).regs() == datetime_image(
                    old(self).regs(),
                    with_day(datetime_of_regs(old(self).regs()), day),
                    k,
                ),
    {
        let ghost regs0 = self.regs();
        let mut dt = match self.get_datetime() {
            Ok(v) => v,
            Err(e) => {
                proof {
                    assert(self.regs() =~= datetime_image(
                        regs0,
                        with_day(datetime_of_regs(regs0), day),
                        0,
                    ));
                }
                return Err(e);
            },
        };
        dt.day = day;
        proof {
            assert(dt == with_day(datetime_of_regs(regs0), day));
        }
        self.set_datetime(&dt)
    }

    /// Set the month (1-12), rewriting the whole date/time record.
    pub fn set_month(&mut self, month: u8) -> (r: Result<(), RtcError<T::BusError>>)
        requires
            old(self).wf(),
        ensures
            final(self).wf(),
            r is Ok ==> datetime_valid(with_month(datetime_of_regs(old(self).regs()), month))
                && final(self).regs() == datetime_image(
                old(self).regs(),
                with_month(datetime_of_regs(old(self).regs()), month),
                7,
            ),
            r matches Err(RtcError::InvalidInputData) ==> final(self).regs() == old(self).regs()
                && !datetime_valid(with_month(datetime_of_regs(old(self).regs()), month)),
            r matches Err(RtcError::I2c(_)) ==> exists|k: int|
                0 <= k < 7 && final(self).regs() == datetime_image(
                    old(self).regs(),
                    with_month(datetime_of_regs(old(self).regs()), month),
                    k,
                ),
    {
        let ghost regs0 = self.regs();
        let mut dt = match self.get_datetime() {
            Ok(v) => v,
            Err(e) => {
                proof {
                    assert(self.regs() =~= datetime_image(
                        regs0,
                        with_month(datetime_of_regs(regs0), month),
                        0,
                    ));
                }
                return Err(e);
            },
        };
        dt.month = month;
        proof {
            assert(dt == with_month(datetime_of_regs(regs0), month));
        }
        self.set_datetime(&dt)
    }

    /// Set the full calendar year (1900-2099), rewriting the whole date/time
    /// record and then the century flag, in that order, so the month write
    /// cannot clobber the flag. Years outside the range are rejected before
    /// any bus traffic.
    pub fn set_year(&mut self, year: u16) -> (r: Result<(), RtcError<T::BusError>>)
        requires
            old(self).wf(),
        ensures
            final(self).wf(),
            r is Ok ==> year_valid(year) && datetime_valid(
                with_year(datetime_of_regs(old(self).regs()), (year % 100) as u8),
            ) && final(self).regs() == datetime_with_century_image(
                old(self).regs(),
                with_year(datetime_of_regs(old(self).regs()), (year % 100) as u8),
                century_of_year(year),
            ),
            !year_valid(year) ==> (r matches Err(RtcError::InvalidInputData) && final(self).regs()
                == old(self).regs() && final(self).txns() == old(self).txns()),
            r matches Err(RtcError::InvalidInputData) ==> final(self).regs() == old(self).regs(),
            r matches Err(RtcError::InvalidInputData) ==> !year_valid(year) || !datetime_valid(
                with_year(datetime_of_regs(old(self).regs()), (year % 100) as u8),
            ),
            r matches Err(RtcError::I2c(_)) ==> exists|k: int|
                0 <= k <= 7 && final(self).regs() == #[trigger] datetime_image(
                    old(self).regs(),
                    with_year(datetime_of_regs(old(self).regs()), (year % 100) as u8),
                    k,
                ),
    {
        if year < 1900 || year > 2099 {
            return Err(RtcError::InvalidInputData);
        }
        let ghost regs0 = self.regs();
        let mut dt = match self.get_datetime() {
            Ok(v) => v,
            Err(e) => {
                proof {
                    assert(self.regs() =~= datetime_image(
                        regs0,
                        with_year(datetime_of_regs(regs0), (year % 100) as u8),
                        0,
                    ));
                }
                return Err(e);
            },
        };
        dt.year = (year % 100) as u8;
        proof {
            assert(dt == with_year(datetime_of_regs(regs0), (year % 100) as u8));
        }
        match self.set_datetime(&dt) {
            Ok(_) => {},
            Err(e) => return Err(e),
        }
        proof {
            assert(self.regs() == datetime_image(regs0, dt, 7));
        }
        match self.set_century_flag(year < 2000) {
            Ok(_) => Ok(()),
            Err(e) => Err(e),
        }
    }

    /// Set the calendar date, weekday included, rewriting the whole
    /// date/time record and then the century flag, in that order. Years
    /// outside 1900-2099 are rejected before any bus traffic.
    pub fn set_date(&mut self, date: &CalendarDate) -> (r: Result<(), RtcError<T::BusError>>)
        requires
            old(self).wf(),
        ensures
            final(self).wf(),
            r is Ok ==> year_valid(date.year) && datetime_valid(
                date_applied(datetime_of_regs(old(self).regs()), *date),
            ) && final(self).regs() == datetime_with_century_image(
                old(self).regs(),
                date_applied(datetime_of_regs(old(self).regs()), *date),
                century_of_year(date.year),
            ),
            !year_valid(date.year) ==> (r matches Err(RtcError::InvalidInputData) && final(self).regs() == old(self).regs() && final(self).txns() == old(self).txns()),
            r matches Err(RtcError::InvalidInputData) ==> final(self).regs() == old(self).regs(),
            r matches Err(RtcError::InvalidInputData) ==> !year_valid(date.year)
                || !datetime_valid(date_applied(datetime_of_regs(old(self).regs()), *date)),
            r matches Err(RtcError::I2c(_)) ==> exists|k: int|
                0 <= k <= 7 && final(self).regs() == #[trigger] datetime_image(
                    old(self).regs(),
                    date_applied(datetime_of_regs(old(self).regs()), *date),
                    k,
                ),
    {
        if date.year < 1900 || date.year > 2099 {
            return Err(RtcError::InvalidInputData);
        }
        let ghost regs0 = self.regs();
        let mut dt = match self.get_datetime() {
            Ok(v) => v,
            Err(e) => {
                proof {
                    assert(self.regs() =~= datetime_image(
                        regs0,
                        date_applied(datetime_of_regs(regs0), *date),
                        0,
                    ));
                }
                return Err(e);
            },
        };
        dt.year = (date.year % 100) as u8;
        dt.month = date.month;
        dt.day = date.day;
        dt.weekday = date.weekday;
        proof {
            assert(dt == date_applied(datetime_of_regs(regs0), *date));
        }
        match self.set_datetime(&dt) {
            Ok(_) => {},
            Err(e) => return Err(e),
        }
        proof {
            assert(self.regs() == datetime_image(regs0, dt, 7));
        }
        match self.set_century_flag(date.year < 2000) {
            Ok(_) => Ok(()),
            Err(e) => Err(e),
        }
    }
}

/// `dt` with its year replaced (2-digit form).
pub open spec fn with_year(dt: DateTime, year: u8) -> DateTime {
    DateTime { year, ..dt }
}

/// `dt` with the date fields of `date` applied: year (last two digits),
/// month, day and weekday replaced, the time of day kept.
pub open spec fn date_applied(dt: DateTime, date: CalendarDate) -> DateTime {
    DateTime {
        year: (date.year % 100) as u8,
        month: date.month,
        day: date.day,
        weekday: date.weekday,
        ..dt
    }
}

} // verus!
