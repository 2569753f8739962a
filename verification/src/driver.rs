//! The high-level driver: validated, multi-register operations over a
//! [`Transport`].
//!
//! Every operation's contract is stated over the transport's model of the
//! register file. Composite writes are not transactional: a transport fault
//! mid-sequence leaves the file with a prefix of the sequence applied, and
//! the contracts say exactly that.

use vstd::prelude::*;

use crate::regmap::ALARM_DISABLED;
use crate::regmap::CONTROL_CLEAR;
use crate::regmap::ClkoutFrequency;
use crate::regmap::REGISTER_COUNT;
use crate::regmap::REG_CENTURY_MONTHS;
use crate::regmap::REG_CLKOUT_CONTROL;
use crate::regmap::REG_CONTROL_STATUS_1;
use crate::regmap::REG_CONTROL_STATUS_2;
use crate::regmap::REG_DAYS;
use crate::regmap::REG_DAY_ALARM;
use crate::regmap::REG_HOURS;
use crate::regmap::REG_HOUR_ALARM;
use crate::regmap::REG_MINUTES;
use crate::regmap::REG_MINUTE_ALARM;
use crate::regmap::REG_TIMER;
use crate::regmap::REG_TIMER_CONTROL;
use crate::regmap::REG_VL_SECONDS;
use crate::regmap::REG_WEEKDAYS;
use crate::regmap::REG_WEEKDAY_ALARM;
use crate::regmap::REG_YEARS;
use crate::regmap::TimerFrequency;
use crate::regmap::alarm_flag;
use crate::regmap::alarm_interrupt_enabled;
use crate::regmap::bit_is_set;
use crate::regmap::century_flag;
use crate::regmap::clkout_enabled;
use crate::regmap::clkout_frequency_of;
use crate::regmap::clkout_with_enabled;
use crate::regmap::clkout_with_frequency;
use crate::regmap::cs1_with_stop;
use crate::regmap::cs2_with_alarm_flag;
use crate::regmap::cs2_with_alarm_interrupt;
use crate::regmap::cs2_with_pulse_mode;
use crate::regmap::cs2_with_timer_flag;
use crate::regmap::cs2_with_timer_interrupt;
use crate::regmap::months_with_century;
use crate::regmap::seconds_with_vl_cleared;
use crate::regmap::spec_seconds_with_vl_cleared;
use crate::regmap::spec_timer_control_with_frequency;
use crate::regmap::stop_flag;
use crate::regmap::timer_control_with_enabled;
use crate::regmap::timer_control_with_frequency;
use crate::regmap::timer_enabled;
use crate::regmap::timer_flag;
use crate::regmap::timer_frequency_of;
use crate::regmap::timer_interrupt_enabled;
use crate::regmap::vl_flag;
use crate::transport::Transport;
use crate::Alarm;
use crate::DateTime;
use crate::RtcError;
use crate::Time;
use crate::bcd_decode;
use crate::bcd_encode;
use crate::bcd_to_dec;
use crate::dec_to_bcd;
use crate::lemma_bcd_round_trip;

verus! {

/// Every field of `dt` within its documented range. No calendar validity
/// beyond the ranges is asked (day 31 in February is accepted).
pub open spec fn datetime_valid(dt: DateTime) -> bool {
    &&& dt.year <= 99
    &&& 1 <= dt.month <= 12
    &&& 1 <= dt.day <= 31
    &&& dt.weekday <= 6
    &&& dt.hours <= 23
    &&& dt.minutes <= 59
    &&& dt.seconds <= 59
}

/// Every field of `t` within its documented range.
pub open spec fn time_valid(t: Time) -> bool {
    &&& t.hours <= 23
    &&& t.minutes <= 59
    &&& t.seconds <= 59
}

/// Every enabled alarm component within its documented range.
pub open spec fn alarm_valid(a: Alarm) -> bool {
    &&& (a.minute matches Some(m) ==> m <= 59)
    &&& (a.hour matches Some(h) ==> h <= 23)
    &&& (a.day matches Some(d) ==> 1 <= d <= 31)
    &&& (a.weekday matches Some(w) ==> w <= 6)
}

/// The byte that storing `dt` writes to the date/time register at address
/// `a` (addresses 2 through 8). The seconds byte carries a cleared
/// voltage-low flag; the weekday is stored raw, every other field as BCD.
pub open spec fn datetime_reg_byte(dt: DateTime, a: int) -> u8 {
    if a == REG_VL_SECONDS as int {
        bcd_encode(dt.seconds)
    } else if a == REG_MINUTES as int {
        bcd_encode(dt.minutes)
    } else if a == REG_HOURS as int {
        bcd_encode(dt.hours)
    } else if a == REG_DAYS as int {
        bcd_encode(dt.day)
    } else if a == REG_WEEKDAYS as int {
        dt.weekday
    } else if a == REG_CENTURY_MONTHS as int {
        bcd_encode(dt.month)
    } else {
        bcd_encode(dt.year)
    }
}

/// The register file after the first `k` of the seven date/time writes for
/// `dt` (seconds, minutes, hours, day, weekday, month, year — in register
/// address order).
pub open spec fn datetime_image(regs: Seq<u8>, dt: DateTime, k: int) -> Seq<u8> {
    Seq::new(
        regs.len(),
        |i: int|
            if REG_VL_SECONDS as int <= i < REG_VL_SECONDS as int + k {
                datetime_reg_byte(dt, i)
            } else {
                regs[i]
            },
    )
}

/// The byte that storing `t` writes to the time register at address `a`
/// (addresses 2 through 4).
pub open spec fn time_reg_byte(t: Time, a: int) -> u8 {
    if a == REG_VL_SECONDS as int {
        bcd_encode(t.seconds)
    } else if a == REG_MINUTES as int {
        bcd_encode(t.minutes)
    } else {
        bcd_encode(t.hours)
    }
}

/// The register file after the first `k` of the three time writes for `t`
/// (seconds, minutes, hours — in register address order).
pub open spec fn time_image(regs: Seq<u8>, t: Time, k: int) -> Seq<u8> {
    Seq::new(
        regs.len(),
        |i: int|
            if REG_VL_SECONDS as int <= i < REG_VL_SECONDS as int + k {
                time_reg_byte(t, i)
            } else {
                regs[i]
            },
    )
}

/// The byte that storing `a` writes to the alarm register at address `addr`
/// (addresses 9 through 12). A disabled component gets the disable bit and
/// zeroed value bits; an enabled one gets a cleared disable bit and the value
/// as BCD (raw for the weekday).
pub open spec fn alarm_reg_byte(a: Alarm, addr: int) -> u8 {
    if addr == REG_MINUTE_ALARM as int {
        match a.minute {
            Some(m) => bcd_encode(m),
            None => ALARM_DISABLED,
        }
    } else if addr == REG_HOUR_ALARM as int {
        match a.hour {
            Some(h) => bcd_encode(h),
            None => ALARM_DISABLED,
        }
    } else if addr == REG_DAY_ALARM as int {
        match a.day {
            Some(d) => bcd_encode(d),
            None => ALARM_DISABLED,
        }
    } else {
        match a.weekday {
            Some(w) => w,
            None => ALARM_DISABLED,
        }
    }
}

/// The register file after the first `k` of the four alarm writes for `a`
/// (minute, hour, day, weekday — in register address order).
pub open spec fn alarm_image(regs: Seq<u8>, a: Alarm, k: int) -> Seq<u8> {
    Seq::new(
        regs.len(),
        |i: int|
            if REG_MINUTE_ALARM as int <= i < REG_MINUTE_ALARM as int + k {
                alarm_reg_byte(a, i)
            } else {
                regs[i]
            },
    )
}

/// The date and time encoded by seven raw date/time register bytes. Data
/// read from hardware is trusted: malformed BCD nibbles yield out-of-range
/// fields rather than an error.
pub open spec fn datetime_of_bytes(
    seconds: u8,
    minutes: u8,
    hours: u8,
    days: u8,
    weekdays: u8,
    months: u8,
    years: u8,
) -> DateTime {
    DateTime {
        year: bcd_decode(years),
        month: bcd_decode(months & 0x1F),
        day: bcd_decode(days & 0x3F),
        weekday: weekdays & 0x07,
        hours: bcd_decode(hours & 0x3F),
        minutes: bcd_decode(minutes & 0x7F),
        seconds: bcd_decode(seconds & 0x7F),
    }
}

/// The date and time held in the register file.
pub open spec fn datetime_of_regs(regs: Seq<u8>) -> DateTime {
    datetime_of_bytes(
        regs[REG_VL_SECONDS as int],
        regs[REG_MINUTES as int],
        regs[REG_HOURS as int],
        regs[REG_DAYS as int],
        regs[REG_WEEKDAYS as int],
        regs[REG_CENTURY_MONTHS as int],
        regs[REG_YEARS as int],
    )
}

/// The alarm configuration encoded by the four raw alarm register bytes: a
/// component whose disable bit is set reads as `None` whatever its value
/// bits hold.
pub open spec fn alarm_of_bytes(minute: u8, hour: u8, day: u8, weekday: u8) -> Alarm {
    Alarm {
        minute: if bit_is_set(minute, 0x80) {
            None
        } else {
            Some(bcd_decode(minute & 0x7F))
        },
        hour: if bit_is_set(hour, 0x80) {
            None
        } else {
            Some(bcd_decode(hour & 0x3F))
        },
        day: if bit_is_set(day, 0x80) {
            None
        } else {
            Some(bcd_decode(day & 0x3F))
        },
        weekday: if bit_is_set(weekday, 0x80) {
            None
        } else {
            Some(weekday & 0x07)
        },
    }
}

/// The alarm configuration held in the register file.
pub open spec fn alarm_of_regs(regs: Seq<u8>) -> Alarm {
    alarm_of_bytes(
        regs[REG_MINUTE_ALARM as int],
        regs[REG_HOUR_ALARM as int],
        regs[REG_DAY_ALARM as int],
        regs[REG_WEEKDAY_ALARM as int],
    )
}

/// The register file after a successful `init`: both control registers
/// cleared, the voltage-low flag cleared with the seconds kept, all four
/// alarm components disabled, and the timer source set to the slowest
/// frequency with the other timer-control bits kept.
pub open spec fn init_image(regs: Seq<u8>) -> Seq<u8> {
    regs.update(REG_CONTROL_STATUS_1 as int, CONTROL_CLEAR).update(
        REG_CONTROL_STATUS_2 as int,
        CONTROL_CLEAR,
    ).update(
        REG_VL_SECONDS as int,
        spec_seconds_with_vl_cleared(regs[REG_VL_SECONDS as int]),
    ).update(REG_MINUTE_ALARM as int, ALARM_DISABLED).update(
        REG_HOUR_ALARM as int,
        ALARM_DISABLED,
    ).update(REG_DAY_ALARM as int, ALARM_DISABLED).update(
        REG_WEEKDAY_ALARM as int,
        ALARM_DISABLED,
    ).update(
        REG_TIMER_CONTROL as int,
        spec_timer_control_with_frequency(
            regs[REG_TIMER_CONTROL as int],
            TimerFrequency::Freq160Hz,
        ),
    )
}

/// The register file partway through `init`: the first `k` of its three
/// leading steps applied (clear control register 1, clear control register
/// 2, clear the voltage-low flag — in that order), and the first `j` of its
/// four alarm-disabling writes (minute, hour, day, weekday — in register
/// address order). The timer-frequency step comes last, so a file `init`
/// leaves behind on a fault is `init_stage(regs, k, j)` for some `k` and
/// `j`; `init_image` is `init_stage(regs, 3, 4)` with that final step
/// applied.
pub open spec fn init_stage(regs: Seq<u8>, k: int, j: int) -> Seq<u8> {
    Seq::new(
        regs.len(),
        |i: int|
            if i == REG_CONTROL_STATUS_1 as int && k >= 1 {
                CONTROL_CLEAR
            } else if i == REG_CONTROL_STATUS_2 as int && k >= 2 {
                CONTROL_CLEAR
            } else if i == REG_VL_SECONDS as int && k >= 3 {
                spec_seconds_with_vl_cleared(regs[i])
            } else if REG_MINUTE_ALARM as int <= i < REG_MINUTE_ALARM as int + j {
                ALARM_DISABLED
            } else {
                regs[i]
            },
    )
}

/// Decode the seven date/time register bytes, in register address order.
pub fn datetime_from_registers(
    seconds: u8,
    minutes: u8,
    hours: u8,
    days: u8,
    weekdays: u8,
    months: u8,
    years: u8,
) -> (dt: DateTime)
    ensures
        dt == datetime_of_bytes(seconds, minutes, hours, days, weekdays, months, years),
{
    DateTime {
        year: bcd_to_dec(years),
        month: bcd_to_dec(months & 0x1F),
        day: bcd_to_dec(days & 0x3F),
        weekday: weekdays & 0x07,
        hours: bcd_to_dec(hours & 0x3F),
        minutes: bcd_to_dec(minutes & 0x7F),
        seconds: bcd_to_dec(seconds & 0x7F),
    }
}

/// Decode the four alarm register bytes, in register address order.
pub fn alarm_from_registers(minute: u8, hour: u8, day: u8, weekday: u8) -> (a: Alarm)
    ensures
        a == alarm_of_bytes(minute, hour, day, weekday),
{
    Alarm {
        minute: if minute & 0x80 != 0 {
            None
        } else {
            Some(bcd_to_dec(minute & 0x7F))
        },
        hour: if hour & 0x80 != 0 {
            None
        } else {
            Some(bcd_to_dec(hour & 0x3F))
        },
        day: if day & 0x80 != 0 {
            None
        } else {
            Some(bcd_to_dec(day & 0x3F))
        },
        weekday: if weekday & 0x80 != 0 {
            None
        } else {
            Some(weekday & 0x07)
        },
    }
}

/// The `(address, byte)` pairs that store `dt`, in write order.
pub open spec fn datetime_plan(dt: DateTime) -> Seq<(u8, u8)> {
    seq![
        (REG_VL_SECONDS, bcd_encode(dt.seconds)),
        (REG_MINUTES, bcd_encode(dt.minutes)),
        (REG_HOURS, bcd_encode(dt.hours)),
        (REG_DAYS, bcd_encode(dt.day)),
        (REG_WEEKDAYS, dt.weekday),
        (REG_CENTURY_MONTHS, bcd_encode(dt.month)),
        (REG_YEARS, bcd_encode(dt.year)),
    ]
}

/// The `(address, byte)` write sequence that stores `dt`, in write order, or
/// `None` when a field is out of range. Writing the pairs in order takes the
/// register file through [`datetime_image`]; an execution shim that performs
/// the writes one by one behaves as [`Pcf8563::set_datetime`] does.
pub fn datetime_write_plan(dt: &DateTime) -> (r: Option<Vec<(u8, u8)>>)
    ensures
        r is Some <==> datetime_valid(*dt),
        r matches Some(v) ==> v@ == datetime_plan(*dt),
{
    if dt.year > 99 || dt.month < 1 || dt.month > 12 || dt.weekday > 6 || dt.day < 1 || dt.day > 31
        || dt.hours > 23 || dt.minutes > 59 || dt.seconds > 59 {
        return None;
    }
    let mut v: Vec<(u8, u8)> = Vec::new();
    v.push((REG_VL_SECONDS, dec_to_bcd(dt.seconds)));
    v.push((REG_MINUTES, dec_to_bcd(dt.minutes)));
    v.push((REG_HOURS, dec_to_bcd(dt.hours)));
    v.push((REG_DAYS, dec_to_bcd(dt.day)));
    v.push((REG_WEEKDAYS, dt.weekday));
    v.push((REG_CENTURY_MONTHS, dec_to_bcd(dt.month)));
    v.push((REG_YEARS, dec_to_bcd(dt.year)));
    proof {
        assert(v@ =~= datetime_plan(*dt));
    }
    Some(v)
}

/// The `(address, byte)` pairs that store `t`, in write order.
pub open spec fn time_plan(t: Time) -> Seq<(u8, u8)> {
    seq![
        (REG_VL_SECONDS, bcd_encode(t.seconds)),
        (REG_MINUTES, bcd_encode(t.minutes)),
        (REG_HOURS, bcd_encode(t.hours)),
    ]
}

/// The `(address, byte)` write sequence that stores `t`, in write order, or
/// `None` when a field is out of range. The counterpart of
/// [`Pcf8563::set_time`] for an execution shim.
pub fn time_write_plan(t: &Time) -> (r: Option<Vec<(u8, u8)>>)
    ensures
        r is Some <==> time_valid(*t),
        r matches Some(v) ==> v@ == time_plan(*t),
{
    if t.hours > 23 || t.minutes > 59 || t.seconds > 59 {
        return None;
    }
    let mut v: Vec<(u8, u8)> = Vec::new();
    v.push((REG_VL_SECONDS, dec_to_bcd(t.seconds)));
    v.push((REG_MINUTES, dec_to_bcd(t.minutes)));
    v.push((REG_HOURS, dec_to_bcd(t.hours)));
    proof {
        assert(v@ =~= time_plan(*t));
    }
    Some(v)
}

/// The `(address, byte)` pairs that store `a`, in write order.
pub open spec fn alarm_plan(a: Alarm) -> Seq<(u8, u8)> {
    seq![
        (REG_MINUTE_ALARM, alarm_reg_byte(a, REG_MINUTE_ALARM as int)),
        (REG_HOUR_ALARM, alarm_reg_byte(a, REG_HOUR_ALARM as int)),
        (REG_DAY_ALARM, alarm_reg_byte(a, REG_DAY_ALARM as int)),
        (REG_WEEKDAY_ALARM, alarm_reg_byte(a, REG_WEEKDAY_ALARM as int)),
    ]
}

/// The `(address, byte)` write sequence that stores `a`, in write order, or
/// `None` when an enabled component is out of range. The counterpart of
/// [`Pcf8563::set_alarm`] for an execution shim.
pub fn alarm_write_plan(a: &Alarm) -> (r: Option<Vec<(u8, u8)>>)
    ensures
        r is Some <==> alarm_valid(*a),
        r matches Some(v) ==> v@ == alarm_plan(*a),
{
    let minute_byte = match a.minute {
        Some(m) => {
            if m > 59 {
                return None;
            }
            dec_to_bcd(m)
        },
        None => ALARM_DISABLED,
    };
    let hour_byte = match a.hour {
        Some(h) => {
            if h > 23 {
                return None;
            }
            dec_to_bcd(h)
        },
        None => ALARM_DISABLED,
    };
    let day_byte = match a.day {
        Some(d) => {
            if d < 1 || d > 31 {
                return None;
            }
            dec_to_bcd(d)
        },
        None => ALARM_DISABLED,
    };
    let weekday_byte = match a.weekday {
        Some(w) => {
            if w > 6 {
                return None;
            }
            w
        },
        None => ALARM_DISABLED,
    };
    let mut v: Vec<(u8, u8)> = Vec::new();
    v.push((REG_MINUTE_ALARM, minute_byte));
    v.push((REG_HOUR_ALARM, hour_byte));
    v.push((REG_DAY_ALARM, day_byte));
    v.push((REG_WEEKDAY_ALARM, weekday_byte));
    proof {
        assert(v@ =~= alarm_plan(*a));
    }
    Some(v)
}

/// The addresses of the seven date/time registers, in read order.
pub open spec fn datetime_read_addresses() -> Seq<u8> {
    seq![
        REG_VL_SECONDS,
        REG_MINUTES,
        REG_HOURS,
        REG_DAYS,
        REG_WEEKDAYS,
        REG_CENTURY_MONTHS,
        REG_YEARS,
    ]
}

/// The register addresses a date/time read visits, in order: the read-path
/// counterpart of [`datetime_write_plan`] for an execution shim, decoded by
/// [`datetime_from_read_bytes`].
pub fn datetime_read_plan() -> (r: Vec<u8>)
    ensures
        r@ == datetime_read_addresses(),
{
    let mut v: Vec<u8> = Vec::new();
    v.push(REG_VL_SECONDS);
    v.push(REG_MINUTES);
    v.push(REG_HOURS);
    v.push(REG_DAYS);
    v.push(REG_WEEKDAYS);
    v.push(REG_CENTURY_MONTHS);
    v.push(REG_YEARS);
    proof {
        assert(v@ =~= datetime_read_addresses());
    }
    v
}

/// Decode the bytes read from the date/time registers in the order of
/// [`datetime_read_plan`]; `None` unless exactly seven bytes were supplied.
pub fn datetime_from_read_bytes(raw: &Vec<u8>) -> (r: Option<DateTime>)
    ensures
        raw@.len() == 7 ==> (r matches Some(dt) && dt == datetime_of_bytes(
            raw@[0],
            raw@[1],
            raw@[2],
            raw@[3],
            raw@[4],
            raw@[5],
            raw@[6],
        )),
        raw@.len() != 7 ==> r is None,
{
    if raw.len() != 7 {
        return None;
    }
    Some(datetime_from_registers(raw[0], raw[1], raw[2], raw[3], raw[4], raw[5], raw[6]))
}

/// The addresses of the four alarm registers, in read order.
pub open spec fn alarm_read_addresses() -> Seq<u8> {
    seq![REG_MINUTE_ALARM, REG_HOUR_ALARM, REG_DAY_ALARM, REG_WEEKDAY_ALARM]
}

/// The register addresses an alarm read visits, in order: the read-path
/// counterpart of [`alarm_write_plan`] for an execution shim, decoded by
/// [`alarm_from_read_bytes`].
pub fn alarm_read_plan() -> (r: Vec<u8>)
    ensures
        r@ == alarm_read_addresses(),
{
    let mut v: Vec<u8> = Vec::new();
    v.push(REG_MINUTE_ALARM);
    v.push(REG_HOUR_ALARM);
    v.push(REG_DAY_ALARM);
    v.push(REG_WEEKDAY_ALARM);
    proof {
        assert(v@ =~= alarm_read_addresses());
    }
    v
}

/// Decode the bytes read from the alarm registers in the order of
/// [`alarm_read_plan`]; `None` unless exactly four bytes were supplied.
pub fn alarm_from_read_bytes(raw: &Vec<u8>) -> (r: Option<Alarm>)
    ensures
        raw@.len() == 4 ==> (r matches Some(a) && a == alarm_of_bytes(
            raw@[0],
            raw@[1],
            raw@[2],
            raw@[3],
        )),
        raw@.len() != 4 ==> r is None,
{
    if raw.len() != 4 {
        return None;
    }
    Some(alarm_from_registers(raw[0], raw[1], raw[2], raw[3]))
}

/// Driver for the PCF8563/BM8563 real-time clock.
///
/// The driver exclusively owns its transport for its lifetime; operations
/// take `&mut self` and are meant to be issued strictly sequentially.
pub struct Pcf8563<T: Transport> {
    /// The register transport the driver drives.
    pub transport: T,
}

impl<T: Transport> Pcf8563<T> {
    /// Model of the device's register file, as the transport presents it.
    pub open spec fn regs(&self) -> Seq<u8> {
        self.transport.regs()
    }

    /// Number of bus transactions the transport has carried, attempted
    /// failures included. An operation that promises this unchanged issued
    /// no bus traffic at all.
    pub open spec fn txns(&self) -> nat {
        self.transport.txns()
    }

    /// The driver is usable: its transport is well-formed and models the
    /// device's sixteen registers.
    pub open spec fn wf(&self) -> bool {
        &&& self.transport.inv()
        &&& self.transport.regs().len() == REGISTER_COUNT
    }

    /// Create a driver over a register transport.
    pub fn new(transport: T) -> (r: Self)
        ensures
            r.transport == transport,
    {
        Pcf8563 { transport }
    }

    /// Get the current date and time.
    ///
    /// Reads all 7 date/time registers in address order and assembles one
    /// `DateTime`; a fault on any single read aborts the whole operation and
    /// no partial value is returned.
    pub fn get_datetime(&mut self) -> (r: Result<DateTime, RtcError<T::BusError>>)
        requires
            old(self).wf(),
        ensures
            final(self).wf(),
            final(self).regs() == old(self).regs(),
            r matches Ok(dt) ==> dt == datetime_of_regs(old(self).regs()),
            r matches Err(e) ==> e matches RtcError::I2c(_),
    {
        let seconds_reg = match self.transport.read_register(REG_VL_SECONDS) {
            Ok(v) => v,
            Err(e) => return Err(e),
        };
        let minutes_reg = match self.transport.read_register(REG_MINUTES) {
            Ok(v) => v,
            Err(e) => return Err(e),
        };
        let hours_reg = match self.transport.read_register(REG_HOURS) {
            Ok(v) => v,
            Err(e) => return Err(e),
        };
        let days_reg = match self.transport.read_register(REG_DAYS) {
            Ok(v) => v,
            Err(e) => return Err(e),
        };
        let weekdays_reg = match self.transport.read_register(REG_WEEKDAYS) {
            Ok(v) => v,
            Err(e) => return Err(e),
        };
        let months_reg = match self.transport.read_register(REG_CENTURY_MONTHS) {
            Ok(v) => v,
            Err(e) => return Err(e),
        };
        let years_reg = match self.transport.read_register(REG_YEARS) {
            Ok(v) => v,
            Err(e) => return Err(e),
        };
        Ok(
            datetime_from_registers(
                seconds_reg,
                minutes_reg,
                hours_reg,
                days_reg,
                weekdays_reg,
                months_reg,
                years_reg,
            ),
        )
    }

    /// Set the date and time.
    ///
    /// Rejects any out-of-range field before touching the bus. On success
    /// writes the 7 date/time registers in address order, the seconds write
    /// clearing the voltage-low flag as a side effect. The sequence is not
    /// transactional: a transport fault leaves a prefix of the writes
    /// applied.
    pub fn set_datetime(&mut self, dt: &DateTime) -> (r: Result<(), RtcError<T::BusError>>)
        requires
            old(self).wf(),
        ensures
            final(self).wf(),
            r is Ok ==> datetime_valid(*dt) && final(self).regs() == datetime_image(
                old(self).regs(),
                *dt,
                7,
            ) && final(self).txns() == old(self).txns() + 7,
            r matches Err(RtcError::InvalidInputData) <==> !datetime_valid(*dt),
            !datetime_valid(*dt) ==> final(self).regs() == old(self).regs() && final(self).txns()
                == old(self).txns(),
            r matches Err(RtcError::I2c(_)) ==> exists|k: int|
                0 <= k < 7 && final(self).regs() == #[trigger] datetime_image(
                    old(self).regs(),
                    *dt,
                    k,
                ) && final(self).txns() == old(self).txns() + k + 1,
    {
        if dt.year > 99 || dt.month < 1 || dt.month > 12 || dt.weekday > 6 || dt.day < 1 || dt.day
            > 31 || dt.hours > 23 || dt.minutes > 59 || dt.seconds > 59 {
            return Err(RtcError::InvalidInputData);
        }
        let ghost regs0 = self.regs();

        // Write seconds (also clears the VL flag)
        match self.transport.write_register(REG_VL_SECONDS, dec_to_bcd(dt.seconds)) {
            Ok(_) => {},
            Err(e) => {
                proof {
                    assert(self.regs() =~= datetime_image(regs0, *dt, 0));
                }
                return Err(e);
            },
        }
        proof {
            assert(self.regs() =~= datetime_image(regs0, *dt, 1));
        }
        match self.transport.write_register(REG_MINUTES, dec_to_bcd(dt.minutes)) {
            Ok(_) => {},
            Err(e) => return Err(e),
        }
        proof {
            assert(self.regs() =~= datetime_image(regs0, *dt, 2));
        }
        match self.transport.write_register(REG_HOURS, dec_to_bcd(dt.hours)) {
            Ok(_) => {},
            Err(e) => return Err(e),
        }
        proof {
            assert(self.regs() =~= datetime_image(regs0, *dt, 3));
        }
        match self.transport.write_register(REG_DAYS, dec_to_bcd(dt.day)) {
            Ok(_) => {},
            Err(e) => return Err(e),
        }
        proof {
            assert(self.regs() =~= datetime_image(regs0, *dt, 4));
        }
        match self.transport.write_register(REG_WEEKDAYS, dt.weekday) {
            Ok(_) => {},
            Err(e) => return Err(e),
        }
        proof {
            assert(self.regs() =~= datetime_image(regs0, *dt, 5));
        }
        match self.transport.write_register(REG_CENTURY_MONTHS, dec_to_bcd(dt.month)) {
            Ok(_) => {},
            Err(e) => return Err(e),
        }
        proof {
            assert(self.regs() =~= datetime_image(regs0, *dt, 6));
        }
        match self.transport.write_register(REG_YEARS, dec_to_bcd(dt.year)) {
            Ok(_) => {},
            Err(e) => return Err(e),
        }
        proof {
            assert(self.regs() =~= datetime_image(regs0, *dt, 7));
        }
        Ok(())
    }

    /// Set only the time (hours, minutes, seconds), leaving the date
    /// registers untouched.
    ///
    /// Same validation and partial-failure semantics as
    /// [`Self::set_datetime`], over the three time registers.
    pub fn set_time(&mut self, time: &Time) -> (r: Result<(), RtcError<T::BusError>>)
        requires
            old(self).wf(),
        ensures
            final(self).wf(),
            r is Ok ==> time_valid(*time) && final(self).regs() == time_image(
                old(self).regs(),
                *time,
                3,
            ) && final(self).txns() == old(self).txns() + 3,
            r matches Err(RtcError::InvalidInputData) <==> !time_valid(*time),
            !time_valid(*time) ==> final(self).regs() == old(self).regs() && final(self).txns()
                == old(self).txns(),
            r matches Err(RtcError::I2c(_)) ==> exists|k: int|
                0 <= k < 3 && final(self).regs() == #[trigger] time_image(
                    old(self).regs(),
                    *time,
                    k,
                ) && final(self).txns() == old(self).txns() + k + 1,
    {
        if time.hours > 23 || time.minutes > 59 || time.seconds > 59 {
            return Err(RtcError::InvalidInputData);
        }
        let ghost regs0 = self.regs();

        match self.transport.write_register(REG_VL_SECONDS, dec_to_bcd(time.seconds)) {
            Ok(_) => {},
            Err(e) => {
                proof {
                    assert(self.regs() =~= time_image(regs0, *time, 0));
                }
                return Err(e);
            },
        }
        proof {
            assert(self.regs() =~= time_image(regs0, *time, 1));
        }
        match self.transport.write_register(REG_MINUTES, dec_to_bcd(time.minutes)) {
            Ok(_) => {},
            Err(e) => return Err(e),
        }
        proof {
            assert(self.regs() =~= time_image(regs0, *time, 2));
        }
        match self.transport.write_register(REG_HOURS, dec_to_bcd(time.hours)) {
            Ok(_) => {},
            Err(e) => return Err(e),
        }
        proof {
            assert(self.regs() =~= time_image(regs0, *time, 3));
        }
        Ok(())
    }

    /// Check whether clock integrity is guaranteed: true when the
    /// voltage-low flag is clear.
    pub fn is_clock_valid(&mut self) -> (r: Result<bool, RtcError<T::BusError>>)
        requires
            old(self).wf(),
        ensures
            final(self).wf(),
            final(self).regs() == old(self).regs(),
            r matches Ok(b) ==> b == !vl_flag(old(self).regs()[REG_VL_SECONDS as int]),
            r matches Err(e) ==> e matches RtcError::I2c(_),
    {
        match self.transport.read_register(REG_VL_SECONDS) {
            Ok(v) => Ok(!vl_flag(v)),
            Err(e) => Err(e),
        }
    }

    /// Clear the voltage-low flag, preserving the stored seconds.
    pub fn clear_voltage_low_flag(&mut self) -> (r: Result<(), RtcError<T::BusError>>)
        requires
            old(self).wf(),
        ensures
            final(self).wf(),
            r is Ok ==> final(self).regs() == old(self).regs().update(
                REG_VL_SECONDS as int,
                seconds_with_vl_cleared(old(self).regs()[REG_VL_SECONDS as int]),
            ),
            r matches Err(e) ==> final(self).regs() == old(self).regs() && e matches RtcError::I2c(
                _,
            ),
    {
        let cur = match self.transport.read_register(REG_VL_SECONDS) {
            Ok(v) => v,
            Err(e) => return Err(e),
        };
        self.transport.write_register(REG_VL_SECONDS, seconds_with_vl_cleared(cur))
    }

    /// Get the century flag from the month register.
    pub fn get_century_flag(&mut self) -> (r: Result<bool, RtcError<T::BusError>>)
        requires
            old(self).wf(),
        ensures
            final(self).wf(),
            final(self).regs() == old(self).regs(),
            r matches Ok(b) ==> b == century_flag(old(self).regs()[REG_CENTURY_MONTHS as int]),
            r matches Err(e) ==> e matches RtcError::I2c(_),
    {
        match self.transport.read_register(REG_CENTURY_MONTHS) {
            Ok(v) => Ok(century_flag(v)),
            Err(e) => Err(e),
        }
    }

    /// Set the century flag, preserving the stored month.
    pub fn set_century_flag(&mut self, century: bool) -> (r: Result<(), RtcError<T::BusError>>)
        requires
            old(self).wf(),
        ensures
            final(self).wf(),
            r is Ok ==> final(self).regs() == old(self).regs().update(
                REG_CENTURY_MONTHS as int,
                months_with_century(old(self).regs()[REG_CENTURY_MONTHS as int], century),
            ),
            r matches Err(e) ==> final(self).regs() == old(self).regs() && e matches RtcError::I2c(
                _,
            ),
    {
        let cur = match self.transport.read_register(REG_CENTURY_MONTHS) {
            Ok(v) => v,
            Err(e) => return Err(e),
        };
        self.transport.write_register(REG_CENTURY_MONTHS, months_with_century(cur, century))
    }

    /// Start or stop the clock: the STOP bit is the inverse of `running`.
    pub fn set_clock_running(&mut self, running: bool) -> (r: Result<(), RtcError<T::BusError>>)
        requires
            old(self).wf(),
        ensures
            final(self).wf(),
            r is Ok ==> final(self).regs() == old(self).regs().update(
                REG_CONTROL_STATUS_1 as int,
                cs1_with_stop(old(self).regs()[REG_CONTROL_STATUS_1 as int], !running),
            ),
            r matches Err(e) ==> final(self).regs() == old(self).regs() && e matches RtcError::I2c(
                _,
            ),
    {
        let cur = match self.transport.read_register(REG_CONTROL_STATUS_1) {
            Ok(v) => v,
            Err(e) => return Err(e),
        };
        self.transport.write_register(REG_CONTROL_STATUS_1, cs1_with_stop(cur, !running))
    }

    /// Check whether the clock is running (STOP bit clear).
    pub fn is_clock_running(&mut self) -> (r: Result<bool, RtcError<T::BusError>>)
        requires
            old(self).wf(),
        ensures
            final(self).wf(),
            final(self).regs() == old(self).regs(),
            r matches Ok(b) ==> b == !stop_flag(old(self).regs()[REG_CONTROL_STATUS_1 as int]),
            r matches Err(e) ==> e matches RtcError::I2c(_),
    {
        match self.transport.read_register(REG_CONTROL_STATUS_1) {
            Ok(v) => Ok(!stop_flag(v)),
            Err(e) => Err(e),
        }
    }

    /// Get the current alarm configuration from the four alarm registers.
    pub fn get_alarm(&mut self) -> (r: Result<Alarm, RtcError<T::BusError>>)
        requires
            old(self).wf(),
        ensures
            final(self).wf(),
            final(self).regs() == old(self).regs(),
            r matches Ok(a) ==> a == alarm_of_regs(old(self).regs()),
            r matches Err(e) ==> e matches RtcError::I2c(_),
    {
        let min_reg = match self.transport.read_register(REG_MINUTE_ALARM) {
            Ok(v) => v,
            Err(e) => return Err(e),
        };
        let hr_reg = match self.transport.read_register(REG_HOUR_ALARM) {
            Ok(v) => v,
            Err(e) => return Err(e),
        };
        let day_reg = match self.transport.read_register(REG_DAY_ALARM) {
            Ok(v) => v,
            Err(e) => return Err(e),
        };
        let wd_reg = match self.transport.read_register(REG_WEEKDAY_ALARM) {
            Ok(v) => v,
            Err(e) => return Err(e),
        };
        Ok(alarm_from_registers(min_reg, hr_reg, day_reg, wd_reg))
    }

    /// Set the alarm configuration.
    ///
    /// Rejects any out-of-range enabled component before touching the bus,
    /// then writes the four alarm registers in address order. Not
    /// transactional: a transport fault leaves a prefix of the writes
    /// applied.
    pub fn set_alarm(&mut self, alarm: &Alarm) -> (r: Result<(), RtcError<T::BusError>>)
        requires
            old(self).wf(),
        ensures
            final(self).wf(),
            r is Ok ==> alarm_valid(*alarm) && final(self).regs() == alarm_image(
                old(self).regs(),
                *alarm,
                4,
            ) && final(self).txns() == old(self).txns() + 4,
            r matches Err(RtcError::InvalidInputData) <==> !alarm_valid(*alarm),
            !alarm_valid(*alarm) ==> final(self).regs() == old(self).regs() && final(self).txns()
                == old(self).txns(),
            r matches Err(RtcError::I2c(_)) ==> exists|k: int|
                0 <= k < 4 && final(self).regs() == #[trigger] alarm_image(
                    old(self).regs(),
                    *alarm,
                    k,
                ) && final(self).txns() == old(self).txns() + k + 1,
    {
        let minute_byte = match alarm.minute {
            Some(m) => {
                if m > 59 {
                    return Err(RtcError::InvalidInputData);
                }
                dec_to_bcd(m)
            },
            None => ALARM_DISABLED,
        };
        let hour_byte = match alarm.hour {
            Some(h) => {
                if h > 23 {
                    return Err(RtcError::InvalidInputData);
                }
                dec_to_bcd(h)
            },
            None => ALARM_DISABLED,
        };
        let day_byte = match alarm.day {
            Some(d) => {
                if d < 1 || d > 31 {
                    return Err(RtcError::InvalidInputData);
                }
                dec_to_bcd(d)
            },
            None => ALARM_DISABLED,
        };
        let weekday_byte = match alarm.weekday {
            Some(w) => {
                if w > 6 {
                    return Err(RtcError::InvalidInputData);
                }
                w
            },
            None => ALARM_DISABLED,
        };
        let ghost regs0 = self.regs();

        match self.transport.write_register(REG_MINUTE_ALARM, minute_byte) {
            Ok(_) => {},
            Err(e) => {
                proof {
                    assert(self.regs() =~= alarm_image(regs0, *alarm, 0));
                }
                return Err(e);
            },
        }
        proof {
            assert(self.regs() =~= alarm_image(regs0, *alarm, 1));
        }
        match self.transport.write_register(REG_HOUR_ALARM, hour_byte) {
            Ok(_) => {},
            Err(e) => return Err(e),
        }
        proof {
            assert(self.regs() =~= alarm_image(regs0, *alarm, 2));
        }
        match self.transport.write_register(REG_DAY_ALARM, day_byte) {
            Ok(_) => {},
            Err(e) => return Err(e),
        }
        proof {
            assert(self.regs() =~= alarm_image(regs0, *alarm, 3));
        }
        match self.transport.write_register(REG_WEEKDAY_ALARM, weekday_byte) {
            Ok(_) => {},
            Err(e) => return Err(e),
        }
        proof {
            assert(self.regs() =~= alarm_image(regs0, *alarm, 4));
        }
        Ok(())
    }

    /// Disable all four alarm components.
    pub fn disable_alarm(&mut self) -> (r: Result<(), RtcError<T::BusError>>)
        requires
            old(self).wf(),
        ensures
            final(self).wf(),
            r is Ok ==> final(self).regs() == alarm_image(
                old(self).regs(),
                (Alarm { minute: None, hour: None, day: None, weekday: None }),
                4,
            ),
            r matches Err(e) ==> e matches RtcError::I2c(_),
            r matches Err(RtcError::I2c(_)) ==> exists|k: int|
                0 <= k < 4 && final(self).regs() == alarm_image(
                    old(self).regs(),
                    (Alarm { minute: None, hour: None, day: None, weekday: None }),
                    k,
                ),
    {
        self.set_alarm(&Alarm { minute: None, hour: None, day: None, weekday: None })
    }

    /// Check whether the alarm flag is set (the alarm has triggered).
    pub fn get_alarm_flag(&mut self) -> (r: Result<bool, RtcError<T::BusError>>)
        requires
            old(self).wf(),
        ensures
            final(self).wf(),
            final(self).regs() == old(self).regs(),
            r matches Ok(b) ==> b == alarm_flag(old(self).regs()[REG_CONTROL_STATUS_2 as int]),
            r matches Err(e) ==> e matches RtcError::I2c(_),
    {
        match self.transport.read_register(REG_CONTROL_STATUS_2) {
            Ok(v) => Ok(alarm_flag(v)),
            Err(e) => Err(e),
        }
    }

    /// Clear the alarm flag, preserving the other control bits.
    pub fn clear_alarm_flag(&mut self) -> (r: Result<(), RtcError<T::BusError>>)
        requires
            old(self).wf(),
        ensures
            final(self).wf(),
            r is Ok ==> final(self).regs() == old(self).regs().update(
                REG_CONTROL_STATUS_2 as int,
                cs2_with_alarm_flag(old(self).regs()[REG_CONTROL_STATUS_2 as int], false),
            ),
            r matches Err(e) ==> final(self).regs() == old(self).regs() && e matches RtcError::I2c(
                _,
            ),
    {
        let cur = match self.transport.read_register(REG_CONTROL_STATUS_2) {
            Ok(v) => v,
            Err(e) => return Err(e),
        };
        self.transport.write_register(REG_CONTROL_STATUS_2, cs2_with_alarm_flag(cur, false))
    }

    /// Enable or disable the alarm interrupt.
    pub fn set_alarm_interrupt(&mut self, enable: bool) -> (r: Result<(), RtcError<T::BusError>>)
        requires
            old(self).wf(),
        ensures
            final(self).wf(),
            r is Ok ==> final(self).regs() == old(self).regs().update(
                REG_CONTROL_STATUS_2 as int,
                cs2_with_alarm_interrupt(old(self).regs()[REG_CONTROL_STATUS_2 as int], enable),
            ),
            r matches Err(e) ==> final(self).regs() == old(self).regs() && e matches RtcError::I2c(
                _,
            ),
    {
        let cur = match self.transport.read_register(REG_CONTROL_STATUS_2) {
            Ok(v) => v,
            Err(e) => return Err(e),
        };
        self.transport.write_register(REG_CONTROL_STATUS_2, cs2_with_alarm_interrupt(cur, enable))
    }

    /// Check whether the alarm interrupt is enabled.
    pub fn is_alarm_interrupt_enabled(&mut self) -> (r: Result<bool, RtcError<T::BusError>>)
        requires
            old(self).wf(),
        ensures
            final(self).wf(),
            final(self).regs() == old(self).regs(),
            r matches Ok(b) ==> b == alarm_interrupt_enabled(
                old(self).regs()[REG_CONTROL_STATUS_2 as int],
            ),
            r matches Err(e) ==> e matches RtcError::I2c(_),
    {
        match self.transport.read_register(REG_CONTROL_STATUS_2) {
            Ok(v) => Ok(alarm_interrupt_enabled(v)),
            Err(e) => Err(e),
        }
    }

    /// Set the timer countdown value (0-255, written as-is).
    pub fn set_timer_value(&mut self, value: u8) -> (r: Result<(), RtcError<T::BusError>>)
        requires
            old(self).wf(),
        ensures
            final(self).wf(),
            r is Ok ==> final(self).regs() == old(self).regs().update(REG_TIMER as int, value),
            r matches Err(e) ==> final(self).regs() == old(self).regs() && e matches RtcError::I2c(
                _,
            ),
    {
        self.transport.write_register(REG_TIMER, value)
    }

    /// Get the current timer countdown value.
    pub fn get_timer_value(&mut self) -> (r: Result<u8, RtcError<T::BusError>>)
        requires
            old(self).wf(),
        ensures
            final(self).wf(),
            final(self).regs() == old(self).regs(),
            r matches Ok(v) ==> v == old(self).regs()[REG_TIMER as int],
            r matches Err(e) ==> e matches RtcError::I2c(_),
    {
        self.transport.read_register(REG_TIMER)
    }

    /// Set the timer source clock frequency, preserving the other
    /// timer-control bits.
    pub fn set_timer_frequency(&mut self, freq: TimerFrequency) -> (r: Result<
        (),
        RtcError<T::BusError>,
    >)
        requires
            old(self).wf(),
        ensures
            final(self).wf(),
            r is Ok ==> final(self).regs() == old(self).regs().update(
                REG_TIMER_CONTROL as int,
                timer_control_with_frequency(old(self).regs()[REG_TIMER_CONTROL as int], freq),
            ),
            r matches Err(e) ==> final(self).regs() == old(self).regs() && e matches RtcError::I2c(
                _,
            ),
    {
        let cur = match self.transport.read_register(REG_TIMER_CONTROL) {
            Ok(v) => v,
            Err(e) => return Err(e),
        };
        self.transport.write_register(REG_TIMER_CONTROL, timer_control_with_frequency(cur, freq))
    }

    /// Get the timer source clock frequency.
    pub fn get_timer_frequency(&mut self) -> (r: Result<TimerFrequency, RtcError<T::BusError>>)
        requires
            old(self).wf(),
        ensures
            final(self).wf(),
            final(self).regs() == old(self).regs(),
            r matches Ok(f) ==> f == timer_frequency_of(
                old(self).regs()[REG_TIMER_CONTROL as int],
            ),
            r matches Err(e) ==> e matches RtcError::I2c(_),
    {
        match self.transport.read_register(REG_TIMER_CONTROL) {
            Ok(v) => Ok(timer_frequency_of(v)),
            Err(e) => Err(e),
        }
    }

    /// Enable or disable the countdown timer.
    pub fn set_timer_enabled(&mut self, enable: bool) -> (r: Result<(), RtcError<T::BusError>>)
        requires
            old(self).wf(),
        ensures
            final(self).wf(),
            r is Ok ==> final(self).regs() == old(self).regs().update(
                REG_TIMER_CONTROL as int,
                timer_control_with_enabled(old(self).regs()[REG_TIMER_CONTROL as int], enable),
            ),
            r matches Err(e) ==> final(self).regs() == old(self).regs() && e matches RtcError::I2c(
                _,
            ),
    {
        let cur = match self.transport.read_register(REG_TIMER_CONTROL) {
            Ok(v) => v,
            Err(e) => return Err(e),
        };
        self.transport.write_register(REG_TIMER_CONTROL, timer_control_with_enabled(cur, enable))
    }

    /// Check whether the countdown timer is enabled.
    pub fn is_timer_enabled(&mut self) -> (r: Result<bool, RtcError<T::BusError>>)
        requires
            old(self).wf(),
        ensures
            final(self).wf(),
            final(self).regs() == old(self).regs(),
            r matches Ok(b) ==> b == timer_enabled(old(self).regs()[REG_TIMER_CONTROL as int]),
            r matches Err(e) ==> e matches RtcError::I2c(_),
    {
        match self.transport.read_register(REG_TIMER_CONTROL) {
            Ok(v) => Ok(timer_enabled(v)),
            Err(e) => Err(e),
        }
    }

    /// Check whether the timer flag is set (the timer has triggered).
    pub fn get_timer_flag(&mut self) -> (r: Result<bool, RtcError<T::BusError>>)
        requires
            old(self).wf(),
        ensures
            final(self).wf(),
            final(self).regs() == old(self).regs(),
            r matches Ok(b) ==> b == timer_flag(old(self).regs()[REG_CONTROL_STATUS_2 as int]),
            r matches Err(e) ==> e matches RtcError::I2c(_),
    {
        match self.transport.read_register(REG_CONTROL_STATUS_2) {
            Ok(v) => Ok(timer_flag(v)),
            Err(e) => Err(e),
        }
    }

    /// Clear the timer flag, preserving the other control bits.
    pub fn clear_timer_flag(&mut self) -> (r: Result<(), RtcError<T::BusError>>)
        requires
            old(self).wf(),
        ensures
            final(self).wf(),
            r is Ok ==> final(self).regs() == old(self).regs().update(
                REG_CONTROL_STATUS_2 as int,
                cs2_with_timer_flag(old(self).regs()[REG_CONTROL_STATUS_2 as int], false),
            ),
            r matches Err(e) ==> final(self).regs() == old(self).regs() && e matches RtcError::I2c(
                _,
            ),
    {
        let cur = match self.transport.read_register(REG_CONTROL_STATUS_2) {
            Ok(v) => v,
            Err(e) => return Err(e),
        };
        self.transport.write_register(REG_CONTROL_STATUS_2, cs2_with_timer_flag(cur, false))
    }

    /// Enable or disable the timer interrupt.
    pub fn set_timer_interrupt(&mut self, enable: bool) -> (r: Result<(), RtcError<T::BusError>>)
        requires
            old(self).wf(),
        ensures
            final(self).wf(),
            r is Ok ==> final(self).regs() == old(self).regs().update(
                REG_CONTROL_STATUS_2 as int,
                cs2_with_timer_interrupt(old(self).regs()[REG_CONTROL_STATUS_2 as int], enable),
            ),
            r matches Err(e) ==> final(self).regs() == old(self).regs() && e matches RtcError::I2c(
                _,
            ),
    {
        let cur = match self.transport.read_register(REG_CONTROL_STATUS_2) {
            Ok(v) => v,
            Err(e) => return Err(e),
        };
        self.transport.write_register(REG_CONTROL_STATUS_2, cs2_with_timer_interrupt(cur, enable))
    }

    /// Check whether the timer interrupt is enabled.
    pub fn is_timer_interrupt_enabled(&mut self) -> (r: Result<bool, RtcError<T::BusError>>)
        requires
            old(self).wf(),
        ensures
            final(self).wf(),
            final(self).regs() == old(self).regs(),
            r matches Ok(b) ==> b == timer_interrupt_enabled(
                old(self).regs()[REG_CONTROL_STATUS_2 as int],
            ),
            r matches Err(e) ==> e matches RtcError::I2c(_),
    {
        match self.transport.read_register(REG_CONTROL_STATUS_2) {
            Ok(v) => Ok(timer_interrupt_enabled(v)),
            Err(e) => Err(e),
        }
    }

    /// Select pulsed (true) or level (false) timer interrupts.
    pub fn set_timer_interrupt_pulse_mode(&mut self, pulse: bool) -> (r: Result<
        (),
        RtcError<T::BusError>,
    >)
        requires
            old(self).wf(),
        ensures
            final(self).wf(),
            r is Ok ==> final(self).regs() == old(self).regs().update(
                REG_CONTROL_STATUS_2 as int,
                cs2_with_pulse_mode(old(self).regs()[REG_CONTROL_STATUS_2 as int], pulse),
            ),
            r matches Err(e) ==> final(self).regs() == old(self).regs() && e matches RtcError::I2c(
                _,
            ),
    {
        let cur = match self.transport.read_register(REG_CONTROL_STATUS_2) {
            Ok(v) => v,
            Err(e) => return Err(e),
        };
        self.transport.write_register(REG_CONTROL_STATUS_2, cs2_with_pulse_mode(cur, pulse))
    }

    /// Enable or disable the CLKOUT output.
    pub fn set_clkout_enabled(&mut self, enable: bool) -> (r: Result<(), RtcError<T::BusError>>)
        requires
            old(self).wf(),
        ensures
            final(self).wf(),
            r is Ok ==> final(self).regs() == old(self).regs().update(
                REG_CLKOUT_CONTROL as int,
                clkout_with_enabled(old(self).regs()[REG_CLKOUT_CONTROL as int], enable),
            ),
            r matches Err(e) ==> final(self).regs() == old(self).regs() && e matches RtcError::I2c(
                _,
            ),
    {
        let cur = match self.transport.read_register(REG_CLKOUT_CONTROL) {
            Ok(v) => v,
            Err(e) => return Err(e),
        };
        self.transport.write_register(REG_CLKOUT_CONTROL, clkout_with_enabled(cur, enable))
    }

    /// Check whether the CLKOUT output is enabled.
    pub fn is_clkout_enabled(&mut self) -> (r: Result<bool, RtcError<T::BusError>>)
        requires
            old(self).wf(),
        ensures
            final(self).wf(),
            final(self).regs() == old(self).regs(),
            r matches Ok(b) ==> b == clkout_enabled(old(self).regs()[REG_CLKOUT_CONTROL as int]),
            r matches Err(e) ==> e matches RtcError::I2c(_),
    {
        match self.transport.read_register(REG_CLKOUT_CONTROL) {
            Ok(v) => Ok(clkout_enabled(v)),
            Err(e) => Err(e),
        }
    }

    /// Set the CLKOUT frequency, preserving the other control bits.
    pub fn set_clkout_frequency(&mut self, freq: ClkoutFrequency) -> (r: Result<
        (),
        RtcError<T::BusError>,
    >)
        requires
            old(self).wf(),
        ensures
            final(self).wf(),
            r is Ok ==> final(self).regs() == old(self).regs().update(
                REG_CLKOUT_CONTROL as int,
                clkout_with_frequency(old(self).regs()[REG_CLKOUT_CONTROL as int], freq),
            ),
            r matches Err(e) ==> final(self).regs() == old(self).regs() && e matches RtcError::I2c(
                _,
            ),
    {
        let cur = match self.transport.read_register(REG_CLKOUT_CONTROL) {
            Ok(v) => v,
            Err(e) => return Err(e),
        };
        self.transport.write_register(REG_CLKOUT_CONTROL, clkout_with_frequency(cur, freq))
    }

    /// Get the CLKOUT frequency setting.
    pub fn get_clkout_frequency(&mut self) -> (r: Result<ClkoutFrequency, RtcError<T::BusError>>)
        requires
            old(self).wf(),
        ensures
            final(self).wf(),
            final(self).regs() == old(self).regs(),
            r matches Ok(f) ==> f == clkout_frequency_of(
                old(self).regs()[REG_CLKOUT_CONTROL as int],
            ),
            r matches Err(e) ==> e matches RtcError::I2c(_),
    {
        match self.transport.read_register(REG_CLKOUT_CONTROL) {
            Ok(v) => Ok(clkout_frequency_of(v)),
            Err(e) => Err(e),
        }
    }

    /// Initialize the device with default settings: clear the test, stop and
    /// interrupt bits of both control registers, clear the voltage-low flag,
    /// disable all four alarm components, and set the timer source to the
    /// slowest frequency for power saving.
    ///
    /// A transport fault at any step aborts the remaining steps: the file is
    /// left at a stage of the sequence — the earlier steps fully applied,
    /// the later ones not attempted.
    pub fn init(&mut self) -> (r: Result<(), RtcError<T::BusError>>)
        requires
            old(self).wf(),
        ensures
            final(self).wf(),
            r is Ok ==> final(self).regs() == init_image(old(self).regs()),
            r matches Err(e) ==> e matches RtcError::I2c(_),
            r is Err ==> exists|k: int, j: int|
                0 <= k <= 3 && 0 <= j <= 4 && final(self).regs() == #[trigger] init_stage(
                    old(self).regs(),
                    k,
                    j,
                ),
    {
        match self.transport.write_register(REG_CONTROL_STATUS_1, CONTROL_CLEAR) {
            Ok(_) => {},
            Err(e) => {
                proof {
                    assert(self.regs() =~= init_stage(old(self).regs(), 0, 0));
                }
                return Err(e);
            },
        }
        match self.transport.write_register(REG_CONTROL_STATUS_2, CONTROL_CLEAR) {
            Ok(_) => {},
            Err(e) => {
                proof {
                    assert(self.regs() =~= init_stage(old(self).regs(), 1, 0));
                }
                return Err(e);
            },
        }
        match self.clear_voltage_low_flag() {
            Ok(_) => {},
            Err(e) => {
                proof {
                    assert(self.regs() =~= init_stage(old(self).regs(), 2, 0));
                }
                return Err(e);
            },
        }
        proof {
            assert(self.regs() =~= init_stage(old(self).regs(), 3, 0));
        }
        let ghost pre_alarm = self.regs();
        match self.disable_alarm() {
            Ok(_) => {},
            Err(e) => {
                proof {
                    let j = choose|j: int|
                        0 <= j < 4 && self.regs() == alarm_image(
                            pre_alarm,
                            (Alarm { minute: None, hour: None, day: None, weekday: None }),
                            j,
                        );
                    assert(self.regs() =~= init_stage(old(self).regs(), 3, j));
                }
                return Err(e);
            },
        }
        match self.set_timer_frequency(TimerFrequency::Freq160Hz) {
            Ok(_) => {},
            Err(e) => {
                proof {
                    assert(self.regs() =~= init_stage(old(self).regs(), 3, 4));
                }
                return Err(e);
            },
        }
        proof {
            assert(self.regs() =~= init_image(old(self).regs()));
        }
        Ok(())
    }
}

/// Law: writing a valid date/time and reading the registers back yields the
/// same value in every field, and leaves the voltage-low flag cleared.
pub proof fn lemma_datetime_round_trip(regs: Seq<u8>, dt: DateTime)
    requires
        regs.len() == REGISTER_COUNT,
        datetime_valid(dt),
    ensures
        datetime_of_regs(datetime_image(regs, dt, 7)) == dt,
        !vl_flag(datetime_image(regs, dt, 7)[REG_VL_SECONDS as int]),
{
    let s = dt.seconds;
    let mi = dt.minutes;
    let h = dt.hours;
    let d = dt.day;
    let w = dt.weekday;
    let mo = dt.month;
    let y = dt.year;
    assert(bcd_decode(bcd_encode(s) & 0x7F) == s && bcd_encode(s) & 0x80 == 0) by (bit_vector)
        requires
            s <= 59,
    ;
    assert(bcd_decode(bcd_encode(mi) & 0x7F) == mi) by (bit_vector)
        requires
            mi <= 59,
    ;
    assert(bcd_decode(bcd_encode(h) & 0x3F) == h) by (bit_vector)
        requires
            h <= 23,
    ;
    assert(bcd_decode(bcd_encode(d) & 0x3F) == d) by (bit_vector)
        requires
            d <= 31,
    ;
    assert(w & 0x07 == w) by (bit_vector)
        requires
            w <= 6,
    ;
    assert(bcd_decode(bcd_encode(mo) & 0x1F) == mo) by (bit_vector)
        requires
            mo <= 12,
    ;
    lemma_bcd_round_trip(y);
}

/// Law: storing a valid alarm and reading the registers back yields the same
/// configuration: enabled components keep their values exactly, disabled
/// ones read as `None` whatever their value bits hold.
pub proof fn lemma_alarm_round_trip(regs: Seq<u8>, a: Alarm)
    requires
        regs.len() == REGISTER_COUNT,
        alarm_valid(a),
    ensures
        alarm_of_regs(alarm_image(regs, a, 4)) == a,
{
    assert(ALARM_DISABLED & 0x80 != 0) by (bit_vector);
    match a.minute {
        Some(m) => {
            assert(bcd_encode(m) & 0x80 == 0 && bcd_decode(bcd_encode(m) & 0x7F) == m)
                by (bit_vector)
                requires
                    m <= 59,
            ;
        },
        None => {},
    }
    match a.hour {
        Some(h) => {
            assert(bcd_encode(h) & 0x80 == 0 && bcd_decode(bcd_encode(h) & 0x3F) == h)
                by (bit_vector)
                requires
                    h <= 23,
            ;
        },
        None => {},
    }
    match a.day {
        Some(d) => {
            assert(bcd_encode(d) & 0x80 == 0 && bcd_decode(bcd_encode(d) & 0x3F) == d)
                by (bit_vector)
                requires
                    d <= 31,
            ;
        },
        None => {},
    }
    match a.weekday {
        Some(w) => {
            assert(w & 0x80 == 0 && w & 0x07 == w) by (bit_vector)
                requires
                    w <= 6,
            ;
        },
        None => {},
    }
}

/// Law: after a successful `init` the clock is running (STOP bit clear), the
/// voltage-low flag is clear, every alarm component reads as `None`, and the
/// timer source frequency reads as the slowest one.
pub proof fn lemma_init_defaults(regs: Seq<u8>)
    requires
        regs.len() == REGISTER_COUNT,
    ensures
        !stop_flag(init_image(regs)[REG_CONTROL_STATUS_1 as int]),
        !vl_flag(init_image(regs)[REG_VL_SECONDS as int]),
        alarm_of_regs(init_image(regs)) == (Alarm {
            minute: None,
            hour: None,
            day: None,
            weekday: None,
        }),
        timer_frequency_of(init_image(regs)[REG_TIMER_CONTROL as int])
            == TimerFrequency::Freq160Hz,
{
    let b = regs[REG_VL_SECONDS as int];
    let t = regs[REG_TIMER_CONTROL as int];
    assert(CONTROL_CLEAR & 0x20 == 0) by (bit_vector);
    assert((b & !0x80) & 0x80 == 0) by (bit_vector);
    assert(ALARM_DISABLED & 0x80 != 0) by (bit_vector);
    assert(((t & 0xFC) | 3u8) & 0x03 == 3) by (bit_vector);
}

} // verus!
