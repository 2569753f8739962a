//! Register map of the PCF8563: addresses, bit-field layout and the pure
//! encode/decode/modify functions for every register the driver touches.
//!
//! Each hardware register is one addressable byte. The functions here are the
//! single place where bit positions and masks appear; the driver and any
//! execution shim built around it go through them, never through raw masks.

use vstd::prelude::*;

verus! {

/// Control/status register 1: TEST1 (bit 7), STOP (bit 5), TESTC (bit 3).
pub const REG_CONTROL_STATUS_1: u8 = 0x00;
/// Control/status register 2: TI/TP (bit 4), AF (bit 3), TF (bit 2),
/// AIE (bit 1), TIE (bit 0).
pub const REG_CONTROL_STATUS_2: u8 = 0x01;
/// Seconds register: VL flag (bit 7), BCD seconds (bits 6-0).
pub const REG_VL_SECONDS: u8 = 0x02;
/// Minutes register: BCD minutes (bits 6-0).
pub const REG_MINUTES: u8 = 0x03;
/// Hours register: BCD hours (bits 5-0).
pub const REG_HOURS: u8 = 0x04;
/// Day-of-month register: BCD day (bits 5-0).
pub const REG_DAYS: u8 = 0x05;
/// Weekday register: raw weekday (bits 2-0).
pub const REG_WEEKDAYS: u8 = 0x06;
/// Month register: century flag (bit 7), BCD month (bits 4-0).
pub const REG_CENTURY_MONTHS: u8 = 0x07;
/// Year register: BCD year (bits 7-0).
pub const REG_YEARS: u8 = 0x08;
/// Minute alarm register: AE_M disable bit (bit 7), BCD minute (bits 6-0).
pub const REG_MINUTE_ALARM: u8 = 0x09;
/// Hour alarm register: AE_H disable bit (bit 7), BCD hour (bits 5-0).
pub const REG_HOUR_ALARM: u8 = 0x0A;
/// Day alarm register: AE_D disable bit (bit 7), BCD day (bits 5-0).
pub const REG_DAY_ALARM: u8 = 0x0B;
/// Weekday alarm register: AE_W disable bit (bit 7), raw weekday (bits 2-0).
pub const REG_WEEKDAY_ALARM: u8 = 0x0C;
/// Clock output control register: FE (bit 7), FD frequency (bits 1-0).
pub const REG_CLKOUT_CONTROL: u8 = 0x0D;
/// Timer control register: TE (bit 7), TD frequency (bits 1-0).
pub const REG_TIMER_CONTROL: u8 = 0x0E;
/// Timer countdown register: plain 8-bit value.
pub const REG_TIMER: u8 = 0x0F;

/// Number of registers in the device's register file.
pub const REGISTER_COUNT: usize = 16;

/// The byte both control registers are initialised to: every flag cleared.
pub const CONTROL_CLEAR: u8 = 0x00;

/// The byte written to an alarm register to disable its component: the
/// disable bit set, the value bits left at zero.
pub const ALARM_DISABLED: u8 = 0x80;

/// Timer source clock frequency (2-bit TD field of the timer control
/// register).
#[derive(Debug, Clone, Copy, PartialEq, Eq)]
pub enum TimerFrequency {
    /// 4096 Hz
    Freq4096Hz,
    /// 64 Hz
    Freq64Hz,
    /// 1 Hz
    Freq1Hz,
    /// 1/60 Hz, the slowest source (lowest power draw)
    Freq160Hz,
}

/// Clock output frequency (2-bit FD field of the clock output control
/// register).
#[derive(Debug, Clone, Copy, PartialEq, Eq)]
pub enum ClkoutFrequency {
    /// 32768 Hz
    Freq32768Hz,
    /// 1024 Hz
    Freq1024Hz,
    /// 32 Hz
    Freq32Hz,
    /// 1 Hz
    Freq1Hz,
}

/// Whether the bits selected by `mask` are set in `b`.
pub open spec fn bit_is_set(b: u8, mask: u8) -> bool {
    b & mask != 0
}

/// `b` with the bits selected by `mask` forced to `on`, all other bits kept.
pub open spec fn with_bit(b: u8, mask: u8, on: bool) -> u8 {
    if on {
        b | mask
    } else {
        b & !mask
    }
}

/// VL (voltage low) flag: top bit of the seconds register.
pub open spec fn spec_vl_flag(b: u8) -> bool {
    bit_is_set(b, 0x80)
}

/// Whether the seconds-register byte `b` has the voltage-low flag set.
#[verifier::when_used_as_spec(spec_vl_flag)]
pub fn vl_flag(b: u8) -> (r: bool)
    ensures
        r == spec_vl_flag(b),
{
    b & 0x80 != 0
}

/// The seconds-register byte with the voltage-low flag cleared and the BCD
/// seconds kept.
pub open spec fn spec_seconds_with_vl_cleared(b: u8) -> u8 {
    with_bit(b, 0x80, false)
}

/// Clear the voltage-low flag of a seconds-register byte, keeping the BCD
/// seconds value.
#[verifier::when_used_as_spec(spec_seconds_with_vl_cleared)]
pub fn seconds_with_vl_cleared(b: u8) -> (r: u8)
    ensures
        r == spec_seconds_with_vl_cleared(b),
{
    b & !0x80
}

/// Century flag: top bit of the month register.
pub open spec fn spec_century_flag(b: u8) -> bool {
    bit_is_set(b, 0x80)
}

/// Whether the month-register byte `b` has the century flag set.
#[verifier::when_used_as_spec(spec_century_flag)]
pub fn century_flag(b: u8) -> (r: bool)
    ensures
        r == spec_century_flag(b),
{
    b & 0x80 != 0
}

/// The month-register byte with the century flag forced to `century`.
pub open spec fn spec_months_with_century(b: u8, century: bool) -> u8 {
    with_bit(b, 0x80, century)
}

/// Set or clear the century flag of a month-register byte, keeping the BCD
/// month.
#[verifier::when_used_as_spec(spec_months_with_century)]
pub fn months_with_century(b: u8, century: bool) -> (r: u8)
    ensures
        r == spec_months_with_century(b, century),
{
    if century {
        b | 0x80
    } else {
        b & !0x80
    }
}

/// STOP bit (bit 5) of control/status register 1. Set means the clock is
/// halted.
pub open spec fn spec_stop_flag(b: u8) -> bool {
    bit_is_set(b, 0x20)
}

/// Whether the control/status-1 byte `b` has the STOP bit set.
#[verifier::when_used_as_spec(spec_stop_flag)]
pub fn stop_flag(b: u8) -> (r: bool)
    ensures
        r == spec_stop_flag(b),
{
    b & 0x20 != 0
}

/// The control/status-1 byte with the STOP bit forced to `stop`.
pub open spec fn spec_cs1_with_stop(b: u8, stop: bool) -> u8 {
    with_bit(b, 0x20, stop)
}

/// Set or clear the STOP bit of a control/status-1 byte.
#[verifier::when_used_as_spec(spec_cs1_with_stop)]
pub fn cs1_with_stop(b: u8, stop: bool) -> (r: u8)
    ensures
        r == spec_cs1_with_stop(b, stop),
{
    if stop {
        b | 0x20
    } else {
        b & !0x20
    }
}

/// AF, the alarm flag: bit 3 of control/status register 2.
pub open spec fn spec_alarm_flag(b: u8) -> bool {
    bit_is_set(b, 0x08)
}

/// Whether the control/status-2 byte `b` has the alarm flag set.
#[verifier::when_used_as_spec(spec_alarm_flag)]
pub fn alarm_flag(b: u8) -> (r: bool)
    ensures
        r == spec_alarm_flag(b),
{
    b & 0x08 != 0
}

/// The control/status-2 byte with the alarm flag forced to `on`.
pub open spec fn spec_cs2_with_alarm_flag(b: u8, on: bool) -> u8 {
    with_bit(b, 0x08, on)
}

/// Set or clear the alarm flag of a control/status-2 byte.
#[verifier::when_used_as_spec(spec_cs2_with_alarm_flag)]
pub fn cs2_with_alarm_flag(b: u8, on: bool) -> (r: u8)
    ensures
        r == spec_cs2_with_alarm_flag(b, on),
{
    if on {
        b | 0x08
    } else {
        b & !0x08
    }
}

/// TF, the timer flag: bit 2 of control/status register 2.
pub open spec fn spec_timer_flag(b: u8) -> bool {
    bit_is_set(b, 0x04)
}

/// Whether the control/status-2 byte `b` has the timer flag set.
#[verifier::when_used_as_spec(spec_timer_flag)]
pub fn timer_flag(b: u8) -> (r: bool)
    ensures
        r == spec_timer_flag(b),
{
    b & 0x04 != 0
}

/// The control/status-2 byte with the timer flag forced to `on`.
pub open spec fn spec_cs2_with_timer_flag(b: u8, on: bool) -> u8 {
    with_bit(b, 0x04, on)
}

/// Set or clear the timer flag of a control/status-2 byte.
#[verifier::when_used_as_spec(spec_cs2_with_timer_flag)]
pub fn cs2_with_timer_flag(b: u8, on: bool) -> (r: u8)
    ensures
        r == spec_cs2_with_timer_flag(b, on),
{
    if on {
        b | 0x04
    } else {
        b & !0x04
    }
}

/// AIE, the alarm interrupt enable: bit 1 of control/status register 2.
pub open spec fn spec_alarm_interrupt_enabled(b: u8) -> bool {
    bit_is_set(b, 0x02)
}

/// Whether the control/status-2 byte `b` has the alarm interrupt enabled.
#[verifier::when_used_as_spec(spec_alarm_interrupt_enabled)]
pub fn alarm_interrupt_enabled(b: u8) -> (r: bool)
    ensures
        r == spec_alarm_interrupt_enabled(b),
{
    b & 0x02 != 0
}

/// The control/status-2 byte with the alarm interrupt enable forced to `on`.
pub open spec fn spec_cs2_with_alarm_interrupt(b: u8, on: bool) -> u8 {
    with_bit(b, 0x02, on)
}

/// Set or clear the alarm interrupt enable of a control/status-2 byte.
#[verifier::when_used_as_spec(spec_cs2_with_alarm_interrupt)]
pub fn cs2_with_alarm_interrupt(b: u8, on: bool) -> (r: u8)
    ensures
        r == spec_cs2_with_alarm_interrupt(b, on),
{
    if on {
        b | 0x02
    } else {
        b & !0x02
    }
}

/// TIE, the timer interrupt enable: bit 0 of control/status register 2.
pub open spec fn spec_timer_interrupt_enabled(b: u8) -> bool {
    bit_is_set(b, 0x01)
}

/// Whether the control/status-2 byte `b` has the timer interrupt enabled.
#[verifier::when_used_as_spec(spec_timer_interrupt_enabled)]
pub fn timer_interrupt_enabled(b: u8) -> (r: bool)
    ensures
        r == spec_timer_interrupt_enabled(b),
{
    b & 0x01 != 0
}

/// The control/status-2 byte with the timer interrupt enable forced to `on`.
pub open spec fn spec_cs2_with_timer_interrupt(b: u8, on: bool) -> u8 {
    with_bit(b, 0x01, on)
}

/// Set or clear the timer interrupt enable of a control/status-2 byte.
#[verifier::when_used_as_spec(spec_cs2_with_timer_interrupt)]
pub fn cs2_with_timer_interrupt(b: u8, on: bool) -> (r: u8)
    ensures
        r == spec_cs2_with_timer_interrupt(b, on),
{
    if on {
        b | 0x01
    } else {
        b & !0x01
    }
}

/// TI/TP, the timer interrupt pulse mode: bit 4 of control/status register 2.
pub open spec fn spec_timer_interrupt_pulse_mode(b: u8) -> bool {
    bit_is_set(b, 0x10)
}

/// Whether the control/status-2 byte `b` selects pulsed timer interrupts.
#[verifier::when_used_as_spec(spec_timer_interrupt_pulse_mode)]
pub fn timer_interrupt_pulse_mode(b: u8) -> (r: bool)
    ensures
        r == spec_timer_interrupt_pulse_mode(b),
{
    b & 0x10 != 0
}

/// The control/status-2 byte with the pulse-mode bit forced to `on`.
pub open spec fn spec_cs2_with_pulse_mode(b: u8, on: bool) -> u8 {
    with_bit(b, 0x10, on)
}

/// Set or clear the timer-interrupt pulse mode of a control/status-2 byte.
#[verifier::when_used_as_spec(spec_cs2_with_pulse_mode)]
pub fn cs2_with_pulse_mode(b: u8, on: bool) -> (r: u8)
    ensures
        r == spec_cs2_with_pulse_mode(b, on),
{
    if on {
        b | 0x10
    } else {
        b & !0x10
    }
}

/// TE, the timer enable: bit 7 of the timer control register.
pub open spec fn spec_timer_enabled(b: u8) -> bool {
    bit_is_set(b, 0x80)
}

/// Whether the timer-control byte `b` has the timer enabled.
#[verifier::when_used_as_spec(spec_timer_enabled)]
pub fn timer_enabled(b: u8) -> (r: bool)
    ensures
        r == spec_timer_enabled(b),
{
    b & 0x80 != 0
}

/// The timer-control byte with the timer enable forced to `on`.
pub open spec fn spec_timer_control_with_enabled(b: u8, on: bool) -> u8 {
    with_bit(b, 0x80, on)
}

/// Set or clear the timer enable of a timer-control byte.
#[verifier::when_used_as_spec(spec_timer_control_with_enabled)]
pub fn timer_control_with_enabled(b: u8, on: bool) -> (r: u8)
    ensures
        r == spec_timer_control_with_enabled(b, on),
{
    if on {
        b | 0x80
    } else {
        b & !0x80
    }
}

/// The 2-bit hardware code of a timer source frequency.
pub open spec fn spec_timer_frequency_bits(f: TimerFrequency) -> u8 {
    match f {
        TimerFrequency::Freq4096Hz => 0,
        TimerFrequency::Freq64Hz => 1,
        TimerFrequency::Freq1Hz => 2,
        TimerFrequency::Freq160Hz => 3,
    }
}

/// The hardware code of a timer source frequency.
#[verifier::when_used_as_spec(spec_timer_frequency_bits)]
pub fn timer_frequency_bits(f: TimerFrequency) -> (r: u8)
    ensures
        r == spec_timer_frequency_bits(f),
{
    match f {
        TimerFrequency::Freq4096Hz => 0,
        TimerFrequency::Freq64Hz => 1,
        TimerFrequency::Freq1Hz => 2,
        TimerFrequency::Freq160Hz => 3,
    }
}

/// The timer source frequency selected by the TD field (bits 1-0) of a
/// timer-control byte.
pub open spec fn spec_timer_frequency_of(b: u8) -> TimerFrequency {
    if b & 0x03 == 0 {
        TimerFrequency::Freq4096Hz
    } else if b & 0x03 == 1 {
        TimerFrequency::Freq64Hz
    } else if b & 0x03 == 2 {
        TimerFrequency::Freq1Hz
    } else {
        TimerFrequency::Freq160Hz
    }
}

/// Decode the TD field of a timer-control byte.
#[verifier::when_used_as_spec(spec_timer_frequency_of)]
pub fn timer_frequency_of(b: u8) -> (r: TimerFrequency)
    ensures
        r == spec_timer_frequency_of(b),
{
    let bits = b & 0x03;
    if bits == 0 {
        TimerFrequency::Freq4096Hz
    } else if bits == 1 {
        TimerFrequency::Freq64Hz
    } else if bits == 2 {
        TimerFrequency::Freq1Hz
    } else {
        TimerFrequency::Freq160Hz
    }
}

/// The timer-control byte with the TD field replaced by `f`'s code, all other
/// bits kept.
pub open spec fn spec_timer_control_with_frequency(b: u8, f: TimerFrequency) -> u8 {
    (b & 0xFC) | spec_timer_frequency_bits(f)
}

/// Replace the TD field of a timer-control byte.
#[verifier::when_used_as_spec(spec_timer_control_with_frequency)]
pub fn timer_control_with_frequency(b: u8, f: TimerFrequency) -> (r: u8)
    ensures
        r == spec_timer_control_with_frequency(b, f),
{
    (b & 0xFC) | timer_frequency_bits(f)
}

/// FE, the clock output enable: bit 7 of the clock output control register.
pub open spec fn spec_clkout_enabled(b: u8) -> bool {
    bit_is_set(b, 0x80)
}

/// Whether the clock-output-control byte `b` has the output enabled.
#[verifier::when_used_as_spec(spec_clkout_enabled)]
pub fn clkout_enabled(b: u8) -> (r: bool)
    ensures
        r == spec_clkout_enabled(b),
{
    b & 0x80 != 0
}

/// The clock-output-control byte with the output enable forced to `on`.
pub open spec fn spec_clkout_with_enabled(b: u8, on: bool) -> u8 {
    with_bit(b, 0x80, on)
}

/// Set or clear the output enable of a clock-output-control byte.
#[verifier::when_used_as_spec(spec_clkout_with_enabled)]
pub fn clkout_with_enabled(b: u8, on: bool) -> (r: u8)
    ensures
        r == spec_clkout_with_enabled(b, on),
{
    if on {
        b | 0x80
    } else {
        b & !0x80
    }
}

/// The 2-bit hardware code of a clock output frequency.
pub open spec fn spec_clkout_frequency_bits(f: ClkoutFrequency) -> u8 {
    match f {
        ClkoutFrequency::Freq32768Hz => 0,
        ClkoutFrequency::Freq1024Hz => 1,
        ClkoutFrequency::Freq32Hz => 2,
        ClkoutFrequency::Freq1Hz => 3,
    }
}

/// The hardware code of a clock output frequency.
#[verifier::when_used_as_spec(spec_clkout_frequency_bits)]
pub fn clkout_frequency_bits(f: ClkoutFrequency) -> (r: u8)
    ensures
        r == spec_clkout_frequency_bits(f),
{
    match f {
        ClkoutFrequency::Freq32768Hz => 0,
        ClkoutFrequency::Freq1024Hz => 1,
        ClkoutFrequency::Freq32Hz => 2,
        ClkoutFrequency::Freq1Hz => 3,
    }
}

/// The clock output frequency selected by the FD field (bits 1-0) of a
/// clock-output-control byte.
pub open spec fn spec_clkout_frequency_of(b: u8) -> ClkoutFrequency {
    if b & 0x03 == 0 {
        ClkoutFrequency::Freq32768Hz
    } else if b & 0x03 == 1 {
        ClkoutFrequency::Freq1024Hz
    } else if b & 0x03 == 2 {
        ClkoutFrequency::Freq32Hz
    } else {
        ClkoutFrequency::Freq1Hz
    }
}

/// Decode the FD field of a clock-output-control byte.
#[verifier::when_used_as_spec(spec_clkout_frequency_of)]
pub fn clkout_frequency_of(b: u8) -> (r: ClkoutFrequency)
    ensures
        r == spec_clkout_frequency_of(b),
{
    let bits = b & 0x03;
    if bits == 0 {
        ClkoutFrequency::Freq32768Hz
    } else if bits == 1 {
        ClkoutFrequency::Freq1024Hz
    } else if bits == 2 {
        ClkoutFrequency::Freq32Hz
    } else {
        ClkoutFrequency::Freq1Hz
    }
}

/// Law: replacing the TD field of any timer-control byte and decoding it
/// again yields the frequency that was written.
pub proof fn lemma_timer_frequency_round_trip(b: u8, f: TimerFrequency)
    ensures
        spec_timer_frequency_of(spec_timer_control_with_frequency(b, f)) == f,
{
    let k = spec_timer_frequency_bits(f);
    assert(k < 4);
    assert(((b & 0xFC) | k) & 0x03 == k) by (bit_vector)
        requires
            k < 4,
    ;
}

/// Law: replacing the FD field of any clock-output-control byte and decoding
/// it again yields the frequency that was written.
pub proof fn lemma_clkout_frequency_round_trip(b: u8, f: ClkoutFrequency)
    ensures
        spec_clkout_frequency_of(spec_clkout_with_frequency(b, f)) == f,
{
    let k = spec_clkout_frequency_bits(f);
    assert(k < 4);
    assert(((b & 0xFC) | k) & 0x03 == k) by (bit_vector)
        requires
            k < 4,
    ;
}

/// The clock-output-control byte with the FD field replaced by `f`'s code,
/// all other bits kept.
pub open spec fn spec_clkout_with_frequency(b: u8, f: ClkoutFrequency) -> u8 {
    (b & 0xFC) | spec_clkout_frequency_bits(f)
}

/// Replace the FD field of a clock-output-control byte.
#[verifier::when_used_as_spec(spec_clkout_with_frequency)]
pub fn clkout_with_frequency(b: u8, f: ClkoutFrequency) -> (r: u8)
    ensures
        r == spec_clkout_with_frequency(b, f),
{
    (b & 0xFC) | clkout_frequency_bits(f)
}

} // verus!
