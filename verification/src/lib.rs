//! Driver for the PCF8563/BM8563 real-time clock ICs.
//!
//! The device is a register-mapped peripheral behind a two-wire serial bus.
//! Every operation of the driver decomposes into reads and writes of single
//! register bytes, routed through a pluggable [`transport::Transport`]; the
//! register layout, the BCD packing and the multi-register sequences are
//! specified bit-exactly and verified against a model of the register file.

use vstd::prelude::*;

pub mod calendar;
pub mod driver;
pub mod regmap;
pub mod sim;
pub mod transport;

pub use driver::Pcf8563;
pub use regmap::ClkoutFrequency;
pub use regmap::TimerFrequency;

verus! {

/// PCF8563/BM8563 I2C address (7-bit).
pub const PCF8563_I2C_ADDR: u8 = 0x51;

/// Errors surfaced by the driver: a fault from the underlying bus, passed
/// through unmodified, or a caller-supplied value outside the documented
/// range for its register field, detected before any bus traffic.
#[derive(Debug)]
pub enum RtcError<E> {
    /// The bus transport failed; the payload is the transport's own error.
    I2c(E),
    /// A caller-supplied value was out of range for its field.
    InvalidInputData,
}

/// Date and time, as the seven date/time registers hold them.
///
/// All fields are plain unsigned bytes. No calendar validity is enforced
/// beyond the per-field ranges (day 31 in February is accepted).
#[derive(Debug, Clone, Copy, PartialEq, Eq)]
pub struct DateTime {
    /// Year (0-99, represents 1900-1999 or 2000-2099 based on century flag)
    pub year: u8,
    /// Month (1-12)
    pub month: u8,
    /// Day of month (1-31)
    pub day: u8,
    /// Weekday (0-6, typically 0=Sunday)
    pub weekday: u8,
    /// Hours (0-23)
    pub hours: u8,
    /// Minutes (0-59)
    pub minutes: u8,
    /// Seconds (0-59)
    pub seconds: u8,
}

/// Time-only structure (for clock applications without calendar).
#[derive(Debug, Clone, Copy, PartialEq, Eq)]
pub struct Time {
    /// Hours (0-23)
    pub hours: u8,
    /// Minutes (0-59)
    pub minutes: u8,
    /// Seconds (0-59)
    pub seconds: u8,
}

/// Alarm configuration: four independently optional components, combined by
/// the hardware with AND logic. `None` means the component does not gate the
/// alarm; `Some(v)` means the alarm fires only when the component equals `v`.
#[derive(Debug, Clone, Copy, PartialEq, Eq)]
pub struct Alarm {
    /// Minute alarm (0-59), None if disabled
    pub minute: Option<u8>,
    /// Hour alarm (0-23), None if disabled
    pub hour: Option<u8>,
    /// Day alarm (1-31), None if disabled
    pub day: Option<u8>,
    /// Weekday alarm (0-6), None if disabled
    pub weekday: Option<u8>,
}

impl Default for DateTime {
    /// All fields zero.
    fn default() -> (r: Self)
        ensures
            r == (DateTime { year: 0, month: 0, day: 0, weekday: 0, hours: 0, minutes: 0, seconds: 0 }),
    {
        DateTime { year: 0, month: 0, day: 0, weekday: 0, hours: 0, minutes: 0, seconds: 0 }
    }
}

impl Default for Time {
    /// All fields zero.
    fn default() -> (r: Self)
        ensures
            r == (Time { hours: 0, minutes: 0, seconds: 0 }),
    {
        Time { hours: 0, minutes: 0, seconds: 0 }
    }
}

impl Default for Alarm {
    /// Every component disabled.
    fn default() -> (r: Self)
        ensures
            r == (Alarm { minute: None, hour: None, day: None, weekday: None }),
    {
        Alarm { minute: None, hour: None, day: None, weekday: None }
    }
}

/// The BCD byte packing `v`'s tens digit in the high nibble and units digit
/// in the low nibble. For `v` above 99 the tens digit wraps silently.
pub open spec fn bcd_encode(v: u8) -> u8 {
    ((v / 10) as u8) << 4 | (v % 10) as u8
}

/// The decimal value read from a BCD byte: high nibble times ten plus low
/// nibble. Nibbles above 9 are not rejected; they yield out-of-range values.
pub open spec fn bcd_decode(b: u8) -> u8 {
    ((b >> 4) * 10 + (b & 0x0F)) as u8
}

/// Convert decimal to BCD.
///
/// Meaningful for inputs 0-99; above 99 the tens digit wraps. Range checking
/// is the responsibility of callers in the driver layer.
#[inline]
pub fn dec_to_bcd(dec: u8) -> (r: u8)
    ensures
        r == bcd_encode(dec),
{
    ((dec / 10) << 4) | (dec % 10)
}

/// Convert BCD to decimal.
///
/// No validation of nibble ranges: a malformed register byte can yield an
/// out-of-range decimal value. Data read from hardware is trusted.
#[inline]
pub fn bcd_to_dec(bcd: u8) -> (r: u8)
    ensures
        r == bcd_decode(bcd),
{
    proof {
        assert((bcd >> 4) * 10 + (bcd & 0x0F) < 256) by (bit_vector);
    }
    (bcd & 0x0F) + ((bcd >> 4) * 10)
}

/// Law: encoding a value in 0-99 as BCD and decoding it again returns the
/// value unchanged.
pub proof fn lemma_bcd_round_trip(v: u8)
    requires
        v <= 99,
    ensures
        bcd_decode(bcd_encode(v)) == v,
{
    assert(bcd_decode(bcd_encode(v)) == v) by (bit_vector)
        requires
            v <= 99,
    ;
}

} // verus!
