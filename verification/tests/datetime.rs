//! Tests of the date/time operations against the simulated transport.

use pcf8563_dd::DateTime;
use pcf8563_dd::Pcf8563;
use pcf8563_dd::RtcError;
use pcf8563_dd::Time;
use pcf8563_dd::sim::SimFault;
use pcf8563_dd::sim::SimTransport;

fn new_rtc() -> Pcf8563<SimTransport> {
    Pcf8563::new(SimTransport::new())
}

#[test]
fn set_then_get_round_trips() {
    let mut rtc = new_rtc();
    let dt = DateTime { year: 24, month: 12, day: 1, weekday: 0, hours: 12, minutes: 0, seconds: 0 };
    rtc.set_datetime(&dt).unwrap();
    assert_eq!(rtc.get_datetime().unwrap(), dt);
    assert!(rtc.is_clock_valid().unwrap());
}

#[test]
fn set_then_get_round_trips_at_range_edges() {
    let mut rtc = new_rtc();
    let dt = DateTime { year: 99, month: 1, day: 31, weekday: 6, hours: 23, minutes: 59, seconds: 59 };
    rtc.set_datetime(&dt).unwrap();
    assert_eq!(rtc.get_datetime().unwrap(), dt);

    let dt = DateTime { year: 0, month: 12, day: 1, weekday: 0, hours: 0, minutes: 0, seconds: 0 };
    rtc.set_datetime(&dt).unwrap();
    assert_eq!(rtc.get_datetime().unwrap(), dt);
}

#[test]
fn set_datetime_writes_exact_register_bytes() {
    let mut rtc = new_rtc();
    let dt =
        DateTime { year: 45, month: 11, day: 28, weekday: 5, hours: 19, minutes: 38, seconds: 7 };
    rtc.set_datetime(&dt).unwrap();
    assert_eq!(rtc.transport.peek(0x02), 0x07);
    assert_eq!(rtc.transport.peek(0x03), 0x38);
    assert_eq!(rtc.transport.peek(0x04), 0x19);
    assert_eq!(rtc.transport.peek(0x05), 0x28);
    assert_eq!(rtc.transport.peek(0x06), 0x05);
    assert_eq!(rtc.transport.peek(0x07), 0x11);
    assert_eq!(rtc.transport.peek(0x08), 0x45);
}

#[test]
fn set_datetime_rejects_out_of_range_fields_without_bus_traffic() {
    let valid =
        DateTime { year: 24, month: 6, day: 15, weekday: 3, hours: 10, minutes: 30, seconds: 45 };
    let invalid = [
        DateTime { year: 100, ..valid },
        DateTime { month: 0, ..valid },
        DateTime { month: 13, ..valid },
        DateTime { weekday: 7, ..valid },
        DateTime { day: 0, ..valid },
        DateTime { day: 32, ..valid },
        DateTime { hours: 24, ..valid },
        DateTime { minutes: 60, ..valid },
        DateTime { seconds: 60, ..valid },
    ];
    for dt in invalid {
        let mut rtc = new_rtc();
        assert!(matches!(rtc.set_datetime(&dt), Err(RtcError::InvalidInputData)));
        assert_eq!(rtc.transport.reads_attempted, 0);
        assert_eq!(rtc.transport.writes_attempted, 0);
        for address in 0u8..16 {
            assert_eq!(rtc.transport.peek(address), 0);
        }
    }
}

#[test]
fn set_datetime_fault_midway_leaves_prefix_applied() {
    let mut rtc = new_rtc();
    let before =
        DateTime { year: 23, month: 11, day: 2, weekday: 1, hours: 10, minutes: 30, seconds: 45 };
    rtc.set_datetime(&before).unwrap();

    // The fourth of the seven writes fails.
    rtc.transport.fail_writes_after(3);
    let after = DateTime { year: 24, month: 12, day: 1, weekday: 0, hours: 12, minutes: 0, seconds: 0 };
    let r = rtc.set_datetime(&after);
    assert!(matches!(r, Err(RtcError::I2c(SimFault))));

    // Seconds, minutes, hours carry the new values; day, weekday, month,
    // year still carry the prior ones.
    assert_eq!(rtc.transport.peek(0x02), 0x00);
    assert_eq!(rtc.transport.peek(0x03), 0x00);
    assert_eq!(rtc.transport.peek(0x04), 0x12);
    assert_eq!(rtc.transport.peek(0x05), 0x02);
    assert_eq!(rtc.transport.peek(0x06), 0x01);
    assert_eq!(rtc.transport.peek(0x07), 0x11);
    assert_eq!(rtc.transport.peek(0x08), 0x23);
}

#[test]
fn set_datetime_clears_voltage_low_flag() {
    let mut rtc = new_rtc();
    rtc.transport.poke(0x02, 0x80);
    assert!(!rtc.is_clock_valid().unwrap());
    let dt = DateTime { year: 24, month: 6, day: 15, weekday: 3, hours: 1, minutes: 2, seconds: 3 };
    rtc.set_datetime(&dt).unwrap();
    assert!(rtc.is_clock_valid().unwrap());
}

#[test]
fn get_datetime_fault_aborts_whole_read() {
    let mut rtc = new_rtc();
    rtc.transport.fail_reads_after(0);
    assert!(matches!(rtc.get_datetime(), Err(RtcError::I2c(SimFault))));

    let mut rtc = new_rtc();
    rtc.transport.fail_reads_after(3);
    assert!(matches!(rtc.get_datetime(), Err(RtcError::I2c(SimFault))));
}

#[test]
fn get_datetime_trusts_hardware_bytes() {
    let mut rtc = new_rtc();
    rtc.transport.poke(0x02, 0xFF);
    rtc.transport.poke(0x06, 0xFF);
    let dt = rtc.get_datetime().unwrap();
    // Masked to the register's value bits, then BCD-decoded without
    // validation.
    assert_eq!(dt.seconds, 7 * 10 + 15);
    assert_eq!(dt.weekday, 7);
}

#[test]
fn set_time_writes_time_registers_only() {
    let mut rtc = new_rtc();
    let dt = DateTime { year: 24, month: 12, day: 1, weekday: 4, hours: 1, minutes: 2, seconds: 3 };
    rtc.set_datetime(&dt).unwrap();

    let t = Time { hours: 23, minutes: 58, seconds: 57 };
    rtc.set_time(&t).unwrap();

    let read = rtc.get_datetime().unwrap();
    assert_eq!(read.hours, 23);
    assert_eq!(read.minutes, 58);
    assert_eq!(read.seconds, 57);
    assert_eq!(read.year, 24);
    assert_eq!(read.month, 12);
    assert_eq!(read.day, 1);
    assert_eq!(read.weekday, 4);
}

#[test]
fn set_time_rejects_out_of_range_fields_without_bus_traffic() {
    let invalid = [
        Time { hours: 24, minutes: 0, seconds: 0 },
        Time { hours: 0, minutes: 60, seconds: 0 },
        Time { hours: 0, minutes: 0, seconds: 60 },
    ];
    for t in invalid {
        let mut rtc = new_rtc();
        assert!(matches!(rtc.set_time(&t), Err(RtcError::InvalidInputData)));
        assert_eq!(rtc.transport.writes_attempted, 0);
    }
}

#[test]
fn set_time_clears_voltage_low_flag() {
    let mut rtc = new_rtc();
    rtc.transport.poke(0x02, 0x80);
    rtc.set_time(&Time { hours: 6, minutes: 30, seconds: 0 }).unwrap();
    assert!(rtc.is_clock_valid().unwrap());
}
