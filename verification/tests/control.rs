//! Tests of init, clock control, flags, timer and clock output against the
//! simulated transport.

use pcf8563_dd::Alarm;
use pcf8563_dd::ClkoutFrequency;
use pcf8563_dd::Pcf8563;
use pcf8563_dd::RtcError;
use pcf8563_dd::TimerFrequency;
use pcf8563_dd::sim::SimFault;
use pcf8563_dd::sim::SimTransport;

fn new_rtc() -> Pcf8563<SimTransport> {
    Pcf8563::new(SimTransport::new())
}

#[test]
fn init_reports_clock_running_alarms_disabled_slowest_timer() {
    let mut rtc = new_rtc();
    // A worst-case prior state: clock stopped, every control flag set,
    // alarms enabled, timer on the fastest source.
    rtc.transport.poke(0x00, 0xFF);
    rtc.transport.poke(0x01, 0xFF);
    rtc.transport.poke(0x02, 0x80);
    rtc.transport.poke(0x09, 0x05);
    rtc.transport.poke(0x0A, 0x12);
    rtc.transport.poke(0x0B, 0x01);
    rtc.transport.poke(0x0C, 0x03);
    rtc.transport.poke(0x0E, 0x80);

    rtc.init().unwrap();

    assert!(rtc.is_clock_running().unwrap());
    assert_eq!(
        rtc.get_alarm().unwrap(),
        Alarm { minute: None, hour: None, day: None, weekday: None }
    );
    assert_eq!(rtc.get_timer_frequency().unwrap(), TimerFrequency::Freq160Hz);
    assert!(rtc.is_clock_valid().unwrap());
    assert!(!rtc.get_alarm_flag().unwrap());
    assert!(!rtc.get_timer_flag().unwrap());
    assert!(!rtc.is_alarm_interrupt_enabled().unwrap());
    assert!(!rtc.is_timer_interrupt_enabled().unwrap());
}

#[test]
fn init_preserves_stored_seconds() {
    let mut rtc = new_rtc();
    rtc.transport.poke(0x02, 0x80 | 0x37);
    rtc.init().unwrap();
    assert_eq!(rtc.transport.peek(0x02), 0x37);
}

#[test]
fn clock_running_round_trips() {
    let mut rtc = new_rtc();
    rtc.set_clock_running(false).unwrap();
    assert!(!rtc.is_clock_running().unwrap());
    assert_eq!(rtc.transport.peek(0x00), 0x20);
    rtc.set_clock_running(true).unwrap();
    assert!(rtc.is_clock_running().unwrap());
    assert_eq!(rtc.transport.peek(0x00), 0x00);
}

#[test]
fn century_flag_round_trips() {
    let mut rtc = new_rtc();
    rtc.set_century_flag(true).unwrap();
    assert!(rtc.get_century_flag().unwrap());
    rtc.set_century_flag(false).unwrap();
    assert!(!rtc.get_century_flag().unwrap());
}

#[test]
fn century_flag_preserves_stored_month() {
    let mut rtc = new_rtc();
    rtc.transport.poke(0x07, 0x12);
    rtc.set_century_flag(true).unwrap();
    assert_eq!(rtc.transport.peek(0x07), 0x92);
    rtc.set_century_flag(false).unwrap();
    assert_eq!(rtc.transport.peek(0x07), 0x12);
}

#[test]
fn clear_voltage_low_flag_preserves_seconds() {
    let mut rtc = new_rtc();
    rtc.transport.poke(0x02, 0x80 | 0x25);
    assert!(!rtc.is_clock_valid().unwrap());
    rtc.clear_voltage_low_flag().unwrap();
    assert_eq!(rtc.transport.peek(0x02), 0x25);
    assert!(rtc.is_clock_valid().unwrap());
}

#[test]
fn alarm_flag_clear_preserves_other_control_bits() {
    let mut rtc = new_rtc();
    rtc.transport.poke(0x01, 0x1F);
    assert!(rtc.get_alarm_flag().unwrap());
    rtc.clear_alarm_flag().unwrap();
    assert!(!rtc.get_alarm_flag().unwrap());
    assert_eq!(rtc.transport.peek(0x01), 0x17);
}

#[test]
fn timer_flag_clear_preserves_other_control_bits() {
    let mut rtc = new_rtc();
    rtc.transport.poke(0x01, 0x1F);
    assert!(rtc.get_timer_flag().unwrap());
    rtc.clear_timer_flag().unwrap();
    assert!(!rtc.get_timer_flag().unwrap());
    assert_eq!(rtc.transport.peek(0x01), 0x1B);
}

#[test]
fn alarm_interrupt_round_trips() {
    let mut rtc = new_rtc();
    rtc.set_alarm_interrupt(true).unwrap();
    assert!(rtc.is_alarm_interrupt_enabled().unwrap());
    rtc.set_alarm_interrupt(false).unwrap();
    assert!(!rtc.is_alarm_interrupt_enabled().unwrap());
}

#[test]
fn timer_interrupt_round_trips() {
    let mut rtc = new_rtc();
    rtc.set_timer_interrupt(true).unwrap();
    assert!(rtc.is_timer_interrupt_enabled().unwrap());
    rtc.set_timer_interrupt(false).unwrap();
    assert!(!rtc.is_timer_interrupt_enabled().unwrap());
}

#[test]
fn timer_interrupt_pulse_mode_sets_its_bit() {
    let mut rtc = new_rtc();
    rtc.set_timer_interrupt_pulse_mode(true).unwrap();
    assert_eq!(rtc.transport.peek(0x01), 0x10);
    rtc.set_timer_interrupt_pulse_mode(false).unwrap();
    assert_eq!(rtc.transport.peek(0x01), 0x00);
}

#[test]
fn timer_value_round_trips() {
    let mut rtc = new_rtc();
    rtc.set_timer_value(200).unwrap();
    assert_eq!(rtc.get_timer_value().unwrap(), 200);
    assert_eq!(rtc.transport.peek(0x0F), 200);
}

#[test]
fn timer_frequency_round_trips_every_variant() {
    let variants = [
        TimerFrequency::Freq4096Hz,
        TimerFrequency::Freq64Hz,
        TimerFrequency::Freq1Hz,
        TimerFrequency::Freq160Hz,
    ];
    for f in variants {
        let mut rtc = new_rtc();
        rtc.set_timer_frequency(f).unwrap();
        assert_eq!(rtc.get_timer_frequency().unwrap(), f);
    }
}

#[test]
fn timer_frequency_preserves_enable_bit() {
    let mut rtc = new_rtc();
    rtc.set_timer_enabled(true).unwrap();
    rtc.set_timer_frequency(TimerFrequency::Freq1Hz).unwrap();
    assert!(rtc.is_timer_enabled().unwrap());
    assert_eq!(rtc.transport.peek(0x0E), 0x82);
}

#[test]
fn timer_enable_round_trips() {
    let mut rtc = new_rtc();
    rtc.set_timer_enabled(true).unwrap();
    assert!(rtc.is_timer_enabled().unwrap());
    rtc.set_timer_enabled(false).unwrap();
    assert!(!rtc.is_timer_enabled().unwrap());
}

#[test]
fn clkout_enable_round_trips() {
    let mut rtc = new_rtc();
    rtc.set_clkout_enabled(true).unwrap();
    assert!(rtc.is_clkout_enabled().unwrap());
    rtc.set_clkout_enabled(false).unwrap();
    assert!(!rtc.is_clkout_enabled().unwrap());
}

#[test]
fn clkout_frequency_round_trips_every_variant() {
    let variants = [
        ClkoutFrequency::Freq32768Hz,
        ClkoutFrequency::Freq1024Hz,
        ClkoutFrequency::Freq32Hz,
        ClkoutFrequency::Freq1Hz,
    ];
    for f in variants {
        let mut rtc = new_rtc();
        rtc.set_clkout_enabled(true).unwrap();
        rtc.set_clkout_frequency(f).unwrap();
        assert_eq!(rtc.get_clkout_frequency().unwrap(), f);
        assert!(rtc.is_clkout_enabled().unwrap());
    }
}

#[test]
fn read_fault_surfaces_as_transport_error() {
    let mut rtc = new_rtc();
    rtc.transport.fail_reads_after(0);
    assert!(matches!(rtc.is_clock_running(), Err(RtcError::I2c(SimFault))));
}

#[test]
fn write_fault_surfaces_as_transport_error() {
    let mut rtc = new_rtc();
    rtc.transport.fail_writes_after(0);
    assert!(matches!(rtc.set_timer_value(10), Err(RtcError::I2c(SimFault))));
}

#[test]
fn failed_modify_write_leaves_register_unchanged() {
    let mut rtc = new_rtc();
    rtc.transport.poke(0x00, 0x20);
    rtc.transport.fail_writes_after(0);
    assert!(matches!(rtc.set_clock_running(true), Err(RtcError::I2c(SimFault))));
    assert_eq!(rtc.transport.peek(0x00), 0x20);
}

#[test]
fn init_fault_aborts_remaining_steps() {
    let mut rtc = new_rtc();
    rtc.transport.poke(0x02, 0x80 | 0x25);
    rtc.transport.poke(0x09, 0x05);
    rtc.transport.poke(0x0E, 0x00);
    rtc.transport.poke(0x0F, 0x55);
    // Both control writes succeed, the voltage-low clear fails: the earlier
    // steps took full effect and nothing after was touched.
    rtc.transport.fail_writes_after(2);
    assert!(matches!(rtc.init(), Err(RtcError::I2c(SimFault))));
    assert_eq!(rtc.transport.peek(0x00), 0x00);
    assert_eq!(rtc.transport.peek(0x01), 0x00);
    assert_eq!(rtc.transport.peek(0x02), 0x80 | 0x25);
    assert_eq!(rtc.transport.peek(0x09), 0x05);
    assert_eq!(rtc.transport.peek(0x0E), 0x00);
    assert_eq!(rtc.transport.peek(0x0F), 0x55);
    assert_ne!(
        rtc.get_timer_frequency().unwrap(),
        TimerFrequency::Freq160Hz
    );
}

#[test]
fn init_fault_during_alarm_writes_leaves_a_stage() {
    let mut rtc = new_rtc();
    rtc.transport.poke(0x02, 0x80 | 0x25);
    rtc.transport.poke(0x09, 0x05);
    rtc.transport.poke(0x0A, 0x12);
    rtc.transport.poke(0x0F, 0x55);
    // The two control writes, the voltage-low clear and one alarm write
    // succeed; the second alarm write fails.
    rtc.transport.fail_writes_after(4);
    assert!(matches!(rtc.init(), Err(RtcError::I2c(SimFault))));
    assert_eq!(rtc.transport.peek(0x02), 0x25);
    assert_eq!(rtc.transport.peek(0x09), 0x80);
    assert_eq!(rtc.transport.peek(0x0A), 0x12);
    assert_eq!(rtc.transport.peek(0x0F), 0x55);
}
