//! Tests of the pure write-plan and register-decode functions that an
//! execution shim drives the device with.

use pcf8563_dd::driver::{
    alarm_from_read_bytes, alarm_from_registers, alarm_read_plan, alarm_write_plan,
    datetime_from_read_bytes, datetime_from_registers, datetime_read_plan, datetime_write_plan,
    time_write_plan,
};
use pcf8563_dd::{Alarm, DateTime, Time};

#[test]
fn datetime_plan_lists_the_seven_writes_in_order() {
    let dt = DateTime { year: 45, month: 11, day: 28, weekday: 5, hours: 19, minutes: 38, seconds: 7 };
    let plan = datetime_write_plan(&dt).unwrap();
    assert_eq!(
        plan,
        vec![
            (0x02, 0x07),
            (0x03, 0x38),
            (0x04, 0x19),
            (0x05, 0x28),
            (0x06, 0x05),
            (0x07, 0x11),
            (0x08, 0x45),
        ]
    );
}

#[test]
fn datetime_plan_rejects_out_of_range_fields() {
    let dt = DateTime { year: 100, month: 11, day: 28, weekday: 5, hours: 19, minutes: 38, seconds: 7 };
    assert!(datetime_write_plan(&dt).is_none());
    let dt = DateTime { year: 45, month: 13, day: 28, weekday: 5, hours: 19, minutes: 38, seconds: 7 };
    assert!(datetime_write_plan(&dt).is_none());
}

#[test]
fn time_plan_lists_the_three_writes_in_order() {
    let t = Time { hours: 23, minutes: 58, seconds: 57 };
    let plan = time_write_plan(&t).unwrap();
    assert_eq!(plan, vec![(0x02, 0x57), (0x03, 0x58), (0x04, 0x23)]);
    assert!(time_write_plan(&Time { hours: 24, minutes: 0, seconds: 0 }).is_none());
}

#[test]
fn alarm_plan_encodes_enabled_and_disabled_components() {
    let alarm = Alarm { minute: Some(5), hour: None, day: Some(31), weekday: None };
    let plan = alarm_write_plan(&alarm).unwrap();
    assert_eq!(plan, vec![(0x09, 0x05), (0x0A, 0x80), (0x0B, 0x31), (0x0C, 0x80)]);
    assert!(
        alarm_write_plan(&Alarm { minute: Some(60), hour: None, day: None, weekday: None })
            .is_none()
    );
}

#[test]
fn datetime_decodes_raw_register_bytes() {
    // Raw bytes in register address order: seconds, minutes, hours, days,
    // weekdays, months, years. Flag bits outside the value fields are
    // ignored.
    let dt = datetime_from_registers(0x80 | 0x07, 0x38, 0x19, 0x28, 0x05, 0x80 | 0x11, 0x45);
    assert_eq!(
        dt,
        DateTime { year: 45, month: 11, day: 28, weekday: 5, hours: 19, minutes: 38, seconds: 7 }
    );
}

#[test]
fn alarm_decodes_raw_register_bytes() {
    let alarm = alarm_from_registers(0x05, 0x80, 0x31, 0xFF);
    assert_eq!(
        alarm,
        Alarm { minute: Some(5), hour: None, day: Some(31), weekday: None }
    );
}

#[test]
fn read_plans_list_the_register_addresses_in_order() {
    assert_eq!(
        datetime_read_plan(),
        vec![0x02, 0x03, 0x04, 0x05, 0x06, 0x07, 0x08]
    );
    assert_eq!(alarm_read_plan(), vec![0x09, 0x0A, 0x0B, 0x0C]);
}

#[test]
fn read_byte_decoders_follow_the_plan_order() {
    let raw = vec![0x80 | 0x07, 0x38, 0x19, 0x28, 0x05, 0x80 | 0x11, 0x45];
    let dt = datetime_from_read_bytes(&raw).unwrap();
    assert_eq!(
        dt,
        DateTime { year: 45, month: 11, day: 28, weekday: 5, hours: 19, minutes: 38, seconds: 7 }
    );
    assert!(datetime_from_read_bytes(&vec![0x00; 6]).is_none());

    let alarm = alarm_from_read_bytes(&vec![0x05, 0x80, 0x31, 0xFF]).unwrap();
    assert_eq!(
        alarm,
        Alarm { minute: Some(5), hour: None, day: Some(31), weekday: None }
    );
    assert!(alarm_from_read_bytes(&vec![0x00; 3]).is_none());
}
