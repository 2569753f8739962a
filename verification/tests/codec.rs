//! Tests of the BCD codec and the write framing.

use pcf8563_dd::bcd_to_dec;
use pcf8563_dd::dec_to_bcd;
use pcf8563_dd::transport::frame_register_write;

#[test]
fn bcd_round_trip_all_values() {
    for v in 0u8..=99 {
        assert_eq!(bcd_to_dec(dec_to_bcd(v)), v);
    }
}

#[test]
fn bcd_encode_exact_values() {
    assert_eq!(dec_to_bcd(0), 0x00);
    assert_eq!(dec_to_bcd(9), 0x09);
    assert_eq!(dec_to_bcd(10), 0x10);
    assert_eq!(dec_to_bcd(24), 0x24);
    assert_eq!(dec_to_bcd(59), 0x59);
    assert_eq!(dec_to_bcd(99), 0x99);
}

#[test]
fn bcd_decode_exact_values() {
    assert_eq!(bcd_to_dec(0x00), 0);
    assert_eq!(bcd_to_dec(0x09), 9);
    assert_eq!(bcd_to_dec(0x31), 31);
    assert_eq!(bcd_to_dec(0x59), 59);
    assert_eq!(bcd_to_dec(0x99), 99);
}

#[test]
fn bcd_decode_trusts_malformed_nibbles() {
    // A malformed register byte decodes without error to an out-of-range
    // value: the read path trusts hardware.
    assert_eq!(bcd_to_dec(0xFF), 15 * 10 + 15);
    assert_eq!(bcd_to_dec(0x3F), 3 * 10 + 15);
}

#[test]
fn frame_prepends_register_address() {
    let framed = frame_register_write(0x02, &[0x59, 0x30, 0x12]).unwrap();
    assert_eq!(framed, vec![0x02, 0x59, 0x30, 0x12]);
}

#[test]
fn frame_accepts_largest_burst() {
    let payload = [1u8, 2, 3, 4, 5, 6, 7, 8];
    let framed = frame_register_write(0x02, &payload).unwrap();
    assert_eq!(framed.len(), 9);
    assert_eq!(framed[0], 0x02);
    assert_eq!(&framed[1..], &payload);
}

#[test]
fn frame_refuses_oversized_payload() {
    let payload = [0u8; 9];
    assert!(frame_register_write(0x02, &payload).is_none());
}
