use kiosk_devices::crc::crc16;
use kiosk_devices::crc::POLYNOMIAL;

#[test]
fn crc16_of_nothing_is_zero() {
    assert_eq!(crc16(&[]), 0);
}

#[test]
fn crc16_check_string() {
    assert_eq!(crc16(b"123456789"), 0x7FE0);
}

#[test]
fn crc16_of_poll_request_head() {
    assert_eq!(crc16(&[0x02, 0x03, 0x06, 0x33]), 0x2E62);
}

#[test]
fn crc16_of_single_bytes() {
    assert_eq!(crc16(&[0x00]), 0x0000);
    assert_eq!(crc16(&[0x02]), 0x4B4C);
    assert_eq!(crc16(&[0xFF]), 0x453C);
}

#[test]
fn crc16_shifts_before_it_folds() {
    // The register moves first, so the lowest bit of the last byte is gone
    // before it can be looked at.
    assert_eq!(crc16(&[0x01]), crc16(&[0x00]));
    assert_eq!(crc16(&[0x02, 0x03, 0x06, 0x32]), crc16(&[0x02, 0x03, 0x06, 0x33]));
}

#[test]
fn crc16_polynomial() {
    assert_eq!(POLYNOMIAL, 0x8408);
}

#[test]
fn crc16_absorbs_byte_by_byte() {
    let data = [0x02u8, 0x03, 0x07, 0x80, 0x07];
    assert_eq!(crc16(&data), 0x737E);
    assert_ne!(crc16(&data[..4]), crc16(&data));
}
