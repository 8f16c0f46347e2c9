use zoom_sync::tiga::crc::crc16;
use zoom_sync::tiga::types::{encode_temperature, Rgb565};
use zoom_sync::zoom65v3::checksum::checksum;
use zoom_sync::zoom65v3::float::DumbFloat16;

#[test]
fn crc16_basic() {
    // Test with known values
    let data = [0xA5, 0x38, 0x00, 0x0A];
    let result = crc16(&data);
    // CRC should be consistent
    assert_eq!(crc16(&data), result);
}

#[test]
fn crc16_check_value() {
    assert_eq!(crc16(b"123456789"), 0x29B1);
}

#[test]
fn crc16_of_nothing_is_the_initial_value() {
    assert_eq!(crc16(&[]), 0xFFFF);
}

#[test]
fn test_encode_temperature_positive() {
    assert_eq!(encode_temperature(25), 250);
    assert_eq!(encode_temperature(0), 0);
    assert_eq!(encode_temperature(100), 1000);
}

#[test]
fn test_encode_temperature_negative() {
    assert_eq!(encode_temperature(-10), 100 | 0x8000);
    assert_eq!(encode_temperature(-1), 10 | 0x8000);
}

#[test]
fn encode_temperature_at_the_limits() {
    assert_eq!(encode_temperature(-10), 0x8064);
    assert_eq!(encode_temperature(3276), 32760);
    assert_eq!(encode_temperature(-3276), 32760 | 0x8000);
}

#[test]
fn test_rgb565() {
    // Pure red
    let red = Rgb565::from_rgb(255, 0, 0);
    assert_eq!(red.0, 0xF800);

    // Pure green
    let green = Rgb565::from_rgb(0, 255, 0);
    assert_eq!(green.0, 0x07E0);

    // Pure blue
    let blue = Rgb565::from_rgb(0, 0, 255);
    assert_eq!(blue.0, 0x001F);
}

#[test]
fn rgb565_byte_orders() {
    let color = Rgb565(0x1234);
    assert_eq!(color.to_be_bytes(), [0x12, 0x34]);
    assert_eq!(color.to_le_bytes(), [0x34, 0x12]);
    assert_eq!(Rgb565::from_rgb(7, 3, 7).0, 0);
    assert_eq!(Rgb565::from_rgb(255, 255, 255).0, 0xFFFF);
}

#[test]
fn checksum_test() {
    assert_eq!(
        checksum(&[
            0, 0, 71, 73, 70, 56, 57, 97, 111, 0, 111, 0, 247, 0, 0, 0, 0, 0, 0, 0, 0, 0, 0, 0, 0,
            0, 0, 0,
        ]),
        [94, 148, 189, 206],
        "checksum should be the same as test data"
    );
}

#[test]
fn checksum_of_nothing_is_the_initial_value() {
    assert_eq!(checksum(&[]), [0xFF, 0xFF, 0xFF, 0xFF]);
}

#[test]
fn roundtrip() {
    for i in 0..u16::MAX {
        let repr = i.to_be_bytes();
        let x = DumbFloat16::from_bit_repr(repr);
        let y = x.to_bit_repr();
        assert_eq!(repr, y, "{x:?}");
        println!("{x:?}");
    }
}

#[test]
fn dumb_float_limits() {
    assert_eq!(DumbFloat16::min().to_bit_repr(), [0, 0]);
    assert_eq!(DumbFloat16::max().to_bit_repr(), [0xFF, 0xFF]);
    assert!(DumbFloat16::min() < DumbFloat16::max());
}
