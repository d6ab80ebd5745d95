use qmi8658a::sample::{decode_sample, decode_temperature, i16_from_le};
use qmi8658a::{ImuData, StatusFlags};

#[test]
fn words_join_low_byte_first() {
    assert_eq!(i16_from_le(0x00, 0x00), 0);
    assert_eq!(i16_from_le(0x01, 0x00), 1);
    assert_eq!(i16_from_le(0x00, 0x01), 256);
    assert_eq!(i16_from_le(0x34, 0x12), 0x1234);
    assert_eq!(i16_from_le(0xFF, 0x7F), i16::MAX);
    assert_eq!(i16_from_le(0x00, 0x80), i16::MIN);
    assert_eq!(i16_from_le(0xFF, 0xFF), -1);
    assert_eq!(i16_from_le(0xFE, 0xFF), -2);
}

#[test]
fn words_agree_with_the_standard_library() {
    for lo in 0..=255u8 {
        for hi in 0..=255u8 {
            assert_eq!(i16_from_le(lo, hi), i16::from_le_bytes([lo, hi]));
        }
    }
}

#[test]
fn temperature_block() {
    assert_eq!(decode_temperature(&[0x00, 0x01]), 256);
    assert_eq!(decode_temperature(&[0x80, 0x19]), 0x1980);
    assert_eq!(decode_temperature(&[0x00, 0xFF]), -256);
}

#[test]
fn sample_block() {
    let block = [0x01, 0x00, 0x02, 0x00, 0xFF, 0xFF, 0x00, 0x00, 0x00, 0x00, 0x00, 0x80];
    assert_eq!(
        decode_sample(&block),
        ImuData { accel_x: 1, accel_y: 2, accel_z: -1, gyro_x: 0, gyro_y: 0, gyro_z: -32768 }
    );
}

#[test]
fn sample_block_keeps_the_axis_order() {
    let block = [1, 0, 2, 0, 3, 0, 4, 0, 5, 0, 6, 0];
    let sample = decode_sample(&block);
    assert_eq!(
        (sample.accel_x, sample.accel_y, sample.accel_z, sample.gyro_x, sample.gyro_y, sample.gyro_z),
        (1, 2, 3, 4, 5, 6)
    );
}

#[test]
fn status_flags_read_bits_zero_and_one() {
    assert!(!StatusFlags::new(0x00).available());
    assert!(!StatusFlags::new(0x00).locked());
    assert!(StatusFlags::new(0x01).available());
    assert!(!StatusFlags::new(0x01).locked());
    assert!(!StatusFlags::new(0x02).available());
    assert!(StatusFlags::new(0x02).locked());
    assert!(StatusFlags::new(0x03).available());
    assert!(StatusFlags::new(0x03).locked());
    assert!(!StatusFlags::new(0xFC).available());
    assert!(!StatusFlags::new(0xFC).locked());
    assert_eq!(StatusFlags::new(0x5A).bits, 0x5A);
}

#[test]
fn register_map() {
    assert_eq!(qmi8658a::registers::WHO_AM_I, 0x00);
    assert_eq!(qmi8658a::registers::CTRL1, 0x02);
    assert_eq!(qmi8658a::registers::CTRL7, 0x08);
    assert_eq!(qmi8658a::registers::STATUSINT, 0x2D);
    assert_eq!(qmi8658a::registers::TEMP_L, 0x33);
    assert_eq!(qmi8658a::registers::AX_L, 0x35);
    assert_eq!(qmi8658a::registers::STATUS_AVAILABLE, 0x01);
    assert_eq!(qmi8658a::registers::STATUS_LOCKED, 0x02);
}
