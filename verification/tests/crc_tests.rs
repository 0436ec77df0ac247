use srxl2::crc::{crc16_of, crc_update, CRC_INIT, CRC_POLY};

#[test]
fn crc_of_check_string_is_the_xmodem_value() {
    let bytes = b"123456789";
    assert_eq!(crc16_of(bytes, bytes.len()), 0x31C3);
}

#[test]
fn crc_of_nothing_is_the_seed() {
    assert_eq!(crc16_of(&[], 0), 0);
    assert_eq!(CRC_INIT, 0);
    assert_eq!(CRC_POLY, 0x1021);
}

#[test]
fn crc_of_a_prefix_ignores_the_rest() {
    let bytes = [0xA6, 0x21, 0x0E, 0x30, 0xFF];
    assert_eq!(crc16_of(&bytes, 3), crc16_of(&bytes[..3], 3));
    let mut c = 0;
    for b in bytes {
        c = crc_update(c, b);
    }
    assert_eq!(crc16_of(&bytes, 5), c);
}

#[test]
fn crc_tells_any_two_values_of_one_byte_apart() {
    let frame = [0xA6u8, 0x21, 0x0E, 0x30];
    let good = crc16_of(&frame, 4);
    for v in 0..=255u8 {
        if v != frame[3] {
            let changed = [frame[0], frame[1], frame[2], v];
            assert_ne!(crc16_of(&changed, 4), good);
        }
    }
}
