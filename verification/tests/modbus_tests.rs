use serial_session::modbus::{
    addressed_unit, build_read_holding_request, calculate_crc16, SLAVE_ADDRESS,
};

#[test]
fn test_crc16() {
    // Test vector: Read holding registers from address 0, count 2
    let data = [0x01, 0x03, 0x00, 0x00, 0x00, 0x02];
    let crc = calculate_crc16(&data);
    assert_eq!(crc, 0x0BC4); // Little-endian: C4 0B
}

#[test]
fn crc16_of_nothing_is_the_initial_register() {
    assert_eq!(calculate_crc16(&[]), 0xFFFF);
}

#[test]
fn crc16_of_a_known_write_request() {
    // Write single register 1 := 3 on unit 0x11; checksum bytes on the wire 9A 9B.
    let data = [0x11, 0x06, 0x00, 0x01, 0x00, 0x03];
    assert_eq!(calculate_crc16(&data), 0x9B9A);
}

#[test]
fn read_holding_request_has_body_then_checksum_low_byte_first() {
    let frame = build_read_holding_request(SLAVE_ADDRESS, 0, 2);
    assert_eq!(frame, vec![0x01, 0x03, 0x00, 0x00, 0x00, 0x02, 0xC4, 0x0B]);
}

#[test]
fn read_holding_request_splits_start_and_count_high_byte_first() {
    let frame = build_read_holding_request(0x11, 0x006B, 0x0003);
    assert_eq!(&frame[..6], &[0x11, 0x03, 0x00, 0x6B, 0x00, 0x03]);
    assert_eq!(frame.len(), 8);
    let crc = calculate_crc16(&frame[..6]);
    assert_eq!(frame[6], (crc & 0xFF) as u8);
    assert_eq!(frame[7], (crc >> 8) as u8);
    // The well-known example frame 11 03 00 6B 00 03 76 87.
    assert_eq!(frame[6], 0x76);
    assert_eq!(frame[7], 0x87);
}

#[test]
fn read_holding_request_with_large_values() {
    let frame = build_read_holding_request(0xFF, 0xABCD, 0x1234);
    assert_eq!(&frame[..6], &[0xFF, 0x03, 0xAB, 0xCD, 0x12, 0x34]);
}

#[test]
fn frames_for_this_slave_and_broadcasts_are_served() {
    assert_eq!(SLAVE_ADDRESS, 1);
    assert_eq!(addressed_unit(&build_read_holding_request(SLAVE_ADDRESS, 0, 4)), Some(1));
    assert_eq!(addressed_unit(&[0, 6, 0, 1]), Some(0));
    assert_eq!(addressed_unit(&[1, 3, 0, 0]), Some(1));
    assert_eq!(addressed_unit(&[2, 3, 0, 0, 0, 1, 0, 0]), None);
    assert_eq!(addressed_unit(&[255, 3, 0, 0]), None);
}

#[test]
fn short_frames_are_not_served() {
    assert_eq!(addressed_unit(&[]), None);
    assert_eq!(addressed_unit(&[1]), None);
    assert_eq!(addressed_unit(&[1, 3, 0]), None);
    assert_eq!(addressed_unit(&[0, 3, 0]), None);
}
