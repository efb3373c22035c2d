use vscope_serial::crc::crc8;

#[test]
fn crc8_empty() {
    assert_eq!(crc8(&[]), 0x00);
}

#[test]
fn crc8_single_byte() {
    assert_eq!(crc8(&[0x00]), 0x00);
    assert_eq!(crc8(&[0x01]), 0xD5);
    assert_eq!(crc8(&[0xFF]), 0xF9);
}

#[test]
fn crc8_multi_byte() {
    assert_eq!(crc8(&[0x01, 0x02, 0x03]), 0x3F);
    assert_ne!(crc8(&[0x01, 0x02, 0x03]), crc8(&[0x03, 0x02, 0x01]));
}

#[test]
fn crc8_two_bytes_chain_through_table() {
    // 0x01 -> table[0x01] = 0xD5; then table[0xD5 ^ 0x01] = table[0xD4] = 0xDE
    assert_eq!(crc8(&[0x01, 0x01]), 0xDE);
}
