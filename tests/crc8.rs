use ads126x::crc8::{checksum, crc_8_atm};

#[test]
fn test_crc() {
    let c = crc_8_atm(&[0x05, 0x00, 0x00]);
    assert_eq!(c, 0x48, "{c:#04x}")
}

#[test]
fn test_checksum() {
    // 0x9B + 255 + 213 + 85 + 236 = 944 = 3 * 256 + 0xB0
    let c = checksum(&[255, 213, 85, 236]);
    assert_eq!(c, 0xB0, "{c:#04x}")
}

#[test]
fn checksum_of_nothing_is_the_seed() {
    assert_eq!(checksum(&[]), 0x9B);
}

#[test]
fn crc_of_nothing_is_zero() {
    assert_eq!(crc_8_atm(&[]), 0x00);
}

#[test]
fn crc_of_single_bytes() {
    assert_eq!(crc_8_atm(&[0x00]), 0x00);
    assert_eq!(crc_8_atm(&[0x01]), 0x89);
    assert_eq!(crc_8_atm(&[0x80]), 0x07);
}

#[test]
fn checksum_over_a_concatenation_is_incremental() {
    let a = [0x12u8, 0xF0, 0x7F];
    let b = [0xAAu8, 0x55];
    let whole = checksum(&[0x12, 0xF0, 0x7F, 0xAA, 0x55]);
    let mut acc = checksum(&a);
    for x in b {
        acc = acc.wrapping_add(x);
    }
    assert_eq!(whole, acc);
}
