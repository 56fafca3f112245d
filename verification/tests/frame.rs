use abp::{decode_pressure, decode_pressure_and_temperature, Status};

#[test]
fn frame_decode_bit_exact() {
    // byte0 = 0b00010101: status bits 00, high pressure bits 010101.
    let (status_bits, pressure) = decode_pressure(&[0x15, 0xAA]);
    assert_eq!(status_bits, 0);
    assert_eq!(pressure, 0x15AA);
    assert_eq!(pressure, 5546);
}

#[test]
fn decode_pressure_masks_status_bits_out() {
    // Same low six bits as 0x15 but status bits 11.
    let (status_bits, pressure) = decode_pressure(&[0xD5, 0xAA]);
    assert_eq!(status_bits, 3);
    assert_eq!(pressure, 0x15AA);
}

#[test]
fn decode_four_byte_frame() {
    // Status 10 (stale), pressure 0x15AA, temperature 0xFF<<3 | 0xE0>>5 = 2047.
    let out = decode_pressure_and_temperature(&[0x95, 0xAA, 0xFF, 0xE0]);
    assert_eq!(out.status, Status::Stale);
    assert_eq!(out.pressure, 0x15AA);
    assert_eq!(out.temperature, 2047);
}

#[test]
fn decode_ignores_padding_bits() {
    // The bottom five bits of byte 3 are padding and must not matter.
    let a = decode_pressure_and_temperature(&[0x15, 0xAA, 0x80, 0x40]);
    let b = decode_pressure_and_temperature(&[0x15, 0xAA, 0x80, 0x5F]);
    assert_eq!(a.temperature, 0x80 << 3 | 0x02);
    assert_eq!(a, b);
}

#[test]
fn decode_is_idempotent() {
    let frame: [u8; 4] = [0x6B, 0x01, 0x42, 0x20];
    let first = decode_pressure_and_temperature(&frame);
    let second = decode_pressure_and_temperature(&frame);
    assert_eq!(first, second);
    let two: [u8; 2] = [0x6B, 0x01];
    assert_eq!(decode_pressure(&two), decode_pressure(&two));
}

#[test]
fn status_conversion_is_total() {
    assert_eq!(Status::from_bits(0), Status::Valid);
    assert_eq!(Status::from_bits(1), Status::Command);
    assert_eq!(Status::from_bits(2), Status::Stale);
    assert_eq!(Status::from_bits(3), Status::Diagnostic);
    // Wider values reduce to their low two bits instead of panicking.
    assert_eq!(Status::from_bits(0xFF), Status::Diagnostic);
    assert_eq!(Status::from_bits(4), Status::Valid);
}
