use thermometer::codec::{decode_reading, encode_reading};

#[test]
fn decode_gives_exact_bits_for_23_5() {
    let payload = [0x41u8, 0xbc, 0x00, 0x00];
    let bits = decode_reading(&payload);
    assert_eq!(bits, 23.5f32.to_bits());
    assert_eq!(f32::from_bits(bits), 23.5f32);
}

#[test]
fn encode_gives_exact_bytes_for_23_5() {
    let bytes = encode_reading(23.5f32.to_bits());
    assert_eq!(bytes, vec![0x41u8, 0xbc, 0x00, 0x00]);
}

#[test]
fn decode_of_encode_is_identity() {
    for bits in [0u32, 1, 0x41bc0000, 0x7f800000, 0xffffffff, 24.1f32.to_bits()] {
        let bytes = encode_reading(bits);
        assert_eq!(decode_reading(&bytes), bits);
    }
}

#[test]
fn encode_of_decode_is_identity() {
    for payload in [[0u8, 0, 0, 0], [0x41, 0xbc, 0, 0], [0xff, 0xff, 0xff, 0xff], [1, 2, 3, 4]] {
        let bits = decode_reading(&payload);
        assert_eq!(encode_reading(bits), payload.to_vec());
    }
}

#[test]
fn zero_bits_decode_to_zero_default() {
    let bits = decode_reading(&[0u8, 0, 0, 0]);
    assert_eq!(bits, 0);
    assert_eq!(f32::from_bits(bits), 0.0f32);
}
