use fundraiser::wire::{decode_i64, decode_u64, encode_i64, encode_u64};

#[test]
fn u64_is_little_endian() {
    assert_eq!(encode_u64(0x0102_0304_0506_0708), [8, 7, 6, 5, 4, 3, 2, 1]);
    assert_eq!(encode_u64(100_000), 100_000u64.to_le_bytes());
    assert_eq!(decode_u64(&[8, 7, 6, 5, 4, 3, 2, 1], 0), 0x0102_0304_0506_0708);
    assert_eq!(decode_u64(&[0xff, 1, 0, 0, 0, 0, 0, 0, 0], 1), 1);
}

#[test]
fn i64_is_twos_complement() {
    assert_eq!(encode_i64(-1), [0xff; 8]);
    assert_eq!(encode_i64(i64::MIN), i64::MIN.to_le_bytes());
    assert_eq!(encode_i64(i64::MAX), i64::MAX.to_le_bytes());
    assert_eq!(decode_i64(&(-2i64).to_le_bytes(), 0), -2);
    assert_eq!(decode_i64(&i64::MIN.to_le_bytes(), 0), i64::MIN);
    assert_eq!(decode_i64(&i64::MAX.to_le_bytes(), 0), i64::MAX);
}
