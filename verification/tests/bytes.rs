use vrf_oracle::bytes::{
    bytes_equal, read_array32, read_u16_le, read_u32_le, read_u64_le, u16_to_le, u32_to_le, u64_to_le,
};

#[test]
fn encodes_little_endian() {
    assert_eq!(u16_to_le(0x1234), 0x1234u16.to_le_bytes());
    assert_eq!(u16_to_le(u16::MAX), [0xFF, 0xFF]);
    assert_eq!(u32_to_le(0x01020304), [4, 3, 2, 1]);
    assert_eq!(u32_to_le(0), [0; 4]);
    assert_eq!(u64_to_le(0x0102030405060708), [8, 7, 6, 5, 4, 3, 2, 1]);
    assert_eq!(u64_to_le(u64::MAX), [0xFF; 8]);
    assert_eq!(u64_to_le(256), [0, 1, 0, 0, 0, 0, 0, 0]);
}

#[test]
fn decodes_little_endian() {
    let data = [0xEEu8, 8, 7, 6, 5, 4, 3, 2, 1, 0xEE];
    assert_eq!(read_u64_le(&data, 1), 0x0102030405060708);
    assert_eq!(read_u32_le(&data, 1), 0x05060708);
    assert_eq!(read_u16_le(&data, 1), 0x0708);
    assert_eq!(read_u64_le(&[0xFF; 8], 0), u64::MAX);
    assert_eq!(read_u32_le(&[0xFF; 4], 0), u32::MAX);
    assert_eq!(read_u16_le(&[0xFF; 2], 0), u16::MAX);
}

#[test]
fn decoding_undoes_encoding() {
    for x in [0u64, 1, 255, 256, 65535, 1 << 32, u64::MAX - 1, u64::MAX] {
        assert_eq!(read_u64_le(&u64_to_le(x), 0), x);
    }
    for x in [0u32, 7, 1 << 16, u32::MAX] {
        assert_eq!(read_u32_le(&u32_to_le(x), 0), x);
    }
}

#[test]
fn reads_arrays_and_compares() {
    let mut data = vec![0u8; 40];
    for (i, b) in data.iter_mut().enumerate() {
        *b = i as u8;
    }
    let a = read_array32(&data, 8);
    assert_eq!(a[0], 8);
    assert_eq!(a[31], 39);
    assert!(bytes_equal(&a, &data[8..40]));
    assert!(!bytes_equal(&a, &data[7..39]));
    assert!(!bytes_equal(&a, &data[8..39]));
    assert!(bytes_equal(&[], &[]));
}
