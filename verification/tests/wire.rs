use drriga_agent::wire::{
    append_bytes, u32_to_le_bytes, u64_from_be_bytes, u64_to_be_bytes, u64_to_decimal,
};

#[test]
fn big_endian_roundtrip() {
    for x in [0u64, 1, 255, 256, 0x0102_0304_0506_0708, u64::MAX] {
        assert_eq!(u64_to_be_bytes(x), x.to_be_bytes());
        assert_eq!(u64_from_be_bytes(&u64_to_be_bytes(x)), x);
    }
    assert_eq!(u64_from_be_bytes(&[0, 0, 0, 0, 0, 0, 1, 2, 9, 9]), 0x102);
}

#[test]
fn little_endian_u32() {
    assert_eq!(u32_to_le_bytes(0x0102_0304), [4, 3, 2, 1]);
}

#[test]
fn decimal_digits() {
    assert_eq!(u64_to_decimal(0), b"0".to_vec());
    assert_eq!(u64_to_decimal(9), b"9".to_vec());
    assert_eq!(u64_to_decimal(10), b"10".to_vec());
    assert_eq!(u64_to_decimal(1700000000), b"1700000000".to_vec());
    assert_eq!(u64_to_decimal(u64::MAX), u64::MAX.to_string().into_bytes());
}

#[test]
fn append_concatenates() {
    let mut v = vec![1u8, 2];
    append_bytes(&mut v, &[3, 4]);
    append_bytes(&mut v, &[]);
    assert_eq!(v, vec![1, 2, 3, 4]);
}
