use lb_positions::wide::u128;

#[test]
fn default_is_zero() {
    let zero = u128::default();
    assert_eq!(zero.0, [0u8; 16]);
    assert_eq!(zero.as_u128(), 0);
}

#[test]
fn set_stores_little_endian_bytes() {
    let mut stored = u128::default();
    stored.set(0x0102_0304_0506_0708_090a_0b0c_0d0e_0f10);
    assert_eq!(
        stored.0,
        [
            0x10, 0x0f, 0x0e, 0x0d, 0x0c, 0x0b, 0x0a, 0x09, 0x08, 0x07, 0x06, 0x05, 0x04, 0x03,
            0x02, 0x01
        ]
    );
}

#[test]
fn set_then_read_gives_the_value() {
    let mut stored = u128::default();
    for value in [0, 1, 255, 256, 1_000_000, core::primitive::u128::MAX] {
        stored.set(value);
        assert_eq!(stored.as_u128(), value);
        assert_eq!(stored.0, value.to_le_bytes());
    }
}

#[test]
fn read_matches_native_decoding() {
    let bytes = [1u8, 2, 3, 4, 5, 6, 7, 8, 9, 10, 11, 12, 13, 14, 15, 16];
    let stored = u128(bytes);
    assert_eq!(stored.as_u128(), core::primitive::u128::from_le_bytes(bytes));
    let mut again = stored;
    again.set(stored.as_u128());
    assert!(again == stored);
}

#[test]
fn from_u128_stores_the_value() {
    for value in [0, 7, 1 << 64, core::primitive::u128::MAX - 1] {
        let stored = u128::from_u128(value);
        assert_eq!(stored.0, value.to_le_bytes());
        assert_eq!(stored.as_u128(), value);
    }
}
