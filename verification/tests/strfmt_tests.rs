use ue_types::strfmt::{i64_to_dec, u32_to_hex_fixed, u64_to_dec};

#[test]
fn test_decimal_rendering() {
    assert_eq!(u64_to_dec(0), "0");
    assert_eq!(u64_to_dec(7), "7");
    assert_eq!(u64_to_dec(1234567890), "1234567890");
    assert_eq!(u64_to_dec(u64::MAX), "18446744073709551615");

    assert_eq!(i64_to_dec(0), "0");
    assert_eq!(i64_to_dec(-1), "-1");
    assert_eq!(i64_to_dec(i64::MIN), "-9223372036854775808");
    assert_eq!(i64_to_dec(i64::MAX), "9223372036854775807");
}

#[test]
fn test_hex_rendering() {
    assert_eq!(u32_to_hex_fixed(0, 8), "00000000");
    assert_eq!(u32_to_hex_fixed(0xDEADBEEF, 8), "DEADBEEF");
    assert_eq!(u32_to_hex_fixed(0x1A, 2), "1A");
    assert_eq!(u32_to_hex_fixed(0xFFF, 2), "FF"); // digits beyond the width drop
    assert_eq!(u32_to_hex_fixed(5, 0), "");
}
