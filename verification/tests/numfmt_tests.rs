use procmon::numfmt::{i64_to_dec, u64_to_dec};

#[test]
fn unsigned_decimal_rendering() {
    assert_eq!(u64_to_dec(0), "0");
    assert_eq!(u64_to_dec(7), "7");
    assert_eq!(u64_to_dec(1234), "1234");
    assert_eq!(u64_to_dec(u64::MAX), "18446744073709551615");
}

#[test]
fn signed_decimal_rendering() {
    assert_eq!(i64_to_dec(0), "0");
    assert_eq!(i64_to_dec(42), "42");
    assert_eq!(i64_to_dec(-1), "-1");
    assert_eq!(i64_to_dec(-125), "-125");
    assert_eq!(i64_to_dec(i64::MIN), "-9223372036854775808");
    assert_eq!(i64_to_dec(i64::MAX), "9223372036854775807");
}
