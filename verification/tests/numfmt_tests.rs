use vidinf::numfmt::fixed4_string;
use vidinf::numfmt::u64_string;

#[test]
fn decimal_zero() {
    assert_eq!(u64_string(0), "0");
}

#[test]
fn decimal_digits() {
    assert_eq!(u64_string(7), "7");
    assert_eq!(u64_string(10), "10");
    assert_eq!(u64_string(1000), "1000");
    assert_eq!(u64_string(1234567890), "1234567890");
    assert_eq!(u64_string(u64::MAX), "18446744073709551615");
}

#[test]
fn fixed4_zero() {
    assert_eq!(fixed4_string(0), "0.0000");
}

#[test]
fn fixed4_fraction_is_zero_padded() {
    assert_eq!(fixed4_string(50), "0.0050");
    assert_eq!(fixed4_string(600), "0.0600");
    assert_eq!(fixed4_string(9999), "0.9999");
}

#[test]
fn fixed4_integer_and_fraction() {
    assert_eq!(fixed4_string(10000000), "1000.0000");
    assert_eq!(fixed4_string(123456), "12.3456");
    assert_eq!(fixed4_string(3127), "0.3127");
}

#[test]
fn fixed4_negative() {
    assert_eq!(fixed4_string(-50), "-0.0050");
    assert_eq!(fixed4_string(-123456), "-12.3456");
}

#[test]
fn fixed4_extremes() {
    assert_eq!(fixed4_string(i64::MAX), "922337203685477.5807");
    assert_eq!(fixed4_string(i64::MIN), "-922337203685477.5808");
}
