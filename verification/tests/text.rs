use auth_core::text::join;
use auth_core::text::decimal;

#[test]
fn decimal_of_zero_is_one_digit() {
    assert_eq!(decimal(0), "0");
}

#[test]
fn decimal_of_single_digits() {
    assert_eq!(decimal(7), "7");
    assert_eq!(decimal(9), "9");
}

#[test]
fn decimal_has_no_leading_zeros() {
    assert_eq!(decimal(10), "10");
    assert_eq!(decimal(100), "100");
    assert_eq!(decimal(1_000_204), "1000204");
}

#[test]
fn decimal_of_negative_numbers_starts_with_minus() {
    assert_eq!(decimal(-1), "-1");
    assert_eq!(decimal(-42), "-42");
    assert_eq!(decimal(-1_209_600), "-1209600");
}

#[test]
fn decimal_of_the_extremes() {
    assert_eq!(decimal(i64::MAX), "9223372036854775807");
    assert_eq!(decimal(i64::MIN), "-9223372036854775808");
}

#[test]
fn decimal_agrees_with_display() {
    let samples: [i64; 9] = [0, 1, -1, 19, -20, 123_456_789, -987_654_321, i64::MAX, i64::MIN];
    for n in samples {
        assert_eq!(decimal(n), format!("{}", n));
    }
}

#[test]
fn join_joins_in_order() {
    assert_eq!(join("refresh_token:", "abc"), "refresh_token:abc");
    assert_eq!(join("", "abc"), "abc");
    assert_eq!(join("abc", ""), "abc");
    assert_eq!(join("", ""), "");
}

#[test]
fn join_keeps_non_ascii_text() {
    assert_eq!(join("pässwörd", "Zz9"), "pässwördZz9");
}
