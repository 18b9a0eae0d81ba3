use notify_relay::text::{decimal_text, percent_text, price_text, signed_decimal_text};

#[test]
fn decimal_text_writes_digits_without_leading_zeros() {
    assert_eq!(decimal_text(0), "0");
    assert_eq!(decimal_text(7), "7");
    assert_eq!(decimal_text(10), "10");
    assert_eq!(decimal_text(1_234_567_890), "1234567890");
    assert_eq!(decimal_text(u128::MAX), "340282366920938463463374607431768211455");
}

#[test]
fn signed_decimal_text_puts_a_minus_before_negative_numbers() {
    assert_eq!(signed_decimal_text(0), "0");
    assert_eq!(signed_decimal_text(42), "42");
    assert_eq!(signed_decimal_text(-1), "-1");
    assert_eq!(signed_decimal_text(i128::MAX), "170141183460469231731687303715884105727");
    assert_eq!(signed_decimal_text(i128::MIN), "-170141183460469231731687303715884105728");
}

#[test]
fn percent_text_drops_trailing_zeros() {
    assert_eq!(percent_text(0), "0");
    assert_eq!(percent_text(1500), "15");
    assert_eq!(percent_text(1520), "15.2");
    assert_eq!(percent_text(1525), "15.25");
    assert_eq!(percent_text(1505), "15.05");
    assert_eq!(percent_text(5), "0.05");
    assert_eq!(percent_text(50), "0.5");
    assert_eq!(percent_text(-1525), "-15.25");
    assert_eq!(percent_text(-50), "-0.5");
    assert_eq!(percent_text(-10_000), "-100");
    assert_eq!(percent_text(i128::MIN), "-1701411834604692317316873037158841057.28");
}

#[test]
fn price_text_has_up_to_twelve_decimals() {
    assert_eq!(price_text(0), "0");
    assert_eq!(price_text(1), "0.000000000001");
    assert_eq!(price_text(12_340_000), "0.00001234");
    assert_eq!(price_text(1_000_000_000_000), "1");
    assert_eq!(price_text(1_500_000_000_000), "1.5");
    assert_eq!(price_text(43_210_550_000_000_000), "43210.55");
    assert_eq!(price_text(u64::MAX), "18446744.073709551615");
}
