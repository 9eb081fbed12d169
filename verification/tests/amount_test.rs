use tren::amount::{Amount, MAX_MANTISSA, MAX_SCALE};

#[test]
fn amounts_are_made_within_range_only() {
    assert!(Amount::new(0, 0).is_some());
    assert!(Amount::new(MAX_MANTISSA, MAX_SCALE).is_some());
    assert!(Amount::new(-MAX_MANTISSA, 0).is_some());
    assert!(Amount::new(MAX_MANTISSA + 1, 0).is_none());
    assert!(Amount::new(-MAX_MANTISSA - 1, 0).is_none());
    assert!(Amount::new(1, MAX_SCALE + 1).is_none());
    assert!(Amount::new(i128::MAX, 0).is_none());
    assert!(Amount::new(i128::MIN, u32::MAX).is_none());
}

#[test]
fn amount_keeps_its_mantissa_and_scale() {
    let amount = Amount::new(-12345678, 7).unwrap();
    assert_eq!(amount.mantissa(), -12345678);
    assert_eq!(amount.scale(), 7);
    assert_eq!(MAX_MANTISSA, 79_228_162_514_264_337_593_543_950_335);
    assert_eq!(MAX_SCALE, 28);
}

#[test]
fn zero_and_default_are_the_same_amount() {
    let zero = Amount::zero();
    assert_eq!(zero.mantissa(), 0);
    assert_eq!(zero.scale(), 0);
    assert_eq!(Amount::default(), zero);
    assert_eq!(Amount::new(0, 5).unwrap(), zero);
}

#[test]
fn equality_compares_numbers_not_digits() {
    let short = Amount::new(15, 1).unwrap();
    let long = Amount::new(1500, 3).unwrap();
    assert_eq!(short, long);
    assert_ne!(short, Amount::new(15, 2).unwrap());
    assert_ne!(short, Amount::new(-15, 1).unwrap());
    assert_ne!(short.scale(), long.scale());
}

#[test]
fn amount_agrees_with_the_decimal_it_stands_for() {
    let amount = Amount::new(3141, 3).unwrap();
    let decimal = rust_decimal::Decimal::from_i128_with_scale(amount.mantissa(), amount.scale());
    assert_eq!(decimal.to_string(), "3.141");
    assert_eq!(decimal.mantissa(), 3141);
    assert_eq!(decimal.scale(), 3);
}
