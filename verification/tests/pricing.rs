use fraction_presale::clock::seconds;
use fraction_presale::errors::PresaleError;
use fraction_presale::pricing::{payment_amount, SCALE};

#[test]
fn scale_is_ten_to_the_ninth() {
    assert_eq!(SCALE, 1_000_000_000);
}

#[test]
fn five_fractions_at_two_cost_ten() {
    assert_eq!(payment_amount(2_000_000_000, 5), Ok(10));
}

#[test]
fn payment_is_rounded_down() {
    assert_eq!(payment_amount(1_500_000_000, 3), Ok(4));
    assert_eq!(payment_amount(999_999_999, 1), Ok(0));
    assert_eq!(payment_amount(1, 999_999_999), Ok(0));
    assert_eq!(payment_amount(1, 1_000_000_000), Ok(1));
}

#[test]
fn nothing_costs_nothing() {
    assert_eq!(payment_amount(2_000_000_000, 0), Ok(0));
    assert_eq!(payment_amount(0, 7), Ok(0));
}

#[test]
fn payment_at_unit_price_is_the_amount() {
    assert_eq!(payment_amount(SCALE, u64::MAX), Ok(u64::MAX));
    assert_eq!(payment_amount(u64::MAX, SCALE), Ok(u64::MAX));
}

#[test]
fn payment_beyond_sixty_four_bits_is_an_error() {
    assert_eq!(payment_amount(u64::MAX, u64::MAX), Err(PresaleError::NumericalOverflowError));
    assert_eq!(payment_amount(SCALE + 1, u64::MAX), Err(PresaleError::NumericalOverflowError));
    assert_eq!(payment_amount(u64::MAX, SCALE + 1), Err(PresaleError::NumericalOverflowError));
}

#[test]
fn largest_payment_that_fits() {
    // floor(u64::MAX * 999_999_999 / 1e9) = 18_446_744_055_262_807_541
    assert_eq!(payment_amount(u64::MAX, 999_999_999), Ok(18_446_744_055_262_807_541));
}

#[test]
fn clock_readings_from_the_epoch_on_are_kept() {
    assert_eq!(seconds(0), 0);
    assert_eq!(seconds(1_700_000_000), 1_700_000_000);
    assert_eq!(seconds(i64::MAX), 9_223_372_036_854_775_807);
}

#[test]
fn clock_readings_before_the_epoch_read_as_unsigned() {
    assert_eq!(seconds(-1), u64::MAX);
    assert_eq!(seconds(i64::MIN), 9_223_372_036_854_775_808);
}
