use forward_markets::text::decimal_string;
use forward_markets::{fee_amount, mul_div, settlement_factor, share_payout, SCALE};

const ONE: u128 = 1_000_000_000_000_000_000_000_000;

#[test]
fn test_settlement_factor_calculation() {
    let lower = 30_000_000_000_000_000_000_000_000u128;
    let upper = 70_000_000_000_000_000_000_000_000u128;
    let one = 1_000_000_000_000_000_000_000_000u128;

    assert_eq!(settlement_factor(lower, upper, 20_000_000_000_000_000_000_000_000), 0);

    assert_eq!(settlement_factor(lower, upper, 30_000_000_000_000_000_000_000_000), 0);

    assert_eq!(
        settlement_factor(lower, upper, 50_000_000_000_000_000_000_000_000),
        500_000_000_000_000_000_000_000
    );

    assert_eq!(settlement_factor(lower, upper, 70_000_000_000_000_000_000_000_000), one);

    assert_eq!(settlement_factor(lower, upper, 80_000_000_000_000_000_000_000_000), one);
}

#[test]
fn test_fee_calculations() {
    let amount = 1_000_000_000_000_000_000_000_000u128;

    let mint_fee = fee_amount(amount, 30);
    assert_eq!(mint_fee, 3_000_000_000_000_000_000_000);

    let settle_fee = fee_amount(amount, 50);
    assert_eq!(settle_fee, 5_000_000_000_000_000_000_000);

    let redeem_fee = fee_amount(amount, 20);
    assert_eq!(redeem_fee, 2_000_000_000_000_000_000_000);
}

#[test]
fn scale_is_ten_to_the_twenty_fourth() {
    assert_eq!(SCALE, 10u128.pow(24));
}

#[test]
fn mul_div_rounds_down() {
    assert_eq!(mul_div(7, 3, 2), Some(10));
    assert_eq!(mul_div(1, 1, 3), Some(0));
    assert_eq!(mul_div(0, 5, 3), Some(0));
    assert_eq!(mul_div(5, 0, 3), Some(0));
}

#[test]
fn mul_div_is_exact_where_the_product_exceeds_128_bits() {
    assert_eq!(mul_div(u128::MAX, u128::MAX, u128::MAX), Some(u128::MAX));
    assert_eq!(mul_div(u128::MAX, 1 << 100, 1 << 100), Some(u128::MAX));
    assert_eq!(mul_div(20 * ONE, ONE, 40 * ONE), Some(ONE / 2));
    // (2^127 + 1) * 6 / 4 = 3 * 2^126 + 1, remainder 2
    assert_eq!(mul_div((1 << 127) + 1, 6, 4), Some(3 * (1 << 126) + 1));
}

#[test]
fn mul_div_refuses_a_zero_divisor_and_a_quotient_too_large() {
    assert_eq!(mul_div(1, 1, 0), None);
    assert_eq!(mul_div(0, 0, 0), None);
    assert_eq!(mul_div(u128::MAX, 2, 1), None);
    assert_eq!(mul_div(u128::MAX, u128::MAX, u128::MAX - 1), None);
    assert_eq!(mul_div(1 << 127, 2, 1), None);
    assert_eq!(mul_div((1 << 127) - 1, 2, 1), Some(u128::MAX - 1));
}

#[test]
fn factor_is_zero_up_to_the_lower_bound_and_whole_from_the_upper_bound() {
    let lower = 30 * ONE;
    let upper = 70 * ONE;
    assert_eq!(settlement_factor(lower, upper, 0), 0);
    assert_eq!(settlement_factor(lower, upper, lower), 0);
    assert_eq!(settlement_factor(lower, upper, upper), SCALE);
    assert_eq!(settlement_factor(lower, upper, u128::MAX), SCALE);
    assert_eq!(settlement_factor(lower, upper, lower + 1), 0);
    assert_eq!(settlement_factor(lower, upper, upper - 1), SCALE - 1);
}

#[test]
fn factor_increases_strictly_inside_a_band_no_wider_than_scale() {
    let lower = 5u128;
    let upper = lower + SCALE;
    assert_eq!(settlement_factor(lower, upper, lower + 1), 1);
    assert_eq!(settlement_factor(lower, upper, lower + 2), 2);
    assert_eq!(settlement_factor(lower, upper, upper - 1), SCALE - 1);
    let narrow_upper = lower + 3;
    let first = settlement_factor(lower, narrow_upper, lower + 1);
    let second = settlement_factor(lower, narrow_upper, lower + 2);
    assert_eq!(first, 333_333_333_333_333_333_333_333);
    assert_eq!(second, 666_666_666_666_666_666_666_666);
    assert!(0 < first && first < second && second < SCALE);
}

#[test]
fn factor_only_never_decreases_inside_a_band_wider_than_scale() {
    let upper = 3 * ONE;
    assert_eq!(settlement_factor(0, upper, 1), 0);
    assert_eq!(settlement_factor(0, upper, 2), 0);
    assert_eq!(settlement_factor(0, upper, 3), 1);
}

#[test]
fn a_pair_pays_out_its_amount_where_nothing_is_rounded() {
    let factor = ONE / 2;
    let long = share_payout(ONE, factor);
    let short = share_payout(ONE, SCALE - factor);
    assert_eq!(long, ONE / 2);
    assert_eq!(long + short, ONE);
    assert_eq!(share_payout(12345, 0) + share_payout(12345, SCALE), 12345);
    assert_eq!(share_payout(12345, SCALE) + share_payout(12345, 0), 12345);
}

#[test]
fn a_pair_loses_one_unit_where_the_long_payout_is_rounded() {
    let factor = ONE / 2;
    assert_eq!(share_payout(1, factor), 0);
    assert_eq!(share_payout(1, SCALE - factor), 0);
    let third = ONE / 3;
    assert_eq!(share_payout(10, third) + share_payout(10, SCALE - third), 9);
}

#[test]
fn payout_of_the_largest_amount_does_not_overflow() {
    assert_eq!(share_payout(u128::MAX, SCALE), u128::MAX);
    assert_eq!(share_payout(u128::MAX, 0), 0);
    assert_eq!(share_payout(u128::MAX, SCALE / 2), u128::MAX / 2);
}

#[test]
fn fee_is_rounded_down_and_never_more_than_the_amount() {
    assert_eq!(fee_amount(9_999, 1), 0);
    assert_eq!(fee_amount(10_000, 1), 1);
    assert_eq!(fee_amount(19_999, 1), 1);
    assert_eq!(fee_amount(12_345, 0), 0);
    assert_eq!(fee_amount(12_345, 10_000), 12_345);
    assert_eq!(fee_amount(u128::MAX, 10_000), u128::MAX);
    assert_eq!(fee_amount(u128::MAX, 5_000), u128::MAX / 2);
}

#[test]
fn decimal_string_writes_numerals_without_leading_zeros() {
    assert_eq!(decimal_string(0), "0");
    assert_eq!(decimal_string(9), "9");
    assert_eq!(decimal_string(10), "10");
    assert_eq!(decimal_string(1_700_000_000), "1700000000");
    assert_eq!(decimal_string(u128::MAX), "340282366920938463463374607431768211455");
}
