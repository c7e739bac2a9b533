use tax_engine::currency::Currency;
use tax_engine::decimal::Decimal;
use tax_engine::exchange::{Exchange, PositionRelativeToRange};
use tax_engine::money::{
    init_cad_money, init_usd_money, init_zero_amount, CheckedAdd, CheckedSub, Money, MoneyError, RoundedEq,
};

fn dec(num: i64, scale: u32) -> Decimal {
    Decimal::new(num, scale)
}

fn assert_rounded_eq(lhs: Money, rhs: Money) {
    assert!(lhs.rounded_eq(rhs, 2), "assertion failed! left: {:?}, right: {:?}", lhs, rhs);
}

fn setup() -> Exchange {
    let mut exchange = Exchange::new();
    exchange.set_rate_and_inverse(Currency::USD, Currency::CAD, dec(13, 1)).unwrap();
    exchange
}

fn div(a: Decimal, b: Decimal) -> Decimal {
    a.checked_div(b).unwrap()
}

fn mul(a: Decimal, b: Decimal) -> Decimal {
    a.checked_mul(b).unwrap()
}

#[test]
fn can_determine_positivity() {
    let one_cad = init_cad_money(dec(100, 2));
    let zero_cad = init_cad_money(dec(0, 2));

    assert_eq!(one_cad.is_positive(), true);
    assert_eq!(zero_cad.is_positive(), false);
}

#[test]
fn can_multiply_by_scalar() {
    let one_cad = init_cad_money(dec(100, 2));
    let ten_cad = one_cad.checked_mul_int(10).unwrap();
    let zero_cad = one_cad.checked_mul_int(0).unwrap();

    assert_eq!(ten_cad, init_cad_money(dec(10, 0)));
    assert_eq!(zero_cad, init_cad_money(dec(0, 0)));
}

#[test]
fn can_compare_same_currencies() {
    let one = init_usd_money(dec(100, 2));
    let two = init_usd_money(dec(200, 2));

    assert_eq!(one < two, true);
    assert_eq!(two > one, true);
    assert_eq!(two == one, false);
    assert_eq!(two == two, true);
}

#[test]
fn can_compare_usd_amount_with_greater_cad_amount() {
    let exchange = setup();

    let usd_money = init_usd_money(dec(100, 2));
    let cad_money = init_cad_money(dec(200, 2));

    assert_eq!(exchange.lt(usd_money, cad_money).unwrap(), true);
    assert_eq!(exchange.lte(usd_money, cad_money).unwrap(), true);
    assert_eq!(exchange.eq(usd_money, cad_money).unwrap(), false);
    assert_eq!(exchange.gte(usd_money, cad_money).unwrap(), false);
    assert_eq!(exchange.gt(usd_money, cad_money).unwrap(), false);

    assert_eq!(exchange.lt(cad_money, usd_money).unwrap(), false);
    assert_eq!(exchange.lte(cad_money, usd_money).unwrap(), false);
    assert_eq!(exchange.eq(cad_money, usd_money).unwrap(), false);
    assert_eq!(exchange.gte(cad_money, usd_money).unwrap(), true);
    assert_eq!(exchange.gt(cad_money, usd_money).unwrap(), true);
}

#[test]
fn can_compare_usd_amount_with_less_cad_amount() {
    let exchange = setup();

    let usd_money = init_usd_money(dec(2, 0));
    let cad_money = init_cad_money(dec(1, 0));

    assert_eq!(exchange.lt(usd_money, cad_money).unwrap(), false);
    assert_eq!(exchange.lte(usd_money, cad_money).unwrap(), false);
    assert_eq!(exchange.eq(usd_money, cad_money).unwrap(), false);
    assert_eq!(exchange.gte(usd_money, cad_money).unwrap(), true);
    assert_eq!(exchange.gt(usd_money, cad_money).unwrap(), true);

    assert_eq!(exchange.lt(cad_money, usd_money).unwrap(), true);
    assert_eq!(exchange.lte(cad_money, usd_money).unwrap(), true);
    assert_eq!(exchange.eq(cad_money, usd_money).unwrap(), false);
    assert_eq!(exchange.gte(cad_money, usd_money).unwrap(), false);
    assert_eq!(exchange.gt(cad_money, usd_money).unwrap(), false);
}

#[test]
fn can_compare_usd_amount_with_equal_cad_amount() {
    let exchange = setup();

    let usd_money = init_usd_money(dec(1, 0));
    let cad_money = init_cad_money(dec(13, 1));

    assert_eq!(exchange.lt(usd_money, cad_money).unwrap(), false);
    assert_eq!(exchange.lte(usd_money, cad_money).unwrap(), true);
    assert_eq!(exchange.eq(usd_money, cad_money).unwrap(), true);
    assert_eq!(exchange.gte(usd_money, cad_money).unwrap(), true);
    assert_eq!(exchange.gt(usd_money, cad_money).unwrap(), false);

    assert_eq!(exchange.lt(cad_money, usd_money).unwrap(), false);
    assert_eq!(exchange.lte(cad_money, usd_money).unwrap(), true);
    assert_eq!(exchange.eq(cad_money, usd_money).unwrap(), true);
    assert_eq!(exchange.gte(cad_money, usd_money).unwrap(), true);
    assert_eq!(exchange.gt(cad_money, usd_money).unwrap(), false);
}

#[test]
fn lib_can_clamp_with_value_less_than_range() {
    let exchange = setup();

    let input = init_usd_money(dec(1, 0));
    let min = init_cad_money(dec(2, 0));
    let max = init_cad_money(dec(3, 0));

    let clamped_cad = exchange.clamp(input, min, max, Currency::CAD).unwrap();
    let clamped_usd = exchange.clamp(input, min, max, Currency::USD).unwrap();

    let expected_clamped_cad = init_cad_money(dec(2, 0));
    let expected_clamped_usd_amount = div(mul(dec(2, 0), dec(1, 0)), dec(13, 1));
    let expected_clamped_usd = Money { amount: expected_clamped_usd_amount, currency: Currency::USD };

    assert_rounded_eq(clamped_cad, expected_clamped_cad);
    assert_rounded_eq(clamped_usd, expected_clamped_usd);
}

#[test]
fn lib_can_clamp_with_value_within_range() {
    let exchange = setup();

    let input = init_cad_money(dec(25, 1));
    let min = init_cad_money(dec(2, 0));
    let max = init_cad_money(dec(3, 0));

    let clamped_cad = exchange.clamp(input, min, max, Currency::CAD).unwrap();
    let clamped_usd = exchange.clamp(input, min, max, Currency::USD).unwrap();

    let expected_clamped_cad = init_cad_money(dec(25, 1));
    let expected_usd_amount = mul(dec(25, 1), div(dec(1, 0), dec(13, 1)));
    let expected_clamped_usd = Money { amount: expected_usd_amount, currency: Currency::USD };

    assert_rounded_eq(clamped_cad, expected_clamped_cad);
    assert_rounded_eq(clamped_usd, expected_clamped_usd);
}

#[test]
fn lib_can_clamp_with_value_greater_than_range() {
    let exchange = setup();

    let input = init_cad_money(dec(2, 0));
    let min = init_usd_money(dec(0, 0));
    let max = init_usd_money(dec(5, 1));

    let clamped_cad = exchange.clamp(input, min, max, Currency::CAD).unwrap();
    let clamped_usd = exchange.clamp(input, min, max, Currency::USD).unwrap();

    let expected_clamped_cad = init_cad_money(dec(65, 2));
    let expected_clamped_usd = init_usd_money(dec(5, 1));

    assert_rounded_eq(clamped_cad, expected_clamped_cad);
    assert_rounded_eq(clamped_usd, expected_clamped_usd);
}

#[test]
fn lib_can_add_different_currencies_and_get_converted_result() {
    let exchange = setup();

    let first = init_cad_money(dec(1, 0));
    let second = init_usd_money(dec(1, 0));

    let sum_in_cad = exchange.add(first, second, Currency::CAD).unwrap();
    let sum_in_usd = exchange.add(first, second, Currency::USD).unwrap();

    let sum_without_exchange = first.checked_add(second).unwrap_err();
    assert_eq!(MoneyError::MismatchedCurrencies, sum_without_exchange);

    let expected_cad_sum = init_cad_money(dec(23, 1));
    let expected_usd_sum_amount =
        div(mul(dec(1, 0), dec(1, 0)), dec(13, 1)).checked_add(dec(1, 0)).unwrap();
    let expected_usd_sum = Money { amount: expected_usd_sum_amount, currency: Currency::USD };

    assert_rounded_eq(sum_in_cad, expected_cad_sum);
    assert_rounded_eq(sum_in_usd, expected_usd_sum);
}

#[test]
fn lib_can_add_same_currencies_and_get_converted_result() {
    let exchange = setup();

    let first = init_cad_money(dec(1, 0));
    let second = init_cad_money(dec(1, 0));

    let sum_in_cad = exchange.add(first, second, Currency::CAD).unwrap();
    let sum_in_usd = exchange.add(first, second, Currency::USD).unwrap();
    let sum_without_exchange_unchecked = first.checked_add(second).unwrap();
    let sum_without_exchange_checked = first.checked_add(second).unwrap();

    let expected_cad_sum = init_cad_money(dec(2, 0));
    let expected_usd_sum_amount = mul(div(mul(dec(1, 0), dec(1, 0)), dec(13, 1)), dec(2, 0));
    let expected_usd_sum = Money { amount: expected_usd_sum_amount, currency: Currency::USD };
    assert_eq!(sum_without_exchange_unchecked, expected_cad_sum);
    assert_eq!(sum_without_exchange_checked, expected_cad_sum);

    assert_rounded_eq(sum_in_cad, expected_cad_sum);
    assert_rounded_eq(sum_in_usd, expected_usd_sum);
}

#[test]
fn lib_can_subtract_different_currencies_and_get_converted_result() {
    let exchange = setup();

    let first = init_cad_money(dec(2, 0));
    let second = init_usd_money(dec(1, 0));

    let diff_in_cad = exchange.sub(first, second, Currency::CAD).unwrap();
    let diff_in_usd = exchange.sub(first, second, Currency::USD).unwrap();
    let diff_without_exchange = first.checked_sub(second).unwrap_err();

    let expected_cad_diff = init_cad_money(dec(7, 1));
    let expected_usd_diff_amount =
        div(mul(dec(2, 0), dec(1, 0)), dec(13, 1)).checked_sub(dec(1, 0)).unwrap();
    let expected_usd_diff = Money { amount: expected_usd_diff_amount, currency: Currency::USD };

    assert_eq!(diff_without_exchange, MoneyError::MismatchedCurrencies);
    assert_rounded_eq(diff_in_cad, expected_cad_diff);
    assert_rounded_eq(diff_in_usd, expected_usd_diff);
}

#[test]
fn lib_can_subtract_same_currencies_and_get_converted_result() {
    let exchange = setup();

    let first = init_cad_money(dec(2, 0));
    let second = init_cad_money(dec(1, 0));

    let diff_in_cad = exchange.sub(first, second, Currency::CAD).unwrap();
    let diff_in_usd = exchange.sub(first, second, Currency::USD).unwrap();
    let diff_without_exchange_checked = first.checked_sub(second).unwrap();
    let diff_without_exchange_unchecked = first.checked_sub(second).unwrap();

    let expected_cad_diff = init_cad_money(dec(1, 0));
    let expected_usd_diff_amount = mul(dec(1, 0), div(dec(1, 0), dec(13, 1)));
    let expected_usd_diff = Money { amount: expected_usd_diff_amount, currency: Currency::USD };

    assert_rounded_eq(diff_in_cad, expected_cad_diff);
    assert_rounded_eq(diff_in_usd, expected_usd_diff);
    assert_eq!(diff_without_exchange_checked, expected_cad_diff);
    assert_eq!(diff_without_exchange_unchecked, expected_cad_diff);
}

#[test]
fn add_then_subtract_gives_back_the_first_amount() {
    let a = init_cad_money(dec(12345, 2));
    let b = init_cad_money(dec(-7, 1));
    let sum = a.checked_add(b).unwrap();
    assert_eq!(sum, init_cad_money(dec(12275, 2)));
    assert_eq!(sum.checked_sub(b).unwrap(), a);
}

#[test]
fn decimal_arithmetic_is_exact_where_it_fits() {
    assert_eq!(dec(15, 1).checked_add(dec(25, 2)).unwrap(), dec(175, 2));
    assert_eq!(dec(15, 1).checked_sub(dec(25, 2)).unwrap(), dec(125, 2));
    assert_eq!(dec(15, 1).checked_mul(dec(3, 0)).unwrap(), dec(45, 1));
    assert_eq!(dec(1, 0).checked_div(dec(4, 0)).unwrap(), dec(25, 2));
    assert_eq!(dec(1, 0).checked_div(dec(0, 0)), None);
    assert_eq!(dec(12345, 3).round_dp(2), dec(1234, 2));
    assert_eq!(dec(12355, 3).round_dp(2), dec(1236, 2));
    assert!(dec(1, 1).lt(&dec(2, 1)));
    assert!(dec(10, 1) == dec(1, 0));
}

#[test]
fn decimal_overflow_is_reported() {
    let max = Decimal::from_i128_with_scale(79228162514264337593543950335, 0);
    assert_eq!(max.checked_add(dec(1, 0)), None);
    assert_eq!(init_cad_money(max).checked_add(init_cad_money(dec(1, 0))), Err(MoneyError::InvalidAmount));
}

#[test]
fn get_rate_is_one_between_a_currency_and_itself() {
    let exchange = Exchange::new();
    assert_eq!(exchange.get_rate(Currency::EUR, Currency::EUR).unwrap(), dec(1, 0));
    assert_eq!(exchange.get_rate(Currency::EUR, Currency::USD), Err(MoneyError::CouldNotFindExchangeRate));
    assert_eq!(
        exchange.convert(init_cad_money(dec(1, 0)), Currency::USD),
        Err(MoneyError::CouldNotFindExchangeRate)
    );
}

#[test]
fn set_rate_records_one_direction_and_replaces() {
    let mut exchange = Exchange::new();
    exchange.set_rate(Currency::USD, Currency::CAD, dec(13, 1));
    exchange.set_rate(Currency::USD, Currency::CAD, dec(14, 1));
    assert_eq!(exchange.get_rate(Currency::USD, Currency::CAD).unwrap(), dec(14, 1));
    assert_eq!(exchange.get_rate(Currency::CAD, Currency::USD), Err(MoneyError::CouldNotFindExchangeRate));
    let converted = exchange.convert(init_usd_money(dec(10, 0)), Currency::CAD).unwrap();
    assert_eq!(converted, init_cad_money(dec(14, 0)));
}

#[test]
fn set_rate_and_inverse_refuses_a_rate_that_is_not_positive() {
    let mut exchange = Exchange::new();
    assert_eq!(exchange.set_rate_and_inverse(Currency::USD, Currency::CAD, dec(0, 0)), Err(MoneyError::InvalidRatio));
    assert_eq!(exchange.set_rate_and_inverse(Currency::USD, Currency::CAD, dec(-2, 0)), Err(MoneyError::InvalidRatio));
    assert_eq!(exchange.get_rate(Currency::USD, Currency::CAD), Err(MoneyError::CouldNotFindExchangeRate));
}

#[test]
fn conversion_round_trip_through_an_inverse_rate() {
    let mut exchange = Exchange::new();
    exchange.set_rate_and_inverse(Currency::USD, Currency::CAD, dec(4, 0)).unwrap();
    assert_eq!(exchange.get_rate(Currency::CAD, Currency::USD).unwrap(), dec(25, 2));
    let m = init_usd_money(dec(1234, 2));
    let there = exchange.convert(m, Currency::CAD).unwrap();
    assert_eq!(there, init_cad_money(dec(4936, 2)));
    let back = exchange.convert(there, Currency::USD).unwrap();
    assert_eq!(back, m);
}

#[test]
fn clamp_position_is_half_open() {
    let exchange = setup();
    let lo = init_cad_money(dec(2, 0));
    let hi = init_cad_money(dec(3, 0));
    assert_eq!(exchange.position_relative_to_range(lo, lo, hi).unwrap(), PositionRelativeToRange::WithinRange);
    assert_eq!(exchange.position_relative_to_range(hi, lo, hi).unwrap(), PositionRelativeToRange::AfterRange);
    assert_eq!(exchange.clamp(hi, lo, hi, Currency::CAD).unwrap(), hi);
}

#[test]
fn money_division_and_rounded_equality() {
    let a = init_cad_money(dec(3, 0));
    let b = init_cad_money(dec(4, 0));
    assert_eq!(a.checked_div(b).unwrap(), dec(75, 2));
    assert_eq!(a.checked_div(init_usd_money(dec(4, 0))), Err(MoneyError::MismatchedCurrencies));
    assert_eq!(a.checked_div(init_zero_amount(Currency::CAD)), Err(MoneyError::InvalidAmount));
    assert!(init_cad_money(dec(1001, 3)).rounded_eq(init_cad_money(dec(1, 0)), 2));
    assert!(!init_cad_money(dec(1, 0)).rounded_eq(init_usd_money(dec(1, 0)), 2));
    assert_eq!(init_cad_money(dec(3, 0)).neg(), init_cad_money(dec(-3, 0)));
}

#[test]
fn currency_metadata_is_looked_up() {
    let usd = Currency::USD.match_currency_to_data();
    assert_eq!(usd.exponent, 2);
    assert_eq!(usd.symbol, "$");
    assert!(usd.symbol_first);
    let jpy = Currency::JPY.match_currency_to_data();
    assert_eq!(jpy.exponent, 0);
    let eur = Currency::EUR.match_currency_to_data();
    assert_eq!(eur.locale, tax_engine::currency::Locale::EU);
}

#[test]
fn currency_format_follows_symbol_position_and_locale() {
    let usd = Currency::USD.currency_format();
    assert_eq!(usd.format_positive, "{symbol}{value}");
    assert_eq!(usd.format_negative, "{symbol}({value})");
    assert_eq!(usd.format_zero, "{symbol}0.00");
    assert_eq!(usd.thousand_str, ",");
    assert_eq!(usd.decimal_str, Some("."));
    let eur = Currency::EUR.currency_format();
    assert_eq!(eur.format_zero, "{symbol}0,00");
    assert_eq!(eur.thousand_str, ".");
    assert_eq!(eur.decimal_str, Some(","));
    let aed = Currency::AED.currency_format();
    assert_eq!(aed.format_positive, "{value}{symbol}");
    assert_eq!(aed.format_zero, "0.00{symbol}");
    let pln = Currency::PLN.currency_format();
    assert_eq!(pln.thousand_str, " ");
    assert_eq!(pln.decimal_str, None);
}

#[test]
fn conversion_round_trip_is_close_with_an_inexact_inverse() {
    let exchange = setup();
    let m = init_usd_money(dec(1234, 2));
    let there = exchange.convert(m, Currency::CAD).unwrap();
    assert_eq!(there, init_cad_money(dec(16042, 3)));
    let back = exchange.convert(there, Currency::USD).unwrap();
    assert!(back.rounded_eq(m, 20));
}
