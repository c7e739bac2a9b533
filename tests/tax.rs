use tax_engine::currency::Currency;
use tax_engine::decimal::Decimal;
use tax_engine::money::{init_cad_money, init_usd_money, Money};
use tax_engine::regime::TaxRegime;
use tax_engine::schedule::TaxSchedule;
use tax_engine::tax::{
    ClaimStrategy, Income, TaxBracket, TaxCalculation, TaxCreditClaim, TaxCreditRule,
    TaxDeductionClaim, TaxDeductionRule, TaxError,
};

fn dec(num: i64, scale: u32) -> Decimal {
    Decimal::new(num, scale)
}

fn cad_money(num: i64) -> Money {
    init_cad_money(dec(num, 0))
}

fn usd_money(num: i64) -> Money {
    init_usd_money(dec(num, 0))
}

fn three_brackets(rates: [i64; 3]) -> Vec<TaxBracket> {
    let lowest = TaxBracket { min_money: cad_money(0), max_money: Some(cad_money(10_000)), rate: dec(rates[0], 2) };
    let middle = TaxBracket { min_money: cad_money(10_000), max_money: Some(cad_money(20_000)), rate: dec(rates[1], 2) };
    let highest = TaxBracket { min_money: cad_money(20_000), max_money: None, rate: dec(rates[2], 2) };
    vec![lowest, middle, highest]
}

fn deduction_claim(id: &str, amount: i64) -> TaxDeductionClaim {
    TaxDeductionClaim { tax_deduction_identifier: String::from(id), money_to_deduct: cad_money(amount) }
}

#[test]
fn calculate_tax_without_deductions_and_credits_with_three_brackets() {
    let schedule = TaxSchedule::new("TEST", three_brackets([10, 20, 30]), Currency::CAD, dec(5, 1)).unwrap();

    let twenty_five_thousand_employment_income = Income::Employment(cad_money(25_000));
    let fifteen_thousand_employment_income = Income::Employment(cad_money(15_000));
    let five_thousand_employment_income = Income::Employment(cad_money(5_000));
    let five_thousand_capital_gains = Income::CapitalGains(cad_money(5_000));

    let over_highest_tax = schedule.calculate_tax_result(vec![twenty_five_thousand_employment_income], vec![], vec![]).unwrap();
    assert_eq!(over_highest_tax, TaxCalculation::Liability(cad_money(4_500)));

    let over_highest_tax_with_capital_gains = schedule
        .calculate_tax_result(vec![twenty_five_thousand_employment_income, five_thousand_capital_gains], vec![], vec![])
        .unwrap();
    assert_eq!(over_highest_tax_with_capital_gains, TaxCalculation::Liability(cad_money(5_250)));

    let middle_tax = schedule.calculate_tax_result(vec![fifteen_thousand_employment_income], vec![], vec![]).unwrap();
    assert_eq!(middle_tax, TaxCalculation::Liability(cad_money(2_000)));

    let lowest_tax = schedule.calculate_tax_result(vec![five_thousand_employment_income], vec![], vec![]).unwrap();
    assert_eq!(lowest_tax, TaxCalculation::Liability(cad_money(500)));
}

#[test]
fn calculate_tax_without_deductions_and_credits_with_single_bracket() {
    let lowest = TaxBracket { min_money: cad_money(0), max_money: Some(cad_money(10_000)), rate: dec(1, 1) };

    let schedule = TaxSchedule::new("TEST", vec![lowest], Currency::CAD, dec(5, 1)).unwrap();
    let employment_income = Income::Employment(cad_money(10_000));
    let capital_gains = Income::CapitalGains(cad_money(10_000));

    let tax_on_employment_income = schedule.calculate_tax_result(vec![employment_income], vec![], vec![]).unwrap();
    let tax_on_capital_gains_and_employment_income =
        schedule.calculate_tax_result(vec![employment_income, capital_gains], vec![], vec![]).unwrap();

    assert_eq!(tax_on_employment_income, TaxCalculation::Liability(cad_money(1000)));
    assert_eq!(tax_on_capital_gains_and_employment_income, TaxCalculation::Liability(cad_money(1000)));
}

#[test]
fn calculate_tax_without_deductions_and_credits_with_single_bracket_without_max() {
    let lowest = TaxBracket { min_money: cad_money(0), max_money: None, rate: dec(1, 1) };

    let schedule = TaxSchedule::new("TEST", vec![lowest], Currency::CAD, dec(5, 1)).unwrap();
    let employment_income = Income::Employment(cad_money(10_000));
    let capital_gains = Income::CapitalGains(cad_money(10_000));

    let tax_on_employment_income = schedule.calculate_tax_result(vec![employment_income], vec![], vec![]).unwrap();
    let tax_on_capital_gains_and_employment_income =
        schedule.calculate_tax_result(vec![employment_income, capital_gains], vec![], vec![]).unwrap();

    assert_eq!(tax_on_employment_income, TaxCalculation::Liability(cad_money(1000)));
    assert_eq!(tax_on_capital_gains_and_employment_income, TaxCalculation::Liability(cad_money(1500)));
}

#[test]
fn bracket_and_schedule_with_currencies_that_dont_match_fails() {
    let invalid = TaxBracket::new(cad_money(0), Some(usd_money(1)), dec(1, 1)).unwrap_err();

    assert_eq!(invalid, TaxError::MismatchedCurrencies);

    let valid_bracket = TaxBracket::new(cad_money(0), None, dec(1, 1)).unwrap();
    let invalid_schedule = TaxSchedule::new("TEST", vec![valid_bracket], Currency::USD, dec(5, 1)).err().unwrap();

    assert_eq!(invalid_schedule, TaxError::MismatchedCurrencies);
}

#[test]
fn many_bracket_with_deductions_and_credits() {
    let rrsp_deduction_max = TaxDeductionRule {
        tax_deduction_identifier: String::from("RRSP_MAX"),
        claim_strategy: ClaimStrategy::Max(cad_money(5_000)),
    };
    let rrsp_deduction_min = TaxDeductionRule {
        tax_deduction_identifier: String::from("RRSP_MIN"),
        claim_strategy: ClaimStrategy::Min(cad_money(5_000)),
    };
    let rrsp_deduction_exact = TaxDeductionRule {
        tax_deduction_identifier: String::from("RRSP_EXACT"),
        claim_strategy: ClaimStrategy::ExactAmount(cad_money(5_000)),
    };
    let rrsp_deduction_range = TaxDeductionRule {
        tax_deduction_identifier: String::from("RRSP_RANGE"),
        claim_strategy: ClaimStrategy::Range(cad_money(2_500), cad_money(5_000)),
    };

    let mut schedule = TaxSchedule::new("TEST", three_brackets([10, 20, 30]), Currency::CAD, dec(5, 1)).unwrap();

    schedule.add_deduction(rrsp_deduction_max);
    schedule.add_deduction(rrsp_deduction_min);
    schedule.add_deduction(rrsp_deduction_exact);
    schedule.add_deduction(rrsp_deduction_range);

    let employment_income = Income::Employment(cad_money(25_000));
    let run = |claim: TaxDeductionClaim| schedule.calculate_tax_result(vec![employment_income], vec![claim], vec![]);

    assert_eq!(run(deduction_claim("RRSP_MAX", 5_000)).unwrap(), TaxCalculation::Liability(cad_money(3_000)));
    assert_eq!(run(deduction_claim("RRSP_MAX", 2_500)).unwrap(), TaxCalculation::Liability(cad_money(3_750)));
    assert_eq!(run(deduction_claim("RRSP_MAX", 6_000)).unwrap_err(), TaxError::ClaimDidNotMatchStrategy);

    assert_eq!(run(deduction_claim("RRSP_MIN", 5_000)).unwrap(), TaxCalculation::Liability(cad_money(3_000)));
    assert_eq!(run(deduction_claim("RRSP_MIN", 6_000)).unwrap(), TaxCalculation::Liability(cad_money(2_800)));
    assert_eq!(run(deduction_claim("RRSP_MIN", 2_500)).unwrap_err(), TaxError::ClaimDidNotMatchStrategy);

    assert_eq!(run(deduction_claim("RRSP_EXACT", 5_000)).unwrap(), TaxCalculation::Liability(cad_money(3_000)));
    assert_eq!(run(deduction_claim("RRSP_EXACT", 5_001)).unwrap_err(), TaxError::ClaimDidNotMatchStrategy);

    assert_eq!(run(deduction_claim("RRSP_RANGE", 5_000)).unwrap(), TaxCalculation::Liability(cad_money(3_000)));
    assert_eq!(run(deduction_claim("RRSP_RANGE", 3_000)).unwrap(), TaxCalculation::Liability(cad_money(3_600)));
    assert_eq!(run(deduction_claim("RRSP_RANGE", 2_500)).unwrap(), TaxCalculation::Liability(cad_money(3_750)));
    assert_eq!(run(deduction_claim("RRSP_RANGE", 1_000)).unwrap_err(), TaxError::ClaimDidNotMatchStrategy);
    assert_eq!(run(deduction_claim("RRSP_RANGE", 6_000)).unwrap_err(), TaxError::ClaimDidNotMatchStrategy);

    let non_refundable_full_credit = TaxCreditRule {
        tax_credit_identifier: String::from("NON_REFUNDABLE_FULL_CREDIT"),
        claim_strategy: ClaimStrategy::ExactAmount(cad_money(25_000)),
        refundable: false,
    };
    let refundable_full_credit = TaxCreditRule {
        tax_credit_identifier: String::from("REFUNDABLE_FULL_CREDIT"),
        claim_strategy: ClaimStrategy::ExactAmount(cad_money(25_000)),
        refundable: true,
    };

    schedule.add_credit(non_refundable_full_credit);
    schedule.add_credit(refundable_full_credit);

    let non_refundable_full_credit_claim = TaxCreditClaim {
        tax_credit_identifier: String::from("NON_REFUNDABLE_FULL_CREDIT"),
        money_to_credit: cad_money(25_000),
    };
    let refundable_full_credit_claim = TaxCreditClaim {
        tax_credit_identifier: String::from("REFUNDABLE_FULL_CREDIT"),
        money_to_credit: cad_money(25_000),
    };

    let non_refundable_full_credit_claim_result = schedule
        .calculate_tax_result(vec![employment_income], vec![deduction_claim("RRSP_EXACT", 5_000)], vec![non_refundable_full_credit_claim])
        .unwrap();
    let refundable_full_credit_claim_result = schedule
        .calculate_tax_result(vec![employment_income], vec![deduction_claim("RRSP_EXACT", 5_000)], vec![refundable_full_credit_claim])
        .unwrap();

    assert_eq!(non_refundable_full_credit_claim_result, TaxCalculation::Refund(cad_money(0)));
    assert_eq!(refundable_full_credit_claim_result, TaxCalculation::Refund(cad_money(22_000)));
}

fn two_schedule_regime() -> TaxRegime {
    let mut regime = TaxRegime::new();
    let first_schedule = TaxSchedule::new("FIRST", three_brackets([10, 20, 30]), Currency::CAD, dec(5, 1)).unwrap();
    let second_schedule = TaxSchedule::new("SECOND", three_brackets([20, 30, 40]), Currency::CAD, dec(75, 2)).unwrap();
    regime.add_schedule(first_schedule).unwrap();
    regime.add_schedule(second_schedule).unwrap();
    regime
}

#[test]
fn tax_regime_with_two_schedules() {
    let regime = two_schedule_regime();

    let employment_income = Income::Employment(cad_money(25_000));
    let capital_gains_income = Income::CapitalGains(cad_money(25_000));

    let calc_result_with_no_cap_gains = regime.calculate_tax(vec![employment_income], vec![], vec![]).unwrap();
    let calc_result_with_cap_gains =
        regime.calculate_tax(vec![employment_income, capital_gains_income], vec![], vec![]).unwrap();

    // (max - min) * rate for every crossed bracket: 4_500 + 7_000.
    assert_eq!(calc_result_with_no_cap_gains.total_result, TaxCalculation::Liability(cad_money(11_500)));
    assert_eq!(calc_result_with_no_cap_gains.marginal_tax_rate, dec(7, 1));
    assert_eq!(calc_result_with_no_cap_gains.average_tax_rate, dec(46, 2));

    // Taxable 37_500 under the first schedule, 43_750 under the second: 8_250 + 14_500.
    assert_eq!(calc_result_with_cap_gains.total_result, TaxCalculation::Liability(cad_money(22_750)));
    assert_eq!(calc_result_with_cap_gains.marginal_tax_rate, dec(7, 1));
    assert_eq!(calc_result_with_cap_gains.average_tax_rate, dec(455, 3));

    let middle_employment_income = Income::Employment(cad_money(15_000));
    let low_employment_income = Income::Employment(cad_money(5_000));

    let calc_result_with_middle_income = regime.calculate_tax(vec![middle_employment_income], vec![], vec![]).unwrap();
    let calc_result_with_low_income = regime.calculate_tax(vec![low_employment_income], vec![], vec![]).unwrap();

    assert_eq!(calc_result_with_middle_income.total_result, TaxCalculation::Liability(cad_money(5_500)));
    assert_eq!(calc_result_with_middle_income.marginal_tax_rate, dec(5, 1));
    assert_eq!(
        calc_result_with_middle_income.average_tax_rate,
        dec(5_500, 0).checked_div(dec(15_000, 0)).unwrap()
    );

    assert_eq!(calc_result_with_low_income.total_result, TaxCalculation::Liability(cad_money(1_500)));
    assert_eq!(calc_result_with_low_income.marginal_tax_rate, dec(3, 1));
    assert_eq!(calc_result_with_low_income.average_tax_rate, dec(1_500, 0).checked_div(dec(5_000, 0)).unwrap());
}

#[test]
fn regime_reports_each_schedule() {
    let regime = two_schedule_regime();
    assert_eq!(regime.currency(), Some(Currency::CAD));
    let result = regime.calculate_tax(vec![Income::Employment(cad_money(25_000))], vec![], vec![]).unwrap();
    assert_eq!(result.schedule_results.len(), 2);
    assert_eq!(result.schedule_results[0].0, "FIRST");
    assert_eq!(result.schedule_results[0].1, TaxCalculation::Liability(cad_money(4_500)));
    assert_eq!(result.schedule_results[1].0, "SECOND");
    assert_eq!(result.schedule_results[1].1, TaxCalculation::Liability(cad_money(7_000)));
}

#[test]
fn regime_routes_claims_to_the_schedule_that_knows_them() {
    let mut first = TaxSchedule::new("FIRST", three_brackets([10, 20, 30]), Currency::CAD, dec(5, 1)).unwrap();
    first.add_credit(TaxCreditRule {
        tax_credit_identifier: String::from("PROVINCIAL"),
        claim_strategy: ClaimStrategy::Max(cad_money(1_000)),
        refundable: false,
    });
    let second = TaxSchedule::new("SECOND", three_brackets([20, 30, 40]), Currency::CAD, dec(5, 1)).unwrap();
    let mut regime = TaxRegime::new();
    regime.add_schedule(first).unwrap();
    regime.add_schedule(second).unwrap();
    let claim = TaxCreditClaim { tax_credit_identifier: String::from("PROVINCIAL"), money_to_credit: cad_money(1_000) };
    let result = regime.calculate_tax(vec![Income::Employment(cad_money(25_000))], vec![], vec![claim]).unwrap();
    assert_eq!(result.schedule_results[0].1, TaxCalculation::Liability(cad_money(3_500)));
    assert_eq!(result.schedule_results[1].1, TaxCalculation::Liability(cad_money(7_000)));
    assert_eq!(result.total_result, TaxCalculation::Liability(cad_money(10_500)));
}

#[test]
fn empty_regime_and_mixed_currencies_are_refused() {
    let regime = TaxRegime::new();
    assert_eq!(regime.currency(), None);
    assert_eq!(regime.calculate_tax(vec![Income::Employment(cad_money(1))], vec![], vec![]).err(), Some(TaxError::ThereAreNoSchedules));

    let mut regime = TaxRegime::new();
    regime.add_schedule(TaxSchedule::new("CAD", vec![], Currency::CAD, dec(5, 1)).unwrap()).unwrap();
    let usd = TaxSchedule::new("USD", vec![], Currency::USD, dec(5, 1)).unwrap();
    assert_eq!(regime.add_schedule(usd), Err(TaxError::MismatchedCurrencies));
}

#[test]
fn bracket_contribution_follows_the_formula() {
    let bracket = TaxBracket::new(cad_money(10_000), Some(cad_money(20_000)), dec(2, 1)).unwrap();
    assert_eq!(bracket.calculate_tax(cad_money(5_000)).unwrap(), cad_money(0));
    assert_eq!(bracket.calculate_tax(cad_money(10_000)).unwrap(), cad_money(0));
    assert_eq!(bracket.calculate_tax(cad_money(15_000)).unwrap(), cad_money(1_000));
    assert_eq!(bracket.calculate_tax(cad_money(20_000)).unwrap(), cad_money(2_000));
    assert_eq!(bracket.calculate_tax(cad_money(90_000)).unwrap(), cad_money(2_000));
    assert_eq!(bracket.calculate_tax(usd_money(15_000)).unwrap_err(), TaxError::MismatchedCurrencies);
}

#[test]
fn gross_tax_does_not_fall_as_income_rises() {
    let schedule = TaxSchedule::new("TEST", three_brackets([10, 20, 30]), Currency::CAD, dec(5, 1)).unwrap();
    let mut previous = cad_money(0);
    for income in [0, 5_000, 9_999, 10_000, 19_999, 20_000, 50_000] {
        let tax = schedule.calculate_tax_result(vec![Income::Employment(cad_money(income))], vec![], vec![]).unwrap();
        let owed = match tax {
            TaxCalculation::Liability(m) => m,
            TaxCalculation::Refund(m) => m.neg(),
        };
        assert!(previous <= owed);
        previous = owed;
    }
}

#[test]
fn claim_strategy_returns_the_claim_itself() {
    let strategy = ClaimStrategy::Range(cad_money(10), cad_money(20));
    let claim = init_cad_money(dec(1550, 2));
    assert_eq!(strategy.apply_claim(claim).unwrap(), claim);
    assert_eq!(strategy.apply_claim(cad_money(21)).unwrap_err(), TaxError::ClaimDidNotMatchStrategy);
    assert_eq!(strategy.apply_claim(usd_money(15)).unwrap_err(), TaxError::ClaimDidNotMatchStrategy);
}

#[test]
fn rules_refuse_claims_for_another_identifier() {
    let deduction = TaxDeductionRule { tax_deduction_identifier: String::from("A"), claim_strategy: ClaimStrategy::Min(cad_money(0)) };
    assert_eq!(deduction.apply_deduction(&deduction_claim("B", 1)).unwrap_err(), TaxError::CouldNotFindDeduction);
    assert_eq!(deduction.apply_deduction(&deduction_claim("A", 1)).unwrap(), cad_money(1));
    let credit = TaxCreditRule { tax_credit_identifier: String::from("A"), claim_strategy: ClaimStrategy::Min(cad_money(0)), refundable: true };
    let claim = TaxCreditClaim { tax_credit_identifier: String::from("B"), money_to_credit: cad_money(1) };
    assert_eq!(credit.apply_credit(&claim).unwrap_err(), TaxError::CouldNotFindCredit);
}

#[test]
fn schedule_registry_and_unknown_claims() {
    let mut schedule = TaxSchedule::new("TEST", three_brackets([10, 20, 30]), Currency::CAD, dec(5, 1)).unwrap();
    assert!(!schedule.is_deduction_claim_valid(&deduction_claim("RRSP", 1_000)));
    schedule.add_deduction(TaxDeductionRule { tax_deduction_identifier: String::from("RRSP"), claim_strategy: ClaimStrategy::Max(cad_money(100)) });
    schedule.add_deduction(TaxDeductionRule { tax_deduction_identifier: String::from("RRSP"), claim_strategy: ClaimStrategy::Max(cad_money(5_000)) });
    assert!(schedule.is_deduction_claim_valid(&deduction_claim("RRSP", 1_000)));
    let claim = TaxCreditClaim { tax_credit_identifier: String::from("UNKNOWN"), money_to_credit: cad_money(1_000) };
    assert!(!schedule.is_credit_claim_valid(&claim));
    let income = vec![Income::Employment(cad_money(25_000))];
    let with_unknown = schedule.calculate_tax_result(income.clone(), vec![deduction_claim("UNKNOWN", 1)], vec![claim]).unwrap();
    assert_eq!(with_unknown, TaxCalculation::Liability(cad_money(4_500)));
    let with_replaced_rule = schedule.calculate_tax_result(income, vec![deduction_claim("RRSP", 1_000)], vec![]).unwrap();
    assert_eq!(with_replaced_rule, TaxCalculation::Liability(cad_money(4_200)));
}

#[test]
fn zero_tax_without_recognized_credits_is_zero() {
    let schedule = TaxSchedule::new("TEST", three_brackets([10, 20, 30]), Currency::CAD, dec(5, 1)).unwrap();
    let claim = TaxCreditClaim { tax_credit_identifier: String::from("NONE"), money_to_credit: cad_money(300) };
    let result = schedule.calculate_tax_result(vec![Income::Employment(cad_money(0))], vec![], vec![claim]).unwrap();
    assert_eq!(result, TaxCalculation::Refund(cad_money(0)));
}

#[test]
fn deductions_beyond_income_leave_zero_taxable_income() {
    let mut schedule = TaxSchedule::new("TEST", three_brackets([10, 20, 30]), Currency::CAD, dec(5, 1)).unwrap();
    schedule.add_deduction(TaxDeductionRule { tax_deduction_identifier: String::from("BIG"), claim_strategy: ClaimStrategy::Min(cad_money(0)) });
    let result = schedule.calculate_tax_result(vec![Income::Employment(cad_money(1_000))], vec![deduction_claim("BIG", 5_000)], vec![]).unwrap();
    assert_eq!(result, TaxCalculation::Refund(cad_money(0)));
}

#[test]
fn marginal_rate_and_empty_schedule() {
    let schedule = TaxSchedule::new("TEST", three_brackets([10, 20, 30]), Currency::CAD, dec(5, 1)).unwrap();
    let rate = |n: i64| schedule.determine_marginal_rate(vec![Income::Employment(cad_money(n))], vec![]).unwrap();
    assert_eq!(rate(0), dec(1, 1));
    assert_eq!(rate(10_000), dec(1, 1));
    assert_eq!(rate(10_001), dec(2, 1));
    assert_eq!(rate(25_000), dec(3, 1));
    let empty = TaxSchedule::new("EMPTY", vec![], Currency::CAD, dec(5, 1)).unwrap();
    assert_eq!(empty.determine_marginal_rate(vec![Income::Employment(cad_money(1))], vec![]), Err(TaxError::ThereAreNoBrackets));
}

#[test]
fn brackets_are_sorted_on_construction() {
    let mut brackets = three_brackets([10, 20, 30]);
    brackets.reverse();
    let schedule = TaxSchedule::new("TEST", brackets, Currency::CAD, dec(5, 1)).unwrap();
    assert_eq!(schedule.determine_marginal_rate(vec![Income::Employment(cad_money(1))], vec![]).unwrap(), dec(1, 1));
    let tax = schedule.calculate_tax_result(vec![Income::Employment(cad_money(25_000))], vec![], vec![]).unwrap();
    assert_eq!(tax, TaxCalculation::Liability(cad_money(4_500)));
}

#[test]
fn income_in_another_currency_is_refused() {
    let schedule = TaxSchedule::new("TEST", three_brackets([10, 20, 30]), Currency::CAD, dec(5, 1)).unwrap();
    let result = schedule.calculate_tax_result(vec![Income::Employment(usd_money(1))], vec![], vec![]);
    assert_eq!(result.err(), Some(TaxError::MismatchedCurrencies));
}

#[test]
fn outcomes_add_as_signed_amounts() {
    let a = TaxCalculation::Liability(cad_money(300));
    let b = TaxCalculation::Refund(cad_money(300));
    assert_eq!(a.checked_add(b).unwrap(), TaxCalculation::Liability(cad_money(0)));
    let c = TaxCalculation::Refund(cad_money(500));
    assert_eq!(a.checked_add(c).unwrap(), TaxCalculation::Refund(cad_money(200)));
    assert_eq!(c.checked_add(a).unwrap(), TaxCalculation::Refund(cad_money(200)));
    let left = a.checked_add(b).unwrap().checked_add(c).unwrap();
    let right = a.checked_add(b.checked_add(c).unwrap()).unwrap();
    assert_eq!(left, right);
    let usd = TaxCalculation::Liability(usd_money(1));
    assert_eq!(a.checked_add(usd).unwrap_err(), TaxError::MismatchedCurrencies);
    assert_eq!(c.magnitude(), cad_money(500));
}

#[test]
fn no_income_gives_a_zero_outcome_and_no_average_rate() {
    let schedule = TaxSchedule::new("TEST", three_brackets([10, 20, 30]), Currency::CAD, dec(5, 1)).unwrap();
    assert_eq!(schedule.calculate_tax_result(vec![], vec![], vec![]).unwrap(), TaxCalculation::Refund(cad_money(0)));
    let regime = two_schedule_regime();
    assert_eq!(regime.calculate_tax(vec![], vec![], vec![]).err(), Some(TaxError::InvalidAmount));
}
