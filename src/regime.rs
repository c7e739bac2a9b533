//! A regime: several schedules evaluated together, their outcomes summed and
//! their marginal rates added.
use crate::currency::Currency;
use crate::decimal::{decimal_quotient, sum_of, Decimal};
use crate::money::{CheckedAdd, Money};
use crate::schedule::{credit_index, deduction_index, TaxSchedule};
use crate::tax::{
    outcome_sum, tax_error_from, Income, TaxCalculation, TaxCreditClaim, TaxDeductionClaim,
    TaxError,
};
use vstd::prelude::*;

verus! {

/// What a regime's calculation gives, as views: each schedule's outcome, the
/// total, the summed marginal rate.
pub struct RegimeSums {
    pub outcomes: Seq<(bool, (int, nat))>,
    pub total: (bool, (int, nat)),
    pub marginal: (int, nat),
}

/// The raw amounts of the first `n` income streams, added up in currency `c`.
pub open spec fn raw_income_prefix(incomes: Seq<Income>, c: Currency, n: nat) -> Result<(int, nat), TaxError>
    decreases n,
{
    if n == 0 {
        Ok((0int, 0nat))
    } else {
        match raw_income_prefix(incomes, c, (n - 1) as nat) {
            Err(e) => Err(e),
            Ok(acc) => if incomes[n - 1].money().currency != c {
                Err(TaxError::MismatchedCurrencies)
            } else {
                match sum_of(acc, incomes[n - 1].money().amount@) {
                    Some(v) => Ok(v),
                    None => Err(TaxError::InvalidAmount),
                }
            },
        }
    }
}

/// The schedule has a deduction rule for the claim.
pub open spec fn knows_deduction(s: TaxSchedule) -> spec_fn(TaxDeductionClaim) -> bool {
    |c: TaxDeductionClaim| deduction_index(s@.deductions, c.tax_deduction_identifier@) is Some
}

/// The schedule has a credit rule for the claim.
pub open spec fn knows_credit(s: TaxSchedule) -> spec_fn(TaxCreditClaim) -> bool {
    |c: TaxCreditClaim| credit_index(s@.credits, c.tax_credit_identifier@) is Some
}

pub struct TaxRegimeCalculationResult {
    /// Each schedule's identifier and outcome, in the regime's order.
    pub schedule_results: Vec<(String, TaxCalculation)>,
    pub total_result: TaxCalculation,
    pub average_tax_rate: Decimal,
    pub marginal_tax_rate: Decimal,
}

pub struct TaxRegime {
    schedules: Vec<TaxSchedule>,
}

impl View for TaxRegime {
    type V = Seq<TaxSchedule>;

    closed spec fn view(&self) -> Seq<TaxSchedule> {
        self.schedules@
    }
}

impl TaxRegime {
    /// All schedules share one currency.
    pub open spec fn wf(self) -> bool {
        forall|i: int| 0 <= i < self@.len() ==> (#[trigger] self@[i])@.currency == self@[0]@.currency
    }

    /// The outcomes of the first `n` schedules, their running total and the
    /// sum of their marginal rates.
    pub open spec fn regime_prefix(self, incomes: Seq<Income>, deductions: Seq<TaxDeductionClaim>, credits: Seq<TaxCreditClaim>, n: nat) -> Result<RegimeSums, TaxError>
        decreases n,
    {
        if n == 0 {
            Ok(RegimeSums { outcomes: Seq::empty(), total: (true, (0int, 0nat)), marginal: (0int, 0nat) })
        } else {
            match self.regime_prefix(incomes, deductions, credits, (n - 1) as nat) {
                Err(e) => Err(e),
                Ok(acc) => match self@[n - 1].calculation_spec(
                    incomes,
                    deductions.filter(knows_deduction(self@[n - 1])),
                    credits.filter(knows_credit(self@[n - 1])),
                ) {
                    Err(e) => Err(e),
                    Ok(outcome) => match self@[n - 1].marginal_spec(
                        incomes,
                        deductions.filter(knows_deduction(self@[n - 1])),
                    ) {
                        Err(e) => Err(e),
                        Ok(rate) => match outcome_sum(acc.total, outcome) {
                            Err(e) => Err(e),
                            Ok(total) => match sum_of(acc.marginal, rate@) {
                                None => Err(TaxError::InvalidAmount),
                                Some(marginal) => Ok(RegimeSums {
                                    outcomes: acc.outcomes.push(outcome),
                                    total,
                                    marginal,
                                }),
                            },
                        },
                    },
                },
            }
        }
    }

    /// The average rate: the total's magnitude over the raw income.
    pub open spec fn average_spec(self, incomes: Seq<Income>, total: (bool, (int, nat))) -> Result<(int, nat), TaxError> {
        match raw_income_prefix(incomes, self@[0]@.currency, incomes.len()) {
            Err(e) => Err(e),
            Ok(income) => match decimal_quotient(total.1, income) {
                None => Err(TaxError::InvalidAmount),
                Some(a) => Ok(a),
            },
        }
    }

    pub fn new() -> (r: TaxRegime)
        ensures
            r@.len() == 0,
    {
        TaxRegime { schedules: Vec::new() }
    }

    /// The currency that all schedules share; none for an empty regime.
    pub fn currency(&self) -> (r: Option<Currency>)
        ensures
            r == if self@.len() > 0 {
                Some(self@[0]@.currency)
            } else {
                None::<Currency>
            },
    {
        if self.schedules.len() > 0 {
            Some(self.schedules[0].currency())
        } else {
            None
        }
    }

    /// Appends a schedule; one in another currency than those already there
    /// is refused.
    pub fn add_schedule(&mut self, schedule: TaxSchedule) -> (r: Result<(), TaxError>)
        requires
            old(self).wf(),
        ensures
            final(self).wf(),
            r is Ok <==> (old(self)@.len() == 0 || schedule@.currency == old(self)@[0]@.currency),
            r is Ok ==> final(self)@ == old(self)@.push(schedule),
            r is Err ==> r == Err::<(), TaxError>(TaxError::MismatchedCurrencies) && final(self)@
                == old(self)@,
    {
        if self.schedules.len() > 0 && schedule.currency() != self.schedules[0].currency() {
            return Err(TaxError::MismatchedCurrencies);
        }
        self.schedules.push(schedule);
        Ok(())
    }

    proof fn lemma_regime_error_stays(self, incomes: Seq<Income>, deductions: Seq<TaxDeductionClaim>, credits: Seq<TaxCreditClaim>, n: nat, m: nat)
        requires
            n <= m,
            self.regime_prefix(incomes, deductions, credits, n) is Err,
        ensures
            self.regime_prefix(incomes, deductions, credits, m) == self.regime_prefix(
                incomes,
                deductions,
                credits,
                n,
            ),
        decreases m - n,
    {
        if m > n {
            self.lemma_regime_error_stays(incomes, deductions, credits, n, (m - 1) as nat);
        }
    }

    /// The deduction claims that the schedule has a rule for, in order.
    fn construct_deduction_claims_for_schedule(&self, tax_deduction_claims: &Vec<TaxDeductionClaim>, tax_schedule: &TaxSchedule) -> (r: Vec<TaxDeductionClaim>)
        ensures
            r@ == tax_deduction_claims@.filter(knows_deduction(*tax_schedule)),
    {
        let mut routed: Vec<TaxDeductionClaim> = Vec::new();
        let mut i: usize = 0;
        proof {
            assert(tax_deduction_claims@.take(0) =~= Seq::<TaxDeductionClaim>::empty());
            assert(routed@ =~= tax_deduction_claims@.take(0).filter(knows_deduction(*tax_schedule)));
        }
        while i < tax_deduction_claims.len()
            invariant
                i <= tax_deduction_claims@.len(),
                routed@ == tax_deduction_claims@.take(i as int).filter(knows_deduction(*tax_schedule)),
            decreases tax_deduction_claims@.len() - i,
        {
            let claim = &tax_deduction_claims[i];
            proof {
                assert(tax_deduction_claims@.take(i + 1) =~= tax_deduction_claims@.take(i as int).push(*claim));
                tax_deduction_claims@.take(i as int).lemma_filter_push(*claim, knows_deduction(*tax_schedule));
            }
            if tax_schedule.is_deduction_claim_valid(claim) {
                routed.push(claim.copy());
            }
            i = i + 1;
        }
        proof {
            assert(tax_deduction_claims@.take(i as int) =~= tax_deduction_claims@);
        }
        routed
    }

    /// The credit claims that the schedule has a rule for, in order.
    fn construct_credit_claims_for_schedule(&self, tax_credit_claims: &Vec<TaxCreditClaim>, tax_schedule: &TaxSchedule) -> (r: Vec<TaxCreditClaim>)
        ensures
            r@ == tax_credit_claims@.filter(knows_credit(*tax_schedule)),
    {
        let mut routed: Vec<TaxCreditClaim> = Vec::new();
        let mut i: usize = 0;
        proof {
            assert(tax_credit_claims@.take(0) =~= Seq::<TaxCreditClaim>::empty());
            assert(routed@ =~= tax_credit_claims@.take(0).filter(knows_credit(*tax_schedule)));
        }
        while i < tax_credit_claims.len()
            invariant
                i <= tax_credit_claims@.len(),
                routed@ == tax_credit_claims@.take(i as int).filter(knows_credit(*tax_schedule)),
            decreases tax_credit_claims@.len() - i,
        {
            let claim = &tax_credit_claims[i];
            proof {
                assert(tax_credit_claims@.take(i + 1) =~= tax_credit_claims@.take(i as int).push(*claim));
                tax_credit_claims@.take(i as int).lemma_filter_push(*claim, knows_credit(*tax_schedule));
            }
            if tax_schedule.is_credit_claim_valid(claim) {
                routed.push(claim.copy());
            }
            i = i + 1;
        }
        proof {
            assert(tax_credit_claims@.take(i as int) =~= tax_credit_claims@);
        }
        routed
    }

    fn total_income(incomes: &Vec<Income>, currency: Currency) -> (r: Result<Money, TaxError>)
        ensures
            match (r, raw_income_prefix(incomes@, currency, incomes@.len())) {
                (Ok(m), Ok(v)) => m.amount@ == v && m.currency == currency,
                (Err(e), Err(f)) => e == f,
                _ => false,
            },
    {
        let mut acc = Money { amount: Decimal::zero(), currency };
        let mut i: usize = 0;
        while i < incomes.len()
            invariant
                i <= incomes@.len(),
                acc.currency == currency,
                raw_income_prefix(incomes@, currency, i as nat) == Ok::<(int, nat), TaxError>(
                    acc.amount@,
                ),
            decreases incomes@.len() - i,
        {
            let m = incomes[i].amount();
            if m.currency != currency {
                proof { lemma_raw_income_error_stays(incomes@, currency, (i + 1) as nat, incomes@.len()); }
                return Err(TaxError::MismatchedCurrencies);
            }
            acc = match acc.checked_add(m) {
                Ok(s) => s,
                Err(e) => {
                    proof { lemma_raw_income_error_stays(incomes@, currency, (i + 1) as nat, incomes@.len()); }
                    return Err(tax_error_from(e));
                },
            };
            i = i + 1;
        }
        Ok(acc)
    }

    /// Every schedule run on the incomes and on the claims that it has rules
    /// for; the outcomes summed, the marginal rates added, and the average
    /// rate taken over the raw income. An empty regime is refused.
    pub fn calculate_tax(&self, incomes: Vec<Income>, tax_deduction_claims: Vec<TaxDeductionClaim>, tax_credit_claims: Vec<TaxCreditClaim>) -> (r: Result<TaxRegimeCalculationResult, TaxError>)
        requires
            self.wf(),
        ensures
            self@.len() == 0 ==> r == Err::<TaxRegimeCalculationResult, TaxError>(TaxError::ThereAreNoSchedules),
            self@.len() > 0 ==> match self.regime_prefix(incomes@, tax_deduction_claims@, tax_credit_claims@, self@.len()) {
                Err(e) => r == Err::<TaxRegimeCalculationResult, TaxError>(e),
                Ok(sums) => match self.average_spec(incomes@, sums.total) {
                    Err(e) => r == Err::<TaxRegimeCalculationResult, TaxError>(e),
                    Ok(average) => r matches Ok(res) && {
                        &&& res.schedule_results@.len() == self@.len()
                        &&& forall|k: int| 0 <= k < self@.len() ==> {
                            &&& (#[trigger] res.schedule_results@[k]).0@ == self@[k]@.identifier
                            &&& res.schedule_results@[k].1.outcome() == sums.outcomes[k]
                            &&& res.schedule_results@[k].1.money().currency == self@[0]@.currency
                        }
                        &&& res.total_result.outcome() == sums.total
                        &&& res.total_result.money().currency == self@[0]@.currency
                        &&& res.marginal_tax_rate@ == sums.marginal
                        &&& res.average_tax_rate@ == average
                    },
                },
            },
    {
        if self.schedules.len() == 0 {
            return Err(TaxError::ThereAreNoSchedules);
        }
        let currency = self.schedules[0].currency();
        let mut results: Vec<(String, TaxCalculation)> = Vec::new();
        let mut total = TaxCalculation::Liability(Money { amount: Decimal::zero(), currency });
        let mut marginal = Decimal::zero();
        let mut i: usize = 0;
        while i < self.schedules.len()
            invariant
                self.wf(),
                self@.len() > 0,
                currency == self@[0]@.currency,
                i <= self@.len(),
                total.money().currency == currency,
                self.regime_prefix(incomes@, tax_deduction_claims@, tax_credit_claims@, i as nat) matches Ok(sums) && {
                    &&& results@.len() == i
                    &&& forall|k: int| 0 <= k < i ==> {
                        &&& (#[trigger] results@[k]).0@ == self@[k]@.identifier
                        &&& results@[k].1.outcome() == sums.outcomes[k]
                        &&& results@[k].1.money().currency == currency
                    }
                    &&& sums.outcomes.len() == i
                    &&& total.outcome() == sums.total
                    &&& marginal@ == sums.marginal
                },
            decreases self@.len() - i,
        {
            let schedule = &self.schedules[i];
            let deductions = self.construct_deduction_claims_for_schedule(&tax_deduction_claims, schedule);
            let credits = self.construct_credit_claims_for_schedule(&tax_credit_claims, schedule);
            let calc = match schedule.calculate(&incomes, &deductions, &credits) {
                Ok(c) => c,
                Err(e) => {
                    proof { self.lemma_regime_error_stays(incomes@, tax_deduction_claims@, tax_credit_claims@, (i + 1) as nat, self@.len()); }
                    return Err(e);
                },
            };
            let rate = match schedule.marginal_rate(&incomes, &deductions) {
                Ok(r) => r,
                Err(e) => {
                    proof { self.lemma_regime_error_stays(incomes@, tax_deduction_claims@, tax_credit_claims@, (i + 1) as nat, self@.len()); }
                    return Err(e);
                },
            };
            total = match total.checked_add(calc) {
                Ok(t) => t,
                Err(e) => {
                    proof { self.lemma_regime_error_stays(incomes@, tax_deduction_claims@, tax_credit_claims@, (i + 1) as nat, self@.len()); }
                    return Err(e);
                },
            };
            marginal = match marginal.checked_add(rate) {
                Some(m) => m,
                None => {
                    proof { self.lemma_regime_error_stays(incomes@, tax_deduction_claims@, tax_credit_claims@, (i + 1) as nat, self@.len()); }
                    return Err(TaxError::InvalidAmount);
                },
            };
            results.push((schedule.identifier(), calc));
            i = i + 1;
        }
        let income = match Self::total_income(&incomes, currency) {
            Ok(m) => m,
            Err(e) => return Err(e),
        };
        let average = match total.magnitude().amount.checked_div(income.amount) {
            Some(a) => a,
            None => return Err(TaxError::InvalidAmount),
        };
        Ok(TaxRegimeCalculationResult {
            schedule_results: results,
            total_result: total,
            average_tax_rate: average,
            marginal_tax_rate: marginal,
        })
    }
}

proof fn lemma_raw_income_error_stays(incomes: Seq<Income>, c: Currency, n: nat, m: nat)
    requires
        n <= m,
        raw_income_prefix(incomes, c, n) is Err,
    ensures
        raw_income_prefix(incomes, c, m) == raw_income_prefix(incomes, c, n),
    decreases m - n,
{
    if m > n {
        lemma_raw_income_error_stays(incomes, c, n, (m - 1) as nat);
    }
}

} // verus!
