//! Tax brackets, claim strategies, deduction and credit rules, income
//! streams and the signed outcome of a calculation.
use crate::currency::Currency;
use crate::decimal::{difference_of, product_of, sum_of, units, Decimal};
use crate::money::{CheckedAdd, Money, MoneyError};
use vstd::prelude::*;

verus! {

#[derive(Clone, Copy, Debug, PartialEq, Eq, Structural)]
pub enum TaxError {
    MismatchedCurrencies,
    CouldNotFindDeduction,
    CouldNotFindCredit,
    ClaimDidNotMatchStrategy,
    ThereAreNoBrackets,
    /// A result does not fit in a decimal.
    InvalidAmount,
    /// A regime with no schedule has no currency to compute in.
    ThereAreNoSchedules,
}

/// The tax error for a money error.
pub open spec fn tax_error_of(e: MoneyError) -> TaxError {
    match e {
        MoneyError::MismatchedCurrencies => TaxError::MismatchedCurrencies,
        _ => TaxError::InvalidAmount,
    }
}

pub fn tax_error_from(e: MoneyError) -> (r: TaxError)
    ensures
        r == tax_error_of(e),
{
    match e {
        MoneyError::MismatchedCurrencies => TaxError::MismatchedCurrencies,
        _ => TaxError::InvalidAmount,
    }
}

/// `r` holds money of currency `c` whose amount's view is `v` exactly where
/// `model` is `Ok(v)`, and the same error where it is an error.
pub open spec fn taxed_money_is(r: Result<Money, TaxError>, model: Result<(int, nat), TaxError>, c: Currency) -> bool {
    match (r, model) {
        (Ok(m), Ok(v)) => m.amount@ == v && m.currency == c,
        (Err(e), Err(f)) => e == f,
        _ => false,
    }
}

/// A decimal result, an overflow being `InvalidAmount`.
pub open spec fn or_invalid(d: Option<(int, nat)>) -> Result<(int, nat), TaxError> {
    match d {
        Some(v) => Ok(v),
        None => Err(TaxError::InvalidAmount),
    }
}

/// `(a - b) * rate`.
pub open spec fn difference_times(a: (int, nat), b: (int, nat), rate: (int, nat)) -> Result<(int, nat), TaxError> {
    match difference_of(a, b) {
        Some(d) => or_invalid(product_of(d, rate)),
        None => Err(TaxError::InvalidAmount),
    }
}

/// A half-open income range `[min_money, max_money)` taxed at a flat rate; no
/// `max_money` makes it the open-ended top bracket.
#[derive(Clone, Copy, Debug)]
pub struct TaxBracket {
    pub min_money: Money,
    pub max_money: Option<Money>,
    pub rate: Decimal,
}

impl TaxBracket {
    /// The bounds share one currency.
    pub open spec fn currencies_match(self) -> bool {
        match self.max_money {
            Some(max) => max.currency == self.min_money.currency,
            None => true,
        }
    }

    /// The bracket's contribution to the tax on `income`: nothing below
    /// `min`, `(income - min) * rate` inside the range, `(max - min) * rate`
    /// from `max` on.
    pub open spec fn tax_spec(self, income: Money) -> Result<(int, nat), TaxError> {
        self.tax_at(income.amount@, income.currency)
    }

    /// The contribution to the tax on an income of amount `x` in currency `c`.
    pub open spec fn tax_at(self, x: (int, nat), c: Currency) -> Result<(int, nat), TaxError> {
        if !self.currencies_match() || c != self.min_money.currency {
            Err(TaxError::MismatchedCurrencies)
        } else if units(x) < units(self.min_money.amount@) {
            Ok((0int, 0nat))
        } else {
            match self.max_money {
                Some(max) => if units(x) >= units(max.amount@) {
                    difference_times(max.amount@, self.min_money.amount@, self.rate@)
                } else {
                    difference_times(x, self.min_money.amount@, self.rate@)
                },
                None => difference_times(x, self.min_money.amount@, self.rate@),
            }
        }
    }

    /// A bracket; bounds in two currencies are refused.
    pub fn new(min_money: Money, max_money: Option<Money>, rate: Decimal) -> (r: Result<TaxBracket, TaxError>)
        ensures
            match r {
                Ok(b) => b.min_money == min_money && b.max_money == max_money && b.rate == rate
                    && b.currencies_match(),
                Err(e) => e == TaxError::MismatchedCurrencies && !(TaxBracket {
                    min_money,
                    max_money,
                    rate,
                }).currencies_match(),
            },
    {
        match max_money {
            Some(max) => if max.currency != min_money.currency {
                Err(TaxError::MismatchedCurrencies)
            } else {
                Ok(TaxBracket { min_money, max_money, rate })
            },
            None => Ok(TaxBracket { min_money, max_money: None, rate }),
        }
    }

    fn difference_times_rate(&self, upper: Money) -> (r: Result<Money, TaxError>)
        requires
            upper.currency == self.min_money.currency,
        ensures
            taxed_money_is(
                r,
                difference_times(upper.amount@, self.min_money.amount@, self.rate@),
                upper.currency,
            ),
    {
        match upper.amount.checked_sub(self.min_money.amount) {
            None => Err(TaxError::InvalidAmount),
            Some(d) => match d.checked_mul(self.rate) {
                None => Err(TaxError::InvalidAmount),
                Some(t) => Ok(Money { amount: t, currency: upper.currency }),
            },
        }
    }

    /// The bracket's contribution to the tax on `taxable_income`, in the
    /// bracket's currency.
    pub fn calculate_tax(&self, taxable_income: Money) -> (r: Result<Money, TaxError>)
        ensures
            taxed_money_is(r, self.tax_spec(taxable_income), self.min_money.currency),
    {
        let matching = match self.max_money {
            Some(max) => max.currency == self.min_money.currency,
            None => true,
        };
        if !matching || taxable_income.currency != self.min_money.currency {
            return Err(TaxError::MismatchedCurrencies);
        }
        if taxable_income.amount.lt(&self.min_money.amount) {
            return Ok(Money { amount: Decimal::zero(), currency: self.min_money.currency });
        }
        match self.max_money {
            Some(max) => if max.amount.le(&taxable_income.amount) {
                self.difference_times_rate(max)
            } else {
                self.difference_times_rate(taxable_income)
            },
            None => self.difference_times_rate(taxable_income),
        }
    }
}

/// How a claimed amount is validated against a rule's bound.
#[derive(Clone, Copy, Debug)]
pub enum ClaimStrategy {
    ExactAmount(Money),
    Range(Money, Money),
    Min(Money),
    Max(Money),
}

/// `a` and `b` are in one currency and `a <= b` in value.
pub open spec fn money_le(a: Money, b: Money) -> bool {
    a.currency == b.currency && units(a.amount@) <= units(b.amount@)
}

impl ClaimStrategy {
    /// The claimed amount meets the bound; never across currencies.
    pub open spec fn accepts(self, claim: Money) -> bool {
        match self {
            ClaimStrategy::ExactAmount(x) => money_le(claim, x) && money_le(x, claim),
            ClaimStrategy::Range(lo, hi) => money_le(lo, claim) && money_le(claim, hi),
            ClaimStrategy::Min(lo) => money_le(lo, claim),
            ClaimStrategy::Max(hi) => money_le(claim, hi),
        }
    }

    fn is_claim_amount_valid(&self, claim_amount: Money) -> (r: bool)
        ensures
            r == self.accepts(claim_amount),
    {
        match *self {
            ClaimStrategy::ExactAmount(x) => claim_amount == x,
            ClaimStrategy::Range(lo, hi) => lo.currency == claim_amount.currency
                && hi.currency == claim_amount.currency && lo.amount.le(&claim_amount.amount)
                && claim_amount.amount.le(&hi.amount),
            ClaimStrategy::Min(lo) => lo.currency == claim_amount.currency && lo.amount.le(
                &claim_amount.amount,
            ),
            ClaimStrategy::Max(hi) => hi.currency == claim_amount.currency
                && claim_amount.amount.le(&hi.amount),
        }
    }

    /// The claimed amount itself where the strategy accepts it.
    pub fn apply_claim(&self, claim_amount: Money) -> (r: Result<Money, TaxError>)
        ensures
            r == if self.accepts(claim_amount) {
                Ok::<Money, TaxError>(claim_amount)
            } else {
                Err(TaxError::ClaimDidNotMatchStrategy)
            },
    {
        if self.is_claim_amount_valid(claim_amount) {
            Ok(claim_amount)
        } else {
            Err(TaxError::ClaimDidNotMatchStrategy)
        }
    }
}

#[derive(Clone, Debug)]
pub struct TaxCreditRule {
    pub refundable: bool,
    pub tax_credit_identifier: String,
    pub claim_strategy: ClaimStrategy,
}

#[derive(Clone, Debug)]
pub struct TaxCreditClaim {
    pub tax_credit_identifier: String,
    pub money_to_credit: Money,
}

impl TaxCreditClaim {
    /// A copy of the claim.
    pub fn copy(&self) -> (r: TaxCreditClaim)
        ensures
            r == *self,
    {
        TaxCreditClaim {
            tax_credit_identifier: self.tax_credit_identifier.clone(),
            money_to_credit: self.money_to_credit,
        }
    }
}

impl TaxCreditRule {
    /// What the rule grants for a claim.
    pub open spec fn credit_spec(self, claim: TaxCreditClaim) -> Result<Money, TaxError> {
        if self.tax_credit_identifier@ != claim.tax_credit_identifier@ {
            Err(TaxError::CouldNotFindCredit)
        } else if self.claim_strategy.accepts(claim.money_to_credit) {
            Ok(claim.money_to_credit)
        } else {
            Err(TaxError::ClaimDidNotMatchStrategy)
        }
    }

    /// The claimed amount, for a claim that names this rule and meets its
    /// strategy.
    pub fn apply_credit(&self, credit_claim: &TaxCreditClaim) -> (r: Result<Money, TaxError>)
        ensures
            r == self.credit_spec(*credit_claim),
    {
        if self.tax_credit_identifier != credit_claim.tax_credit_identifier {
            return Err(TaxError::CouldNotFindCredit);
        }
        self.claim_strategy.apply_claim(credit_claim.money_to_credit)
    }
}

#[derive(Clone, Debug)]
pub struct TaxDeductionRule {
    pub tax_deduction_identifier: String,
    pub claim_strategy: ClaimStrategy,
}

#[derive(Clone, Debug)]
pub struct TaxDeductionClaim {
    pub tax_deduction_identifier: String,
    pub money_to_deduct: Money,
}

impl TaxDeductionClaim {
    /// A copy of the claim.
    pub fn copy(&self) -> (r: TaxDeductionClaim)
        ensures
            r == *self,
    {
        TaxDeductionClaim {
            tax_deduction_identifier: self.tax_deduction_identifier.clone(),
            money_to_deduct: self.money_to_deduct,
        }
    }
}

impl TaxDeductionRule {
    /// What the rule allows to deduct for a claim.
    pub open spec fn deduction_spec(self, claim: TaxDeductionClaim) -> Result<Money, TaxError> {
        if self.tax_deduction_identifier@ != claim.tax_deduction_identifier@ {
            Err(TaxError::CouldNotFindDeduction)
        } else if self.claim_strategy.accepts(claim.money_to_deduct) {
            Ok(claim.money_to_deduct)
        } else {
            Err(TaxError::ClaimDidNotMatchStrategy)
        }
    }

    /// The claimed amount, for a claim that names this rule and meets its
    /// strategy.
    pub fn apply_deduction(&self, deduction_claim: &TaxDeductionClaim) -> (r: Result<Money, TaxError>)
        ensures
            r == self.deduction_spec(*deduction_claim),
    {
        if self.tax_deduction_identifier != deduction_claim.tax_deduction_identifier {
            return Err(TaxError::CouldNotFindDeduction);
        }
        self.claim_strategy.apply_claim(deduction_claim.money_to_deduct)
    }
}

/// An income stream.
#[derive(Clone, Copy, Debug)]
pub enum Income {
    Employment(Money),
    CapitalGains(Money),
}

impl Income {
    pub open spec fn money(self) -> Money {
        match self {
            Income::Employment(m) => m,
            Income::CapitalGains(m) => m,
        }
    }

    pub fn currency(&self) -> (r: Currency)
        ensures
            r == self.money().currency,
    {
        match self {
            Income::Employment(m) => m.currency,
            Income::CapitalGains(m) => m.currency,
        }
    }

    pub fn amount(&self) -> (r: Money)
        ensures
            r == self.money(),
    {
        match self {
            Income::Employment(m) => *m,
            Income::CapitalGains(m) => *m,
        }
    }
}

/// The outcome of a calculation: the held amount is what is owed or what is
/// paid back, and the variant carries the sign.
#[derive(Clone, Copy, Debug)]
pub enum TaxCalculation {
    Refund(Money),
    Liability(Money),
}

/// The signed value of an outcome's view: a refund counts below zero.
pub open spec fn signed_view(liability: bool, amount: (int, nat)) -> (int, nat) {
    if liability {
        amount
    } else {
        (-amount.0, amount.1)
    }
}

/// The sum of two outcomes `(liability, amount)`: the signed amounts added,
/// a liability from zero up, else a refund of the magnitude.
pub open spec fn outcome_sum(a: (bool, (int, nat)), b: (bool, (int, nat))) -> Result<(bool, (int, nat)), TaxError> {
    match sum_of(signed_view(a.0, a.1), signed_view(b.0, b.1)) {
        Some(v) => Ok(TaxCalculation::from_signed(v)),
        None => Err(TaxError::InvalidAmount),
    }
}

impl TaxCalculation {
    pub open spec fn money(self) -> Money {
        match self {
            TaxCalculation::Refund(m) => m,
            TaxCalculation::Liability(m) => m,
        }
    }

    pub open spec fn is_liability(self) -> bool {
        self is Liability
    }

    /// The signed amount: negative for a refund.
    pub open spec fn signed(self) -> (int, nat) {
        signed_view(self.is_liability(), self.money().amount@)
    }

    /// The outcome for a signed sum: a liability from zero up, else a refund
    /// of the magnitude.
    pub open spec fn from_signed(v: (int, nat)) -> (bool, (int, nat)) {
        if units(v) >= 0 {
            (true, v)
        } else {
            (false, (-v.0, v.1))
        }
    }

    /// The variant and the held amount.
    pub open spec fn outcome(self) -> (bool, (int, nat)) {
        (self.is_liability(), self.money().amount@)
    }

    /// The sum of two outcomes of one currency: the signed amounts added.
    pub open spec fn sum_spec(self, other: TaxCalculation) -> Result<(bool, (int, nat)), TaxError> {
        if self.money().currency != other.money().currency {
            Err(TaxError::MismatchedCurrencies)
        } else {
            outcome_sum(self.outcome(), other.outcome())
        }
    }

    /// The signed amount: a refund as a negative amount.
    pub fn signed_amount(&self) -> (r: Money)
        ensures
            r.amount@ == self.signed(),
            r.currency == self.money().currency,
    {
        match self {
            TaxCalculation::Refund(m) => m.neg(),
            TaxCalculation::Liability(m) => *m,
        }
    }

    /// The outcome whose signed amount is `m`: a liability from zero up, else
    /// a refund of the magnitude.
    pub fn from_signed_amount(m: Money) -> (r: TaxCalculation)
        ensures
            (r.is_liability(), r.money().amount@) == Self::from_signed(m.amount@),
            r.money().currency == m.currency,
    {
        if m.amount.is_negative() {
            TaxCalculation::Refund(m.neg())
        } else {
            TaxCalculation::Liability(m)
        }
    }

    /// The sum of two outcomes of one currency.
    pub fn checked_add(&self, other: TaxCalculation) -> (r: Result<TaxCalculation, TaxError>)
        ensures
            match (r, self.sum_spec(other)) {
                (Ok(t), Ok(v)) => (t.is_liability(), t.money().amount@) == v && t.money().currency
                    == self.money().currency,
                (Err(e), Err(f)) => e == f,
                _ => false,
            },
    {
        let a = self.signed_amount();
        let b = other.signed_amount();
        match a.checked_add(b) {
            Ok(s) => Ok(Self::from_signed_amount(s)),
            Err(e) => Err(tax_error_from(e)),
        }
    }

    /// The held amount: what is owed or what is paid back.
    pub fn magnitude(&self) -> (r: Money)
        ensures
            r == self.money(),
    {
        match self {
            TaxCalculation::Refund(m) => *m,
            TaxCalculation::Liability(m) => *m,
        }
    }
}

impl PartialEq for TaxCalculation {
    /// Same variant and equal money.
    fn eq(&self, other: &TaxCalculation) -> (r: bool) {
        match (self, other) {
            (TaxCalculation::Refund(a), TaxCalculation::Refund(b)) => a == b,
            (TaxCalculation::Liability(a), TaxCalculation::Liability(b)) => a == b,
            _ => false,
        }
    }
}

impl vstd::std_specs::cmp::PartialEqSpecImpl for TaxCalculation {
    open spec fn obeys_eq_spec() -> bool {
        true
    }

    open spec fn eq_spec(&self, other: &TaxCalculation) -> bool {
        self.is_liability() == other.is_liability() && self.money().currency
            == other.money().currency && units(self.money().amount@) == units(
            other.money().amount@,
        )
    }
}

} // verus!
