//! Money: an exact decimal amount tagged with a currency, and an exchange that
//! converts, compares and combines amounts across currencies.
use crate::currency::Currency;
use crate::decimal::{
    difference_of, product_of, decimal_rounded, sum_of, units, Decimal,
};
use vstd::prelude::*;

verus! {

#[derive(Clone, Copy, Debug, PartialEq, Eq, Structural)]
pub enum MoneyError {
    CouldNotFindExchangeRate,
    MismatchedCurrencies,
    /// A result does not fit in a decimal.
    InvalidAmount,
    /// An exchange rate that is not a positive decimal with an inverse.
    InvalidRatio,
}

#[derive(Clone, Copy, Debug)]
pub struct Money {
    pub amount: Decimal,
    pub currency: Currency,
}

/// `r` is `Ok` with an amount whose view is `v` in currency `c` exactly where
/// `model` is `Ok(v)`, and the same error where `model` is an error.
pub open spec fn money_is<E>(r: Result<Money, E>, model: Result<(int, nat), E>, c: Currency) -> bool {
    match (r, model) {
        (Ok(m), Ok(v)) => m.amount@ == v && m.currency == c,
        (Err(e), Err(f)) => e == f,
        _ => false,
    }
}

/// Lifts a decimal result into money, an overflow being `InvalidAmount`.
pub open spec fn amount_or_invalid(d: Option<(int, nat)>) -> Result<(int, nat), MoneyError> {
    match d {
        Some(v) => Ok(v),
        None => Err(MoneyError::InvalidAmount),
    }
}

/// The sum of two amounts of one currency.
pub open spec fn money_sum(a: Money, b: Money) -> Result<(int, nat), MoneyError> {
    if a.currency != b.currency {
        Err(MoneyError::MismatchedCurrencies)
    } else {
        amount_or_invalid(sum_of(a.amount@, b.amount@))
    }
}

/// The difference of two amounts of one currency.
pub open spec fn money_difference(a: Money, b: Money) -> Result<(int, nat), MoneyError> {
    if a.currency != b.currency {
        Err(MoneyError::MismatchedCurrencies)
    } else {
        amount_or_invalid(difference_of(a.amount@, b.amount@))
    }
}

impl Money {
    pub fn new(amount: Decimal, currency: Currency) -> (r: Money)
        ensures
            r.amount == amount,
            r.currency == currency,
    {
        Money { amount, currency }
    }

    /// Strictly more than zero.
    pub fn is_positive(&self) -> (r: bool)
        ensures
            r == (units(self.amount@) > 0),
    {
        self.amount.is_positive()
    }

    /// The amount times a scalar, in the same currency.
    pub fn checked_mul(&self, factor: Decimal) -> (r: Result<Money, MoneyError>)
        ensures
            money_is(r, amount_or_invalid(product_of(self.amount@, factor@)), self.currency),
    {
        match self.amount.checked_mul(factor) {
            Some(a) => Ok(Money { amount: a, currency: self.currency }),
            None => Err(MoneyError::InvalidAmount),
        }
    }

    /// The amount times an integer, in the same currency.
    pub fn checked_mul_int(&self, factor: i64) -> (r: Result<Money, MoneyError>)
        ensures
            money_is(
                r,
                amount_or_invalid(product_of(self.amount@, (factor as int, 0nat))),
                self.currency,
            ),
    {
        self.checked_mul(Decimal::new(factor, 0))
    }

    /// The ratio of two amounts of one currency.
    pub fn checked_div(&self, other: Money) -> (r: Result<Decimal, MoneyError>)
        ensures
            self.currency != other.currency ==> r == Err::<Decimal, MoneyError>(
                MoneyError::MismatchedCurrencies,
            ),
            self.currency == other.currency ==> match r {
                Ok(d) => crate::decimal::decimal_quotient(self.amount@, other.amount@) == Some(d@),
                Err(e) => e == MoneyError::InvalidAmount
                    && crate::decimal::decimal_quotient(self.amount@, other.amount@) is None,
            },
    {
        if self.currency != other.currency {
            return Err(MoneyError::MismatchedCurrencies);
        }
        match self.amount.checked_div(other.amount) {
            Some(d) => Ok(d),
            None => Err(MoneyError::InvalidAmount),
        }
    }

    /// The same amount with the opposite sign.
    pub fn neg(&self) -> (r: Money)
        ensures
            r.currency == self.currency,
            r.amount@ == (-self.amount@.0, self.amount@.1),
            units(r.amount@) == -units(self.amount@),
    {
        Money { amount: self.amount.neg(), currency: self.currency }
    }
}

/// Addition that reports a mismatch of currencies as an error.
pub trait CheckedAdd: Sized {
    /// `r` is what adding `other` to `self` gives.
    spec fn sum_is(&self, other: Self, r: Result<Self, MoneyError>) -> bool;

    fn checked_add(&self, other: Self) -> (r: Result<Self, MoneyError>)
        ensures
            self.sum_is(other, r),
    ;
}

/// Subtraction that reports a mismatch of currencies as an error.
pub trait CheckedSub: Sized {
    /// `r` is what taking `other` from `self` gives.
    spec fn difference_is(&self, other: Self, r: Result<Self, MoneyError>) -> bool;

    fn checked_sub(&self, other: Self) -> (r: Result<Self, MoneyError>)
        ensures
            self.difference_is(other, r),
    ;
}

/// Equality after rounding both sides to `dp` digits after the point.
pub trait RoundedEq: Sized {
    spec fn rounded_eq_spec(&self, other: Self, dp: u32) -> bool;

    fn rounded_eq(&self, other: Self, dp: u32) -> (r: bool)
        ensures
            r == self.rounded_eq_spec(other, dp),
    ;
}

/// The sum of two amounts of one currency; refused across currencies.
impl CheckedAdd for Money {
    open spec fn sum_is(&self, other: Money, r: Result<Money, MoneyError>) -> bool {
        money_is(r, money_sum(*self, other), self.currency)
    }

    fn checked_add(&self, other: Money) -> (r: Result<Money, MoneyError>) {
        if self.currency != other.currency {
            return Err(MoneyError::MismatchedCurrencies);
        }
        match self.amount.checked_add(other.amount) {
            Some(a) => Ok(Money { amount: a, currency: self.currency }),
            None => Err(MoneyError::InvalidAmount),
        }
    }
}

/// The difference of two amounts of one currency; refused across currencies.
impl CheckedSub for Money {
    open spec fn difference_is(&self, other: Money, r: Result<Money, MoneyError>) -> bool {
        money_is(r, money_difference(*self, other), self.currency)
    }

    fn checked_sub(&self, other: Money) -> (r: Result<Money, MoneyError>) {
        if self.currency != other.currency {
            return Err(MoneyError::MismatchedCurrencies);
        }
        match self.amount.checked_sub(other.amount) {
            Some(a) => Ok(Money { amount: a, currency: self.currency }),
            None => Err(MoneyError::InvalidAmount),
        }
    }
}

/// Both amounts rounded half to even to `dp` digits after the point are
/// equal; never across currencies.
impl RoundedEq for Money {
    open spec fn rounded_eq_spec(&self, other: Money, dp: u32) -> bool {
        self.currency == other.currency && units(decimal_rounded(self.amount@, dp as nat)) == units(
            decimal_rounded(other.amount@, dp as nat),
        )
    }

    fn rounded_eq(&self, other: Money, dp: u32) -> (r: bool) {
        if self.currency != other.currency {
            return false;
        }
        let a = self.amount.round_dp(dp);
        let b = other.amount.round_dp(dp);
        a == b
    }
}

impl PartialEq for Money {
    /// Same currency and equal amounts in value.
    fn eq(&self, other: &Money) -> (r: bool) {
        self.currency == other.currency && self.amount == other.amount
    }
}

impl vstd::std_specs::cmp::PartialEqSpecImpl for Money {
    open spec fn obeys_eq_spec() -> bool {
        true
    }

    open spec fn eq_spec(&self, other: &Money) -> bool {
        self.currency == other.currency && units(self.amount@) == units(other.amount@)
    }
}

/// Orders two amounts of one currency by value; none across currencies.
pub open spec fn money_order(a: Money, b: Money) -> Option<core::cmp::Ordering> {
    if a.currency != b.currency {
        None
    } else if units(a.amount@) < units(b.amount@) {
        Some(core::cmp::Ordering::Less)
    } else if units(a.amount@) == units(b.amount@) {
        Some(core::cmp::Ordering::Equal)
    } else {
        Some(core::cmp::Ordering::Greater)
    }
}

impl PartialOrd for Money {
    fn partial_cmp(&self, other: &Money) -> (r: Option<core::cmp::Ordering>) {
        if self.currency != other.currency {
            None
        } else {
            Some(self.amount.compare(&other.amount))
        }
    }
}

impl vstd::std_specs::cmp::PartialOrdSpecImpl for Money {
    open spec fn obeys_partial_cmp_spec() -> bool {
        true
    }

    open spec fn partial_cmp_spec(&self, other: &Money) -> Option<core::cmp::Ordering> {
        money_order(*self, *other)
    }
}

pub fn init_cad_money(amount: Decimal) -> (r: Money)
    ensures
        r.amount == amount,
        r.currency == Currency::CAD,
{
    Money { amount, currency: Currency::CAD }
}

pub fn init_usd_money(amount: Decimal) -> (r: Money)
    ensures
        r.amount == amount,
        r.currency == Currency::USD,
{
    Money { amount, currency: Currency::USD }
}

pub fn init_zero_amount(currency: Currency) -> (r: Money)
    ensures
        r.amount@ == (0int, 0nat),
        r.currency == currency,
{
    Money { amount: Decimal::zero(), currency }
}

} // verus!
