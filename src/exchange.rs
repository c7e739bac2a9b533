//! A directed table of exchange rates, and the operations that convert,
//! compare, combine and clamp amounts across currencies through it.
use crate::currency::Currency;
use crate::decimal::{product_of, decimal_quotient, sum_of, difference_of, units, Decimal};
use crate::money::{amount_or_invalid, money_is, CheckedAdd, CheckedSub, Money, MoneyError};
use vstd::prelude::*;

verus! {

/// The rate last recorded from `from` to `to` among `entries`.
pub open spec fn rate_in(entries: Seq<(Currency, Currency, Decimal)>, from: Currency, to: Currency) -> Option<Decimal>
    decreases entries.len(),
{
    if entries.len() == 0 {
        None
    } else {
        let e = entries.last();
        if e.0 == from && e.1 == to {
            Some(e.2)
        } else {
            rate_in(entries.drop_last(), from, to)
        }
    }
}

/// Where an amount lies relative to a half-open range `[min, max)`.
#[derive(Clone, Copy, Debug, PartialEq, Eq, Structural)]
pub enum PositionRelativeToRange {
    BeforeRange,
    WithinRange,
    AfterRange,
}

pub struct Exchange {
    rates: Vec<(Currency, Currency, Decimal)>,
}

impl View for Exchange {
    type V = Seq<(Currency, Currency, Decimal)>;

    closed spec fn view(&self) -> Seq<(Currency, Currency, Decimal)> {
        self.rates@
    }
}

/// Two comparable values: the first amount's units and the second converted
/// into the first's currency.
pub open spec fn pair_or_error(a: Money, b: Result<(int, nat), MoneyError>) -> Result<(int, int), MoneyError> {
    match b {
        Ok(v) => Ok((units(a.amount@), units(v))),
        Err(e) => Err(e),
    }
}

impl Exchange {
    /// The rate recorded from `from` to `to`, if any.
    pub open spec fn rate(self, from: Currency, to: Currency) -> Option<Decimal> {
        rate_in(self@, from, to)
    }

    /// The rate that converts `from` into `to`: the recorded one, else 1
    /// between a currency and itself.
    pub open spec fn rate_spec(self, from: Currency, to: Currency) -> Result<(int, nat), MoneyError> {
        match self.rate(from, to) {
            Some(r) => Ok(r@),
            None => if from == to {
                Ok((1int, 0nat))
            } else {
                Err(MoneyError::CouldNotFindExchangeRate)
            },
        }
    }

    /// The amount of `m` in currency `c`: unchanged in its own currency, else
    /// multiplied by the rate.
    pub open spec fn convert_spec(self, m: Money, c: Currency) -> Result<(int, nat), MoneyError> {
        if m.currency == c {
            Ok(m.amount@)
        } else {
            match self.rate_spec(m.currency, c) {
                Ok(r) => amount_or_invalid(product_of(m.amount@, r)),
                Err(e) => Err(e),
            }
        }
    }

    /// Both amounts converted into `out`, then added.
    pub open spec fn add_spec(self, a: Money, b: Money, out: Currency) -> Result<(int, nat), MoneyError> {
        match self.convert_spec(a, out) {
            Err(e) => Err(e),
            Ok(x) => match self.convert_spec(b, out) {
                Err(e) => Err(e),
                Ok(y) => amount_or_invalid(sum_of(x, y)),
            },
        }
    }

    /// Both amounts converted into `out`, then subtracted.
    pub open spec fn sub_spec(self, a: Money, b: Money, out: Currency) -> Result<(int, nat), MoneyError> {
        match self.convert_spec(a, out) {
            Err(e) => Err(e),
            Ok(x) => match self.convert_spec(b, out) {
                Err(e) => Err(e),
                Ok(y) => amount_or_invalid(difference_of(x, y)),
            },
        }
    }

    /// The values that a comparison of `a` with `b` compares: `b` is
    /// converted into the currency of `a`.
    pub open spec fn compared(self, a: Money, b: Money) -> Result<(int, int), MoneyError> {
        pair_or_error(a, self.convert_spec(b, a.currency))
    }

    /// `x` lies before, within or after `[lo, hi)`, each compared in the
    /// currency of `x`.
    pub open spec fn position_spec(self, x: Money, lo: Money, hi: Money) -> Result<PositionRelativeToRange, MoneyError> {
        match (self.compared(x, lo), self.compared(x, hi)) {
            (Err(e), _) => Err(e),
            (Ok(_), Err(e)) => Err(e),
            (Ok(p), Ok(q)) => if p.0 < p.1 {
                Ok(PositionRelativeToRange::BeforeRange)
            } else if q.0 < q.1 {
                Ok(PositionRelativeToRange::WithinRange)
            } else {
                Ok(PositionRelativeToRange::AfterRange)
            },
        }
    }

    /// `lo`, `x` or `hi` as `x` lies before, within or after the range,
    /// converted into `out`.
    pub open spec fn clamp_spec(self, x: Money, lo: Money, hi: Money, out: Currency) -> Result<(int, nat), MoneyError> {
        match self.position_spec(x, lo, hi) {
            Err(e) => Err(e),
            Ok(PositionRelativeToRange::BeforeRange) => self.convert_spec(lo, out),
            Ok(PositionRelativeToRange::WithinRange) => self.convert_spec(x, out),
            Ok(PositionRelativeToRange::AfterRange) => self.convert_spec(hi, out),
        }
    }

    pub fn new() -> (r: Exchange)
        ensures
            forall|from: Currency, to: Currency| r.rate(from, to) is None,
    {
        let r = Exchange { rates: Vec::new() };
        assert(r@ =~= Seq::<(Currency, Currency, Decimal)>::empty());
        r
    }

    /// Records the rate from `from` to `to`, replacing an earlier one.
    pub fn set_rate(&mut self, from: Currency, to: Currency, rate: Decimal)
        ensures
            final(self).rate(from, to) == Some(rate),
            forall|f: Currency, t: Currency|
                !(f == from && t == to) ==> final(self).rate(f, t) == old(self).rate(f, t),
    {
        self.rates.push((from, to, rate));
        proof {
            assert(final(self)@.drop_last() =~= old(self)@);
        }
    }

    /// Records `rate` from `from` to `to` and its inverse from `to` to
    /// `from`, both or neither: a rate that is not positive, or whose inverse
    /// does not fit, is refused with `InvalidRatio`.
    pub fn set_rate_and_inverse(&mut self, from: Currency, to: Currency, rate: Decimal) -> (r: Result<(), MoneyError>)
        ensures
            r is Ok <==> (units(rate@) > 0 && decimal_quotient((1int, 0nat), rate@) is Some),
            r is Err ==> r == Err::<(), MoneyError>(MoneyError::InvalidRatio) && final(self)@ == old(self)@,
            r is Ok ==> {
                &&& final(self).rate(to, from) matches Some(i) && Some(i@) == decimal_quotient((1int, 0nat), rate@)
                &&& from != to ==> final(self).rate(from, to) == Some(rate)
                &&& forall|f: Currency, t: Currency|
                    !(f == from && t == to) && !(f == to && t == from) ==> final(self).rate(f, t) == old(self).rate(f, t)
            },
    {
        if !rate.is_positive() {
            return Err(MoneyError::InvalidRatio);
        }
        match Decimal::one().checked_div(rate) {
            Some(inverse) => {
                self.set_rate(from, to, rate);
                self.set_rate(to, from, inverse);
                Ok(())
            },
            None => Err(MoneyError::InvalidRatio),
        }
    }

    /// The rate from `from` to `to`: the recorded one, else 1 between a
    /// currency and itself.
    pub fn get_rate(&self, from: Currency, to: Currency) -> (r: Result<Decimal, MoneyError>)
        ensures
            match (r, self.rate_spec(from, to)) {
                (Ok(d), Ok(v)) => d@ == v,
                (Err(e), Err(f)) => e == f,
                _ => false,
            },
    {
        let mut i: usize = self.rates.len();
        assert(self@.take(i as int) =~= self@);
        while i > 0
            invariant
                i <= self.rates@.len(),
                rate_in(self@, from, to) == rate_in(self@.take(i as int), from, to),
            decreases i,
        {
            assert(self@.take(i as int).drop_last() =~= self@.take(i - 1));
            i = i - 1;
            let e = &self.rates[i];
            if e.0 == from && e.1 == to {
                return Ok(e.2);
            }
        }
        if from == to {
            Ok(Decimal::one())
        } else {
            Err(MoneyError::CouldNotFindExchangeRate)
        }
    }

    /// The amount of `money` in `currency`.
    pub fn convert(&self, money: Money, currency: Currency) -> (r: Result<Money, MoneyError>)
        ensures
            money_is(r, self.convert_spec(money, currency), currency),
    {
        if money.currency == currency {
            return Ok(money);
        }
        match self.get_rate(money.currency, currency) {
            Err(e) => Err(e),
            Ok(rate) => match money.amount.checked_mul(rate) {
                Some(a) => Ok(Money { amount: a, currency }),
                None => Err(MoneyError::InvalidAmount),
            },
        }
    }

    /// Both amounts converted into `output_currency`, then added.
    pub fn add(&self, first: Money, second: Money, output_currency: Currency) -> (r: Result<Money, MoneyError>)
        ensures
            money_is(r, self.add_spec(first, second, output_currency), output_currency),
    {
        let a = match self.convert(first, output_currency) {
            Ok(a) => a,
            Err(e) => return Err(e),
        };
        let b = match self.convert(second, output_currency) {
            Ok(b) => b,
            Err(e) => return Err(e),
        };
        a.checked_add(b)
    }

    /// Both amounts converted into `output_currency`, then subtracted.
    pub fn sub(&self, first: Money, second: Money, output_currency: Currency) -> (r: Result<Money, MoneyError>)
        ensures
            money_is(r, self.sub_spec(first, second, output_currency), output_currency),
    {
        let a = match self.convert(first, output_currency) {
            Ok(a) => a,
            Err(e) => return Err(e),
        };
        let b = match self.convert(second, output_currency) {
            Ok(b) => b,
            Err(e) => return Err(e),
        };
        a.checked_sub(b)
    }

    /// `second` in the currency of `first`.
    fn converted_for(&self, first: Money, second: Money) -> (r: Result<Decimal, MoneyError>)
        ensures
            match (r, self.compared(first, second)) {
                (Ok(d), Ok(p)) => units(d@) == p.1,
                (Err(e), Err(f)) => e == f,
                _ => false,
            },
    {
        match self.convert(second, first.currency) {
            Ok(m) => Ok(m.amount),
            Err(e) => Err(e),
        }
    }

    /// `first < second`, `second` converted into the currency of `first`.
    pub fn lt(&self, first: Money, second: Money) -> (r: Result<bool, MoneyError>)
        ensures
            match (r, self.compared(first, second)) {
                (Ok(b), Ok(p)) => b == (p.0 < p.1),
                (Err(e), Err(f)) => e == f,
                _ => false,
            },
    {
        match self.converted_for(first, second) {
            Ok(d) => Ok(first.amount.lt(&d)),
            Err(e) => Err(e),
        }
    }

    /// `first <= second`, `second` converted into the currency of `first`.
    pub fn lte(&self, first: Money, second: Money) -> (r: Result<bool, MoneyError>)
        ensures
            match (r, self.compared(first, second)) {
                (Ok(b), Ok(p)) => b == (p.0 <= p.1),
                (Err(e), Err(f)) => e == f,
                _ => false,
            },
    {
        match self.converted_for(first, second) {
            Ok(d) => Ok(first.amount.le(&d)),
            Err(e) => Err(e),
        }
    }

    /// `first == second` in value, `second` converted into the currency of `first`.
    pub fn eq(&self, first: Money, second: Money) -> (r: Result<bool, MoneyError>)
        ensures
            match (r, self.compared(first, second)) {
                (Ok(b), Ok(p)) => b == (p.0 == p.1),
                (Err(e), Err(f)) => e == f,
                _ => false,
            },
    {
        match self.converted_for(first, second) {
            Ok(d) => Ok(first.amount == d),
            Err(e) => Err(e),
        }
    }

    /// `first >= second`, `second` converted into the currency of `first`.
    pub fn gte(&self, first: Money, second: Money) -> (r: Result<bool, MoneyError>)
        ensures
            match (r, self.compared(first, second)) {
                (Ok(b), Ok(p)) => b == (p.0 >= p.1),
                (Err(e), Err(f)) => e == f,
                _ => false,
            },
    {
        match self.converted_for(first, second) {
            Ok(d) => Ok(d.le(&first.amount)),
            Err(e) => Err(e),
        }
    }

    /// `first > second`, `second` converted into the currency of `first`.
    pub fn gt(&self, first: Money, second: Money) -> (r: Result<bool, MoneyError>)
        ensures
            match (r, self.compared(first, second)) {
                (Ok(b), Ok(p)) => b == (p.0 > p.1),
                (Err(e), Err(f)) => e == f,
                _ => false,
            },
    {
        match self.converted_for(first, second) {
            Ok(d) => Ok(d.lt(&first.amount)),
            Err(e) => Err(e),
        }
    }

    /// Where `input` lies relative to `[min, max)`.
    pub fn position_relative_to_range(&self, input: Money, min: Money, max: Money) -> (r: Result<PositionRelativeToRange, MoneyError>)
        ensures
            r == self.position_spec(input, min, max),
    {
        let less_than_min = match self.lt(input, min) {
            Ok(b) => b,
            Err(e) => return Err(e),
        };
        let less_than_max = match self.lt(input, max) {
            Ok(b) => b,
            Err(e) => return Err(e),
        };
        if less_than_min {
            Ok(PositionRelativeToRange::BeforeRange)
        } else if less_than_max {
            Ok(PositionRelativeToRange::WithinRange)
        } else {
            Ok(PositionRelativeToRange::AfterRange)
        }
    }

    /// `min`, `input` or `max`, as `input` lies before, within or after
    /// `[min, max)`, converted into `output_currency`.
    pub fn clamp(&self, input: Money, min: Money, max: Money, output_currency: Currency) -> (r: Result<Money, MoneyError>)
        ensures
            money_is(r, self.clamp_spec(input, min, max, output_currency), output_currency),
    {
        match self.position_relative_to_range(input, min, max) {
            Err(e) => Err(e),
            Ok(PositionRelativeToRange::BeforeRange) => self.convert(min, output_currency),
            Ok(PositionRelativeToRange::WithinRange) => self.convert(input, output_currency),
            Ok(PositionRelativeToRange::AfterRange) => self.convert(max, output_currency),
        }
    }
}

} // verus!
