//! What holds of the library across calls, proved from the contracts of its
//! functions. Decimal arithmetic is exact only where a result fits in a
//! decimal; each law that depends on it says where it is taken to fit.
use crate::currency::Currency;
use crate::decimal::{
    abs, aligned, decimal_wf, difference_of, exact_difference, exact_product, exact_sum,
    lemma_exact_difference_units, lemma_exact_product_units, lemma_exact_sum_units, max_nat,
    pow10, units, MAX_MANTISSA, MAX_SCALE,
};
use crate::exchange::{Exchange, PositionRelativeToRange};
use crate::money::{money_sum, Money};
use crate::regime::{knows_credit, knows_deduction};
use crate::schedule::{credit_index, deduction_index, outcome_spec, TaxSchedule};
use crate::tax::{
    difference_times, outcome_sum, signed_view, Income, TaxBracket, TaxCalculation, TaxCreditClaim,
    TaxDeductionClaim,
};
use vstd::prelude::*;

verus! {

proof fn lemma_aligned_self(d: (int, nat))
    ensures
        aligned(d, d.1) == d.0,
{
    assert((d.1 - d.1) as nat == 0nat);
    assert(pow10(0) == 1);
    assert(d.0 * 1 == d.0);
}

proof fn lemma_units_neg(d: (int, nat))
    ensures
        units((-d.0, d.1)) == -units(d),
{
    assert(units((-d.0, d.1)) == -units(d)) by (nonlinear_arith)
        requires
            units((-d.0, d.1)) == -d.0 * pow10((MAX_SCALE - d.1) as nat),
            units(d) == d.0 * pow10((MAX_SCALE - d.1) as nat),
    ;
}

proof fn lemma_units_zero(d: (int, nat))
    requires
        d.1 <= MAX_SCALE,
    ensures
        (units(d) == 0) == (d.0 == 0),
{
    crate::decimal::lemma_pow10_positive((MAX_SCALE - d.1) as nat);
    assert((units(d) == 0) == (d.0 == 0)) by (nonlinear_arith)
        requires
            units(d) == d.0 * pow10((MAX_SCALE - d.1) as nat),
            pow10((MAX_SCALE - d.1) as nat) >= 1,
    ;
}

/// An exact sum does not depend on the order of its operands, up to the
/// scale of a zero.
proof fn lemma_exact_sum_commutes(a: (int, nat), b: (int, nat))
    requires
        decimal_wf(a),
        decimal_wf(b),
        exact_sum(a, b) is Some,
    ensures
        exact_sum(b, a) is Some,
        units(exact_sum(b, a)->0) == units(exact_sum(a, b)->0),
{
    lemma_exact_sum_units(a, b);
    if a.0 != 0 && b.0 != 0 {
        assert(max_nat(a.1, b.1) == max_nat(b.1, a.1));
    }
    lemma_exact_sum_units(b, a);
}

/// Outcomes whose signed sums fit without rounding.
pub open spec fn outcome_sum_exact(x: (bool, (int, nat)), y: (bool, (int, nat))) -> bool {
    exact_sum(signed_view(x.0, x.1), signed_view(y.0, y.1)) is Some
}

/// The signed value of an outcome.
pub open spec fn outcome_units(x: (bool, (int, nat))) -> int {
    units(signed_view(x.0, x.1))
}

proof fn lemma_signed_view(x: (bool, (int, nat)))
    requires
        decimal_wf(x.1),
    ensures
        decimal_wf(signed_view(x.0, x.1)),
        outcome_units(x) == if x.0 {
            units(x.1)
        } else {
            -units(x.1)
        },
{
    lemma_units_neg(x.1);
}

/// The outcome of an exact signed sum has that sum as its signed value, and
/// is a liability exactly when the sum is not negative.
proof fn lemma_outcome_sum_value(x: (bool, (int, nat)), y: (bool, (int, nat)))
    requires
        decimal_wf(x.1),
        decimal_wf(y.1),
        outcome_sum_exact(x, y),
    ensures
        outcome_sum(x, y) matches Ok(v) && {
            &&& decimal_wf(v.1)
            &&& outcome_units(v) == outcome_units(x) + outcome_units(y)
            &&& v.0 == (outcome_units(x) + outcome_units(y) >= 0)
        },
{
    lemma_signed_view(x);
    lemma_signed_view(y);
    let sx = signed_view(x.0, x.1);
    let sy = signed_view(y.0, y.1);
    lemma_exact_sum_units(sx, sy);
    let v = exact_sum(sx, sy)->0;
    lemma_units_neg(v);
    let w = TaxCalculation::from_signed(v);
    lemma_signed_view(w);
}

/// A liability and a refund of one amount add up to a zero liability.
pub proof fn law_liability_and_equal_refund_cancel(a: (int, nat))
    requires
        decimal_wf(a),
    ensures
        outcome_sum((true, a), (false, a)) matches Ok(v) && v.0 && units(v.1) == 0,
{
    let b = (-a.0, a.1);
    lemma_aligned_self(a);
    lemma_aligned_self(b);
    assert(exact_sum(a, b) is Some);
    lemma_outcome_sum_value((true, a), (false, a));
    lemma_units_neg(a);
}

/// Adding two outcomes does not depend on their order, wherever the signed
/// sum fits without rounding.
pub proof fn law_outcome_sum_commutes(x: (bool, (int, nat)), y: (bool, (int, nat)))
    requires
        decimal_wf(x.1),
        decimal_wf(y.1),
        outcome_sum_exact(x, y),
    ensures
        outcome_sum(x, y) matches Ok(u) && outcome_sum(y, x) matches Ok(w) && u.0 == w.0 && units(
            u.1,
        ) == units(w.1),
{
    lemma_signed_view(x);
    lemma_signed_view(y);
    lemma_exact_sum_commutes(signed_view(x.0, x.1), signed_view(y.0, y.1));
    lemma_outcome_sum_value(x, y);
    lemma_outcome_sum_value(y, x);
    let u = outcome_sum(x, y)->Ok_0;
    let w = outcome_sum(y, x)->Ok_0;
    lemma_signed_view(u);
    lemma_signed_view(w);
}

/// Adding outcomes is associative, wherever every signed sum on both sides
/// fits without rounding.
pub proof fn law_outcome_sum_associates(x: (bool, (int, nat)), y: (bool, (int, nat)), z: (bool, (int, nat)))
    requires
        decimal_wf(x.1),
        decimal_wf(y.1),
        decimal_wf(z.1),
        outcome_sum_exact(x, y),
        outcome_sum_exact(y, z),
        outcome_sum_exact(outcome_sum(x, y)->Ok_0, z),
        outcome_sum_exact(x, outcome_sum(y, z)->Ok_0),
    ensures
        outcome_sum(outcome_sum(x, y)->Ok_0, z) matches Ok(l) && outcome_sum(
            x,
            outcome_sum(y, z)->Ok_0,
        ) matches Ok(r) && l.0 == r.0 && units(l.1) == units(r.1),
{
    lemma_outcome_sum_value(x, y);
    lemma_outcome_sum_value(y, z);
    let xy = outcome_sum(x, y)->Ok_0;
    let yz = outcome_sum(y, z)->Ok_0;
    lemma_outcome_sum_value(xy, z);
    lemma_outcome_sum_value(x, yz);
    let l = outcome_sum(xy, z)->Ok_0;
    let r = outcome_sum(x, yz)->Ok_0;
    lemma_signed_view(l);
    lemma_signed_view(r);
}

/// Adding an amount and taking it away again gives back the first amount,
/// wherever both amounts and their sum, written at the larger of their
/// scales, fit in a mantissa.
pub proof fn law_sum_then_difference(a: Money, b: Money)
    requires
        a.currency == b.currency,
        decimal_wf(a.amount@),
        decimal_wf(b.amount@),
        abs(aligned(a.amount@, max_nat(a.amount@.1, b.amount@.1))) <= MAX_MANTISSA,
        exact_sum(a.amount@, b.amount@) is Some,
    ensures
        money_sum(a, b) matches Ok(s) && difference_of(s, b.amount@) matches Some(d) && units(d)
            == units(a.amount@),
{
    let x = a.amount@;
    let y = b.amount@;
    lemma_exact_sum_units(x, y);
    let s = exact_sum(x, y)->0;
    assert(money_sum(a, b) == Ok::<(int, nat), crate::money::MoneyError>(s));
    if x.0 == 0 {
        // s is b itself; s - b is zero.
        assert(s == y);
        if y.0 == 0 {
            assert(exact_difference(s, y) is Some);
        } else {
            lemma_aligned_self(y);
            assert(exact_difference(s, y) == Some((0int, y.1)));
        }
        lemma_exact_difference_units(s, y);
        lemma_units_zero(x);
    } else if y.0 == 0 {
        assert(s == x);
        assert(exact_difference(s, y) == Some(x));
    } else {
        let sc = max_nat(x.1, y.1);
        assert(s == (aligned(x, sc) + aligned(y, sc), sc));
        if s.0 == 0 {
            assert(exact_difference(s, y) is Some);
            lemma_exact_difference_units(s, y);
        } else {
            lemma_aligned_self(s);
            assert(max_nat(s.1, y.1) == sc);
            assert(aligned(s, sc) - aligned(y, sc) == aligned(x, sc));
            assert(exact_difference(s, y) is Some);
            lemma_exact_difference_units(s, y);
        }
    }
}

/// A credit claim that no rule of the schedule is registered for.
pub open spec fn credits_unknown(s: TaxSchedule, credits: Seq<TaxCreditClaim>) -> bool {
    forall|i: int| 0 <= i < credits.len() ==> credit_index(s@.credits, #[trigger] credits[i].tax_credit_identifier@) is None
}

proof fn lemma_unknown_credits_add_nothing(s: TaxSchedule, credits: Seq<TaxCreditClaim>, refundable: bool, n: nat)
    requires
        n <= credits.len(),
        credits_unknown(s, credits),
    ensures
        s.credit_prefix(credits, refundable, n) == Ok::<(int, nat), crate::tax::TaxError>((0int, 0nat)),
    decreases n,
{
    if n > 0 {
        lemma_unknown_credits_add_nothing(s, credits, refundable, (n - 1) as nat);
        assert(credit_index(s@.credits, credits[n - 1].tax_credit_identifier@) is None);
    }
}

/// With a gross tax of zero and no credit claim that the schedule knows, the
/// outcome is zero.
pub proof fn law_no_tax_and_no_credit_is_zero(s: TaxSchedule, incomes: Seq<Income>, deductions: Seq<TaxDeductionClaim>, credits: Seq<TaxCreditClaim>)
    requires
        s.taxable_spec(incomes, deductions) matches Ok(x) && s.gross_spec(x) matches Ok(g) && units(g) == 0
            && g.1 <= MAX_SCALE,
        credits_unknown(s, credits),
    ensures
        s.calculation_spec(incomes, deductions, credits) matches Ok(o) && units(o.1) == 0,
{
    lemma_unknown_credits_add_nothing(s, credits, false, credits.len());
    lemma_unknown_credits_add_nothing(s, credits, true, credits.len());
    let x = s.taxable_spec(incomes, deductions)->Ok_0;
    let g = s.gross_spec(x)->Ok_0;
    lemma_units_zero(g);
    let zero = (0int, 0nat);
    assert(exact_difference(g, zero) is Some);
    let t = exact_difference(g, zero)->0;
    assert(units(t) == 0) by {
        lemma_units_zero(t);
    }
    assert(exact_difference(t, zero) is Some);
    let d = exact_difference(t, zero)->0;
    assert(units(d) == 0) by {
        lemma_units_zero(d);
    }
    lemma_units_neg(d);
    assert(outcome_spec(g, zero, zero) == Ok::<(bool, (int, nat)), crate::tax::TaxError>((false, (-d.0, d.1))));
}

/// `(a - b) * r` is computed without rounding.
pub open spec fn difference_times_exact(a: (int, nat), b: (int, nat), r: (int, nat)) -> bool {
    exact_difference(a, b) matches Some(d) && exact_product(d, r) is Some
}

proof fn lemma_difference_times(a: (int, nat), b: (int, nat), r: (int, nat))
    requires
        decimal_wf(a),
        decimal_wf(b),
        decimal_wf(r),
        difference_times_exact(a, b, r),
    ensures
        difference_times(a, b, r) matches Ok(t) && decimal_wf(t) && units(t) * pow10(MAX_SCALE as nat)
            == (units(a) - units(b)) * units(r),
{
    lemma_exact_difference_units(a, b);
    let d = exact_difference(a, b)->0;
    lemma_exact_product_units(d, r);
}

/// The bounds and the rate of a bracket are decimals.
pub open spec fn bracket_valid(b: TaxBracket) -> bool {
    &&& decimal_wf(b.min_money.amount@)
    &&& decimal_wf(b.rate@)
    &&& b.max_money matches Some(max) ==> decimal_wf(max.amount@)
}

/// A bracket's contribution to the tax on `x`: nothing below its lower
/// bound, `(x - min) * rate` inside the range and `(max - min) * rate` from
/// the upper bound on (values in units of 10^-28, products scaled by 10^28),
/// wherever the difference and the product fit without rounding.
pub proof fn law_bracket_contribution(b: TaxBracket, x: Money)
    requires
        bracket_valid(b),
        b.currencies_match(),
        x.currency == b.min_money.currency,
        decimal_wf(x.amount@),
    ensures
        units(x.amount@) < units(b.min_money.amount@) ==> b.tax_spec(x) == Ok::<
            (int, nat),
            crate::tax::TaxError,
        >((0int, 0nat)),
        units(b.min_money.amount@) <= units(x.amount@) && (b.max_money matches Some(max) ==> units(
            x.amount@,
        ) < units(max.amount@)) && difference_times_exact(x.amount@, b.min_money.amount@, b.rate@)
            ==> (b.tax_spec(x) matches Ok(t) && units(t) * pow10(MAX_SCALE as nat) == (units(
            x.amount@,
        ) - units(b.min_money.amount@)) * units(b.rate@)),
        match b.max_money {
            Some(max) => units(b.min_money.amount@) <= units(x.amount@) && units(max.amount@) <= units(
                x.amount@,
            ) && difference_times_exact(max.amount@, b.min_money.amount@, b.rate@) ==> (b.tax_spec(
                x,
            ) matches Ok(t) && units(t) * pow10(MAX_SCALE as nat) == (units(max.amount@) - units(
                b.min_money.amount@,
            )) * units(b.rate@)),
            None => true,
        },
{
    if difference_times_exact(x.amount@, b.min_money.amount@, b.rate@) {
        lemma_difference_times(x.amount@, b.min_money.amount@, b.rate@);
    }
    if let Some(max) = b.max_money {
        if difference_times_exact(max.amount@, b.min_money.amount@, b.rate@) {
            lemma_difference_times(max.amount@, b.min_money.amount@, b.rate@);
        }
    }
}

/// A bracket's contribution at a value `v` in units of 10^-28, scaled by 10^28.
pub open spec fn contribution_units(b: TaxBracket, v: int) -> int {
    let lo = units(b.min_money.amount@);
    let r = units(b.rate@);
    if v < lo {
        0
    } else {
        match b.max_money {
            Some(max) => if v >= units(max.amount@) {
                (units(max.amount@) - lo) * r
            } else {
                (v - lo) * r
            },
            None => (v - lo) * r,
        }
    }
}

/// The contributions of the first `n` brackets at `v`, added up.
pub open spec fn gross_units(bs: Seq<TaxBracket>, v: int, n: nat) -> int
    decreases n,
{
    if n == 0 {
        0
    } else {
        gross_units(bs, v, (n - 1) as nat) + contribution_units(bs[n - 1], v)
    }
}

/// The bracket's contribution at `x` is computed without rounding.
pub open spec fn bracket_exact(b: TaxBracket, x: (int, nat)) -> bool {
    if units(x) < units(b.min_money.amount@) {
        true
    } else {
        match b.max_money {
            Some(max) => if units(x) >= units(max.amount@) {
                difference_times_exact(max.amount@, b.min_money.amount@, b.rate@)
            } else {
                difference_times_exact(x, b.min_money.amount@, b.rate@)
            },
            None => difference_times_exact(x, b.min_money.amount@, b.rate@),
        }
    }
}

/// The gross tax on `x` over the first `n` brackets is computed without
/// rounding: every contribution and every partial sum fits.
pub open spec fn gross_exact(s: TaxSchedule, x: (int, nat), n: nat) -> bool
    decreases n,
{
    if n == 0 {
        true
    } else {
        &&& gross_exact(s, x, (n - 1) as nat)
        &&& bracket_exact(s@.brackets[n - 1], x)
        &&& (s.gross_prefix(x, (n - 1) as nat) matches Ok(acc) && s@.brackets[n - 1].tax_at(
            x,
            s@.currency,
        ) matches Ok(t) ==> exact_sum(acc, t) is Some)
    }
}

/// Every bracket holds decimals, a rate that is not negative and an upper
/// bound that is not below the lower one.
pub open spec fn brackets_sound(s: TaxSchedule) -> bool {
    forall|i: int|
        0 <= i < s@.brackets.len() ==> {
            &&& bracket_valid(#[trigger] s@.brackets[i])
            &&& units(s@.brackets[i].rate@) >= 0
            &&& (s@.brackets[i].max_money matches Some(max) ==> units(
                s@.brackets[i].min_money.amount@,
            ) <= units(max.amount@))
        }
}

proof fn lemma_bracket_tax_units(b: TaxBracket, x: (int, nat), c: Currency)
    requires
        bracket_valid(b),
        decimal_wf(x),
        b.currencies_match(),
        b.min_money.currency == c,
        bracket_exact(b, x),
    ensures
        b.tax_at(x, c) matches Ok(t) && decimal_wf(t) && units(t) * pow10(MAX_SCALE as nat)
            == contribution_units(b, units(x)),
{
    let lo = b.min_money.amount@;
    if units(x) < units(lo) {
        assert(units((0int, 0nat)) == 0) by (nonlinear_arith)
            requires
                units((0int, 0nat)) == 0 * pow10((MAX_SCALE - 0) as nat),
        ;
    } else {
        match b.max_money {
            Some(max) => if units(x) >= units(max.amount@) {
                lemma_difference_times(max.amount@, lo, b.rate@);
            } else {
                lemma_difference_times(x, lo, b.rate@);
            },
            None => lemma_difference_times(x, lo, b.rate@),
        }
    }
}

proof fn lemma_gross_units(s: TaxSchedule, x: (int, nat), n: nat)
    requires
        n <= s@.brackets.len(),
        s.wf(),
        brackets_sound(s),
        decimal_wf(x),
        gross_exact(s, x, n),
    ensures
        s.gross_prefix(x, n) matches Ok(g) && decimal_wf(g) && units(g) * pow10(MAX_SCALE as nat)
            == gross_units(s@.brackets, units(x), n),
    decreases n,
{
    if n == 0 {
        assert(units((0int, 0nat)) * pow10(MAX_SCALE as nat) == 0) by (nonlinear_arith)
            requires
                units((0int, 0nat)) == 0 * pow10((MAX_SCALE - 0) as nat),
        ;
    } else {
        lemma_gross_units(s, x, (n - 1) as nat);
        let b = s@.brackets[n - 1];
        assert(bracket_valid(b));
        assert(crate::schedule::bracket_in(b, s@.currency));
        lemma_bracket_tax_units(b, x, s@.currency);
        let acc = s.gross_prefix(x, (n - 1) as nat)->Ok_0;
        let t = b.tax_at(x, s@.currency)->Ok_0;
        lemma_exact_sum_units(acc, t);
        let p = pow10(MAX_SCALE as nat);
        assert((units(acc) + units(t)) * p == units(acc) * p + units(t) * p) by (nonlinear_arith);
    }
}

proof fn lemma_contribution_monotonic(b: TaxBracket, v1: int, v2: int)
    requires
        v1 <= v2,
        units(b.rate@) >= 0,
        b.max_money matches Some(max) ==> units(b.min_money.amount@) <= units(max.amount@),
    ensures
        contribution_units(b, v1) <= contribution_units(b, v2),
{
    let lo = units(b.min_money.amount@);
    let r = units(b.rate@);
    if v1 >= lo {
        match b.max_money {
            Some(max) => {
                let hi = units(max.amount@);
                if v2 >= hi {
                    if v1 < hi {
                        assert((v1 - lo) * r <= (hi - lo) * r) by (nonlinear_arith)
                            requires
                                v1 <= hi,
                                r >= 0,
                        ;
                    }
                } else {
                    assert((v1 - lo) * r <= (v2 - lo) * r) by (nonlinear_arith)
                        requires
                            v1 <= v2,
                            r >= 0,
                    ;
                }
            },
            None => {
                assert((v1 - lo) * r <= (v2 - lo) * r) by (nonlinear_arith)
                    requires
                        v1 <= v2,
                        r >= 0,
                ;
            },
        }
    } else if v2 >= lo {
        match b.max_money {
            Some(max) => {
                let hi = units(max.amount@);
                if v2 >= hi {
                    assert(0 <= (hi - lo) * r) by (nonlinear_arith)
                        requires
                            lo <= hi,
                            r >= 0,
                    ;
                } else {
                    assert(0 <= (v2 - lo) * r) by (nonlinear_arith)
                        requires
                            lo <= v2,
                            r >= 0,
                    ;
                }
            },
            None => {
                assert(0 <= (v2 - lo) * r) by (nonlinear_arith)
                    requires
                        lo <= v2,
                        r >= 0,
                ;
            },
        }
    }
}

proof fn lemma_gross_units_monotonic(s: TaxSchedule, v1: int, v2: int, n: nat)
    requires
        n <= s@.brackets.len(),
        brackets_sound(s),
        v1 <= v2,
    ensures
        gross_units(s@.brackets, v1, n) <= gross_units(s@.brackets, v2, n),
    decreases n,
{
    if n > 0 {
        lemma_gross_units_monotonic(s, v1, v2, (n - 1) as nat);
        let b = s@.brackets[n - 1];
        assert(units(b.rate@) >= 0);
        lemma_contribution_monotonic(b, v1, v2);
    }
}

/// The gross tax does not fall as the taxable income rises, wherever both
/// gross taxes are computed without rounding.
pub proof fn law_gross_tax_is_monotonic(s: TaxSchedule, x1: (int, nat), x2: (int, nat))
    requires
        s.wf(),
        brackets_sound(s),
        decimal_wf(x1),
        decimal_wf(x2),
        units(x1) <= units(x2),
        gross_exact(s, x1, s@.brackets.len()),
        gross_exact(s, x2, s@.brackets.len()),
    ensures
        s.gross_spec(x1) matches Ok(g1) && s.gross_spec(x2) matches Ok(g2) && units(g1) <= units(
            g2,
        ),
{
    let n = s@.brackets.len();
    lemma_gross_units(s, x1, n);
    lemma_gross_units(s, x2, n);
    lemma_gross_units_monotonic(s, units(x1), units(x2), n);
    let g1 = s.gross_spec(x1)->Ok_0;
    let g2 = s.gross_spec(x2)->Ok_0;
    let p = pow10(MAX_SCALE as nat);
    crate::decimal::lemma_pow10_positive(MAX_SCALE as nat);
    assert(units(g1) <= units(g2)) by (nonlinear_arith)
        requires
            units(g1) * p <= units(g2) * p,
            p >= 1,
    ;
}

/// Converting into another currency and back gives back the amount where the
/// two recorded rates are exact inverses and both products fit without
/// rounding.
pub proof fn law_exchange_round_trip(ex: Exchange, m: Money, there: Money, to: Currency)
    requires
        m.currency != to,
        there.currency == to,
        ex.rate(m.currency, to) matches Some(r) && ex.rate(to, m.currency) matches Some(i) && {
            &&& decimal_wf(r@)
            &&& decimal_wf(i@)
            &&& units(r@) * units(i@) == pow10(MAX_SCALE as nat) * pow10(MAX_SCALE as nat)
            &&& exact_product(m.amount@, r@) is Some
            &&& exact_product(there.amount@, i@) is Some
        },
        decimal_wf(m.amount@),
        decimal_wf(there.amount@),
        ex.convert_spec(m, to) == Ok::<(int, nat), crate::money::MoneyError>(there.amount@),
    ensures
        ex.convert_spec(there, m.currency) matches Ok(back) && units(back) == units(m.amount@),
{
    let r = ex.rate(m.currency, to)->0;
    let i = ex.rate(to, m.currency)->0;
    lemma_exact_product_units(m.amount@, r@);
    lemma_exact_product_units(there.amount@, i@);
    let back = exact_product(there.amount@, i@)->0;
    let p = pow10(MAX_SCALE as nat);
    crate::decimal::lemma_pow10_positive(MAX_SCALE as nat);
    let a = units(m.amount@);
    let t = units(there.amount@);
    let q = units(back);
    assert(q == a) by (nonlinear_arith)
        requires
            t * p == a * units(r@),
            q * p == t * units(i@),
            units(r@) * units(i@) == p * p,
            p >= 1,
    {
        assert(q * p * p == t * units(i@) * p);
        assert(t * units(i@) * p == t * p * units(i@));
        assert(q * p * p == a * units(r@) * units(i@));
        assert(q * p * p == a * p * p);
    }
}

/// The bracket whose rate is marginal at `x`: the one with the greatest
/// lower bound strictly below `x`, or the first bracket where no lower bound
/// is below `x`.
pub open spec fn is_marginal_bracket(bs: Seq<TaxBracket>, x: (int, nat), k: int, n: nat) -> bool {
    &&& 0 <= k < n
    &&& {
        ||| (units(bs[k].min_money.amount@) < units(x) && forall|j: int|
            0 <= j < n && units(#[trigger] bs[j].min_money.amount@) < units(x) ==> units(
                bs[j].min_money.amount@,
            ) <= units(bs[k].min_money.amount@))
        ||| (k == 0 && forall|j: int|
            0 <= j < n ==> !(units(#[trigger] bs[j].min_money.amount@) < units(x)))
    }
}

proof fn lemma_marginal_prefix(s: TaxSchedule, x: (int, nat), n: nat)
    requires
        s.wf(),
        1 <= n <= s@.brackets.len(),
    ensures
        s.marginal_prefix(x, n) matches Some(k) && is_marginal_bracket(s@.brackets, x, k, n),
    decreases n,
{
    let bs = s@.brackets;
    if n > 1 {
        lemma_marginal_prefix(s, x, (n - 1) as nat);
        assert(crate::schedule::bracket_in(bs[n - 1], s@.currency));
        let k = s.marginal_prefix(x, (n - 1) as nat)->0;
        if units(x) > units(bs[n - 1].min_money.amount@) {
            assert forall|j: int|
                0 <= j < n && units(#[trigger] bs[j].min_money.amount@) < units(x) implies units(
                bs[j].min_money.amount@,
            ) <= units(bs[n - 1].min_money.amount@) by {
                if j < n - 1 {
                    assert(crate::schedule::sorted_by_min(bs));
                }
            }
        }
    }
}

/// The marginal rate of a schedule is that of the bracket with the greatest
/// lower bound strictly below the taxable income, or of the first bracket
/// where none is below it.
pub proof fn law_marginal_bracket(s: TaxSchedule, incomes: Seq<Income>, deductions: Seq<TaxDeductionClaim>)
    requires
        s.wf(),
        s@.brackets.len() > 0,
        s.taxable_spec(incomes, deductions) is Ok,
    ensures
        exists|k: int|
            is_marginal_bracket(s@.brackets, s.taxable_spec(incomes, deductions)->Ok_0, k, s@.brackets.len())
                && s.marginal_spec(incomes, deductions) == Ok::<crate::decimal::Decimal, crate::tax::TaxError>(s@.brackets[k].rate),
{
    let x = s.taxable_spec(incomes, deductions)->Ok_0;
    lemma_marginal_prefix(s, x, s@.brackets.len());
    let k = s.marginal_prefix(x, s@.brackets.len())->0;
    assert(is_marginal_bracket(s@.brackets, x, k, s@.brackets.len()));
}

proof fn lemma_deduction_prefix_push(s: TaxSchedule, claims: Seq<TaxDeductionClaim>, e: TaxDeductionClaim, n: nat)
    requires
        n <= claims.len(),
    ensures
        s.deduction_prefix(claims.push(e), n) == s.deduction_prefix(claims, n),
    decreases n,
{
    if n > 0 {
        lemma_deduction_prefix_push(s, claims, e, (n - 1) as nat);
        assert(claims.push(e)[n - 1] == claims[n - 1]);
    }
}

proof fn lemma_credit_prefix_push(s: TaxSchedule, claims: Seq<TaxCreditClaim>, e: TaxCreditClaim, refundable: bool, n: nat)
    requires
        n <= claims.len(),
    ensures
        s.credit_prefix(claims.push(e), refundable, n) == s.credit_prefix(claims, refundable, n),
    decreases n,
{
    if n > 0 {
        lemma_credit_prefix_push(s, claims, e, refundable, (n - 1) as nat);
        assert(claims.push(e)[n - 1] == claims[n - 1]);
    }
}

proof fn lemma_deduction_routing(s: TaxSchedule, claims: Seq<TaxDeductionClaim>)
    ensures
        s.deduction_prefix(
            claims.filter(knows_deduction(s)),
            claims.filter(knows_deduction(s)).len(),
        ) == s.deduction_prefix(claims, claims.len()),
    decreases claims.len(),
{
    if claims.len() > 0 {
        let p = knows_deduction(s);
        let init = claims.drop_last();
        let e = claims.last();
        lemma_deduction_routing(s, init);
        assert(claims =~= init.push(e));
        init.lemma_filter_push(e, p);
        lemma_deduction_prefix_push(s, init, e, init.len());
        let f = init.filter(p);
        if p(e) {
            lemma_deduction_prefix_push(s, f, e, f.len());
            assert(f.push(e)[f.len() as int] == e);
        }
    }
}

proof fn lemma_credit_routing(s: TaxSchedule, claims: Seq<TaxCreditClaim>, refundable: bool)
    ensures
        s.credit_prefix(
            claims.filter(knows_credit(s)),
            refundable,
            claims.filter(knows_credit(s)).len(),
        ) == s.credit_prefix(claims, refundable, claims.len()),
    decreases claims.len(),
{
    if claims.len() > 0 {
        let p = knows_credit(s);
        let init = claims.drop_last();
        let e = claims.last();
        lemma_credit_routing(s, init, refundable);
        assert(claims =~= init.push(e));
        init.lemma_filter_push(e, p);
        lemma_credit_prefix_push(s, init, e, refundable, init.len());
        let f = init.filter(p);
        if p(e) {
            lemma_credit_prefix_push(s, f, e, refundable, f.len());
            assert(f.push(e)[f.len() as int] == e);
        }
    }
}

/// Handing a schedule only the claims that it has rules for gives the same
/// outcome and the same marginal rate as handing it every claim.
pub proof fn law_routing_claims_changes_nothing(s: TaxSchedule, incomes: Seq<Income>, deductions: Seq<TaxDeductionClaim>, credits: Seq<TaxCreditClaim>)
    ensures
        s.calculation_spec(
            incomes,
            deductions.filter(knows_deduction(s)),
            credits.filter(knows_credit(s)),
        ) == s.calculation_spec(incomes, deductions, credits),
        s.marginal_spec(incomes, deductions.filter(knows_deduction(s))) == s.marginal_spec(
            incomes,
            deductions,
        ),
{
    lemma_deduction_routing(s, deductions);
    lemma_credit_routing(s, credits, false);
    lemma_credit_routing(s, credits, true);
}

/// Clamping is half-open at the top: an amount equal to the lower bound lies
/// within the range, one equal to the upper bound after it (bounds and
/// amount in one currency, the lower bound below the upper).
pub proof fn law_clamp_ties(ex: Exchange, x: Money, lo: Money, hi: Money)
    requires
        x.currency == lo.currency,
        x.currency == hi.currency,
        units(lo.amount@) < units(hi.amount@),
    ensures
        units(x.amount@) == units(lo.amount@) ==> ex.position_spec(x, lo, hi) == Ok::<
            PositionRelativeToRange,
            crate::money::MoneyError,
        >(PositionRelativeToRange::WithinRange),
        units(x.amount@) == units(hi.amount@) ==> ex.position_spec(x, lo, hi) == Ok::<
            PositionRelativeToRange,
            crate::money::MoneyError,
        >(PositionRelativeToRange::AfterRange),
{
}

} // verus!
