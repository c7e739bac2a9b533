//! Exact fixed-point decimal numbers, computed by `rust_decimal`.
//!
//! A `Decimal` is a mantissa of at most 96 bits and a scale of at most 28 digits
//! after the point. Its view is the pair `(mantissa, scale)`; `units` gives its
//! value counted in units of 10^-28, so that two decimals are equal in value
//! exactly when their units are equal.
use vstd::prelude::*;

verus! {

/// Largest magnitude of a mantissa: 2^96 - 1.
pub const MAX_MANTISSA: i128 = 79228162514264337593543950335;

/// Largest number of digits after the decimal point.
pub const MAX_SCALE: u32 = 28;

pub open spec fn pow10(n: nat) -> int
    decreases n,
{
    if n == 0 {
        1
    } else {
        10 * pow10((n - 1) as nat)
    }
}

pub open spec fn abs(x: int) -> int {
    if x < 0 {
        -x
    } else {
        x
    }
}

pub open spec fn max_nat(a: nat, b: nat) -> nat {
    if a >= b {
        a
    } else {
        b
    }
}

/// A pair `(mantissa, scale)` that a `Decimal` can hold.
pub open spec fn decimal_wf(d: (int, nat)) -> bool {
    abs(d.0) <= MAX_MANTISSA && d.1 <= MAX_SCALE
}

/// The value of `d` counted in units of 10^-28.
pub open spec fn units(d: (int, nat)) -> int {
    d.0 * pow10((MAX_SCALE - d.1) as nat)
}

/// The mantissa of `d` written with `s` digits after the point (`d.1 <= s`).
pub open spec fn aligned(d: (int, nat), s: nat) -> int {
    d.0 * pow10((s - d.1) as nat)
}

/// The sum of `a` and `b` where it fits without rounding: zero operands are
/// handed back as they are, otherwise the sum is written at the larger scale.
pub open spec fn exact_sum(a: (int, nat), b: (int, nat)) -> Option<(int, nat)> {
    if a.0 == 0 {
        Some(b)
    } else if b.0 == 0 {
        Some(a)
    } else {
        let s = max_nat(a.1, b.1);
        let m = aligned(a, s) + aligned(b, s);
        if abs(m) <= MAX_MANTISSA {
            Some((m, s))
        } else {
            None
        }
    }
}

/// The difference `a - b` where it fits without rounding.
pub open spec fn exact_difference(a: (int, nat), b: (int, nat)) -> Option<(int, nat)> {
    if a.0 == 0 {
        Some((-b.0, b.1))
    } else if b.0 == 0 {
        Some(a)
    } else {
        let s = max_nat(a.1, b.1);
        let m = aligned(a, s) - aligned(b, s);
        if abs(m) <= MAX_MANTISSA {
            Some((m, s))
        } else {
            None
        }
    }
}

/// The product of `a` and `b` where it fits without rounding; a zero operand
/// gives a plain zero.
pub open spec fn exact_product(a: (int, nat), b: (int, nat)) -> Option<(int, nat)> {
    if a.0 == 0 || b.0 == 0 {
        Some((0, 0))
    } else if a.1 + b.1 <= MAX_SCALE && abs(a.0 * b.0) <= MAX_MANTISSA {
        Some((a.0 * b.0, (a.1 + b.1) as nat))
    } else {
        None
    }
}

/// What `rust_decimal` returns for `a + b` (rounded where it does not fit).
pub uninterp spec fn decimal_sum(a: (int, nat), b: (int, nat)) -> Option<(int, nat)>;

/// What `rust_decimal` returns for `a - b`.
pub uninterp spec fn decimal_difference(a: (int, nat), b: (int, nat)) -> Option<(int, nat)>;

/// What `rust_decimal` returns for `a * b`.
pub uninterp spec fn decimal_product(a: (int, nat), b: (int, nat)) -> Option<(int, nat)>;

/// What `rust_decimal` returns for `a / b`.
pub uninterp spec fn decimal_quotient(a: (int, nat), b: (int, nat)) -> Option<(int, nat)>;

/// What `rust_decimal` returns for `a` rounded to `dp` digits after the point.
pub uninterp spec fn decimal_rounded(a: (int, nat), dp: nat) -> (int, nat);

/// The sum as computed: exact where it fits, else what `rust_decimal` gives.
pub open spec fn sum_of(a: (int, nat), b: (int, nat)) -> Option<(int, nat)> {
    match exact_sum(a, b) {
        Some(v) => Some(v),
        None => decimal_sum(a, b),
    }
}

/// The difference as computed: exact where it fits, else what `rust_decimal` gives.
pub open spec fn difference_of(a: (int, nat), b: (int, nat)) -> Option<(int, nat)> {
    match exact_difference(a, b) {
        Some(v) => Some(v),
        None => decimal_difference(a, b),
    }
}

/// The product as computed: exact where it fits, else what `rust_decimal` gives.
pub open spec fn product_of(a: (int, nat), b: (int, nat)) -> Option<(int, nat)> {
    match exact_product(a, b) {
        Some(v) => Some(v),
        None => decimal_product(a, b),
    }
}

pub proof fn lemma_pow10_positive(n: nat)
    ensures
        pow10(n) >= 1,
    decreases n,
{
    if n > 0 {
        lemma_pow10_positive((n - 1) as nat);
    }
}

pub proof fn lemma_pow10_add(a: nat, b: nat)
    ensures
        pow10(a + b) == pow10(a) * pow10(b),
    decreases a,
{
    if a > 0 {
        lemma_pow10_add((a - 1) as nat, b);
        assert(pow10(a + b) == 10 * pow10((a - 1 + b) as nat));
        assert(10 * (pow10((a - 1) as nat) * pow10(b)) == (10 * pow10((a - 1) as nat)) * pow10(b))
            by (nonlinear_arith);
    }
}

/// Writing a mantissa at a larger scale keeps its value.
pub proof fn lemma_aligned_units(d: (int, nat), s: nat)
    requires
        d.1 <= s,
        s <= MAX_SCALE,
    ensures
        aligned(d, s) * pow10((MAX_SCALE - s) as nat) == units(d),
{
    lemma_pow10_add((s - d.1) as nat, (MAX_SCALE - s) as nat);
    assert(((s - d.1) as nat + (MAX_SCALE - s) as nat) as nat == (MAX_SCALE - d.1) as nat);
    assert(d.0 * pow10((s - d.1) as nat) * pow10((MAX_SCALE - s) as nat) == d.0 * (pow10(
        (s - d.1) as nat,
    ) * pow10((MAX_SCALE - s) as nat))) by (nonlinear_arith);
}

/// An exact sum has the value of the two operands added.
pub proof fn lemma_exact_sum_units(a: (int, nat), b: (int, nat))
    requires
        decimal_wf(a),
        decimal_wf(b),
        exact_sum(a, b) is Some,
    ensures
        units(exact_sum(a, b)->0) == units(a) + units(b),
        decimal_wf(exact_sum(a, b)->0),
{
    if a.0 != 0 && b.0 != 0 {
        let s = max_nat(a.1, b.1);
        lemma_aligned_units(a, s);
        lemma_aligned_units(b, s);
        let p = pow10((MAX_SCALE - s) as nat);
        assert((aligned(a, s) + aligned(b, s)) * p == aligned(a, s) * p + aligned(b, s) * p)
            by (nonlinear_arith);
    } else if a.0 == 0 {
        assert(units(a) == 0);
    } else {
        assert(units(b) == 0);
    }
}

/// An exact difference has the value of `a` less that of `b`.
pub proof fn lemma_exact_difference_units(a: (int, nat), b: (int, nat))
    requires
        decimal_wf(a),
        decimal_wf(b),
        exact_difference(a, b) is Some,
    ensures
        units(exact_difference(a, b)->0) == units(a) - units(b),
        decimal_wf(exact_difference(a, b)->0),
{
    if a.0 != 0 && b.0 != 0 {
        let s = max_nat(a.1, b.1);
        lemma_aligned_units(a, s);
        lemma_aligned_units(b, s);
        let p = pow10((MAX_SCALE - s) as nat);
        assert((aligned(a, s) - aligned(b, s)) * p == aligned(a, s) * p - aligned(b, s) * p)
            by (nonlinear_arith);
    } else if a.0 == 0 {
        assert(units(a) == 0);
        assert(units((-b.0, b.1)) == -units(b)) by (nonlinear_arith)
            requires
                units((-b.0, b.1)) == -b.0 * pow10((MAX_SCALE - b.1) as nat),
                units(b) == b.0 * pow10((MAX_SCALE - b.1) as nat),
        ;
    } else {
        assert(units(b) == 0);
    }
}

/// An exact product has the product of the values, scaled by 10^28.
pub proof fn lemma_exact_product_units(a: (int, nat), b: (int, nat))
    requires
        decimal_wf(a),
        decimal_wf(b),
        exact_product(a, b) is Some,
    ensures
        units(exact_product(a, b)->0) * pow10(MAX_SCALE as nat) == units(a) * units(b),
        decimal_wf(exact_product(a, b)->0),
{
    if a.0 == 0 || b.0 == 0 {
        assert(units((0int, 0nat)) == 0) by (nonlinear_arith)
            requires
                units((0int, 0nat)) == 0 * pow10((MAX_SCALE - 0) as nat),
        ;
        assert(units(a) * units(b) == 0) by (nonlinear_arith)
            requires
                a.0 == 0 || b.0 == 0,
                units(a) == a.0 * pow10((MAX_SCALE - a.1) as nat),
                units(b) == b.0 * pow10((MAX_SCALE - b.1) as nat),
        ;
    } else {
        let pa = pow10((MAX_SCALE - a.1) as nat);
        let pb = pow10((MAX_SCALE - b.1) as nat);
        let pp = pow10((MAX_SCALE - (a.1 + b.1)) as nat);
        lemma_pow10_add((MAX_SCALE - (a.1 + b.1)) as nat, MAX_SCALE as nat);
        lemma_pow10_add((MAX_SCALE - a.1) as nat, (MAX_SCALE - b.1) as nat);
        assert(((MAX_SCALE - (a.1 + b.1)) as nat + MAX_SCALE as nat) as nat == ((MAX_SCALE
            - a.1) as nat + (MAX_SCALE - b.1) as nat) as nat);
        assert(a.0 * b.0 * pp * pow10(MAX_SCALE as nat) == (a.0 * pa) * (b.0 * pb))
            by (nonlinear_arith)
            requires
                pp * pow10(MAX_SCALE as nat) == pa * pb,
        ;
    }
}

/// A decimal number `mantissa / 10^scale`.
#[derive(Clone, Copy, Debug)]
pub struct Decimal {
    mantissa: i128,
    scale: u32,
}

impl View for Decimal {
    type V = (int, nat);

    closed spec fn view(&self) -> (int, nat) {
        (self.mantissa as int, self.scale as nat)
    }
}

pub open spec fn opt_view(r: Option<Decimal>) -> Option<(int, nat)> {
    match r {
        Some(d) => Some(d@),
        None => None,
    }
}

/// Relies on `rust_decimal::Decimal::checked_add`: the sum, `None` on overflow;
/// exact wherever the sum fits (see `exact_sum`).
#[verifier::external_body]
fn rd_checked_add(a: Decimal, b: Decimal) -> (r: Option<Decimal>)
    requires
        decimal_wf(a@),
        decimal_wf(b@),
    ensures
        opt_view(r) == decimal_sum(a@, b@),
        r matches Some(d) ==> decimal_wf(d@),
        exact_sum(a@, b@) is Some ==> opt_view(r) == exact_sum(a@, b@),
{
    let x = rust_decimal::Decimal::from_i128_with_scale(a.mantissa, a.scale);
    let y = rust_decimal::Decimal::from_i128_with_scale(b.mantissa, b.scale);
    x.checked_add(y).map(|d| Decimal { mantissa: d.mantissa(), scale: d.scale() })
}

/// Relies on `rust_decimal::Decimal::checked_sub`: the difference, `None` on
/// overflow; exact wherever it fits (see `exact_difference`).
#[verifier::external_body]
fn rd_checked_sub(a: Decimal, b: Decimal) -> (r: Option<Decimal>)
    requires
        decimal_wf(a@),
        decimal_wf(b@),
    ensures
        opt_view(r) == decimal_difference(a@, b@),
        r matches Some(d) ==> decimal_wf(d@),
        exact_difference(a@, b@) is Some ==> opt_view(r) == exact_difference(a@, b@),
{
    let x = rust_decimal::Decimal::from_i128_with_scale(a.mantissa, a.scale);
    let y = rust_decimal::Decimal::from_i128_with_scale(b.mantissa, b.scale);
    x.checked_sub(y).map(|d| Decimal { mantissa: d.mantissa(), scale: d.scale() })
}

/// Relies on `rust_decimal::Decimal::checked_mul`: the product, rounded where
/// its scale passes 28 or its mantissa 96 bits, `None` on overflow; exact
/// wherever it fits (see `exact_product`).
#[verifier::external_body]
fn rd_checked_mul(a: Decimal, b: Decimal) -> (r: Option<Decimal>)
    requires
        decimal_wf(a@),
        decimal_wf(b@),
    ensures
        opt_view(r) == decimal_product(a@, b@),
        r matches Some(d) ==> decimal_wf(d@),
        exact_product(a@, b@) is Some ==> opt_view(r) == exact_product(a@, b@),
{
    let x = rust_decimal::Decimal::from_i128_with_scale(a.mantissa, a.scale);
    let y = rust_decimal::Decimal::from_i128_with_scale(b.mantissa, b.scale);
    x.checked_mul(y).map(|d| Decimal { mantissa: d.mantissa(), scale: d.scale() })
}

/// Relies on `rust_decimal::Decimal::checked_div`: the quotient, rounded to
/// what a decimal holds, `None` on division by zero or overflow.
#[verifier::external_body]
fn rd_checked_div(a: Decimal, b: Decimal) -> (r: Option<Decimal>)
    requires
        decimal_wf(a@),
        decimal_wf(b@),
    ensures
        opt_view(r) == decimal_quotient(a@, b@),
        r matches Some(d) ==> decimal_wf(d@),
        b@.0 == 0 ==> r is None,
{
    let x = rust_decimal::Decimal::from_i128_with_scale(a.mantissa, a.scale);
    let y = rust_decimal::Decimal::from_i128_with_scale(b.mantissa, b.scale);
    x.checked_div(y).map(|d| Decimal { mantissa: d.mantissa(), scale: d.scale() })
}

/// Relies on `rust_decimal::Decimal::round_dp`: `a` rounded half to even to
/// `dp` digits after the point, unchanged where it has no more digits than that.
#[verifier::external_body]
fn rd_round_dp(a: Decimal, dp: u32) -> (r: Decimal)
    requires
        decimal_wf(a@),
    ensures
        r@ == decimal_rounded(a@, dp as nat),
        decimal_wf(r@),
        a@.1 <= dp ==> r@ == a@,
{
    let x = rust_decimal::Decimal::from_i128_with_scale(a.mantissa, a.scale);
    let d = x.round_dp(dp);
    Decimal { mantissa: d.mantissa(), scale: d.scale() }
}

/// Relies on `rust_decimal::Decimal`'s `Ord::cmp`, which orders decimals by value.
#[verifier::external_body]
fn rd_cmp(a: Decimal, b: Decimal) -> (r: core::cmp::Ordering)
    requires
        decimal_wf(a@),
        decimal_wf(b@),
    ensures
        (r == core::cmp::Ordering::Less) == (units(a@) < units(b@)),
        (r == core::cmp::Ordering::Equal) == (units(a@) == units(b@)),
        (r == core::cmp::Ordering::Greater) == (units(a@) > units(b@)),
{
    let x = rust_decimal::Decimal::from_i128_with_scale(a.mantissa, a.scale);
    let y = rust_decimal::Decimal::from_i128_with_scale(b.mantissa, b.scale);
    x.cmp(&y)
}

impl Decimal {
    #[verifier::type_invariant]
    spec fn inv(self) -> bool {
        decimal_wf(self@)
    }

    /// `num / 10^scale`.
    pub fn new(num: i64, scale: u32) -> (r: Decimal)
        requires
            scale <= MAX_SCALE,
        ensures
            r@ == (num as int, scale as nat),
    {
        Decimal { mantissa: num as i128, scale }
    }

    /// `num / 10^scale`, for a mantissa of at most 96 bits.
    pub fn from_i128_with_scale(num: i128, scale: u32) -> (r: Decimal)
        requires
            decimal_wf((num as int, scale as nat)),
        ensures
            r@ == (num as int, scale as nat),
    {
        Decimal { mantissa: num, scale }
    }

    pub fn zero() -> (r: Decimal)
        ensures
            r@ == (0int, 0nat),
    {
        Decimal { mantissa: 0, scale: 0 }
    }

    pub fn one() -> (r: Decimal)
        ensures
            r@ == (1int, 0nat),
    {
        Decimal { mantissa: 1, scale: 0 }
    }

    pub fn mantissa(&self) -> (r: i128)
        ensures
            r as int == self@.0,
    {
        self.mantissa
    }

    pub fn scale(&self) -> (r: u32)
        ensures
            r as nat == self@.1,
    {
        self.scale
    }

    pub fn is_zero(&self) -> (r: bool)
        ensures
            r == (units(self@) == 0),
    {
        proof {
            use_type_invariant(self);
            lemma_pow10_positive((MAX_SCALE - self.scale) as nat);
            assert((self.mantissa == 0) == (units(self@) == 0)) by (nonlinear_arith)
                requires
                    units(self@) == self.mantissa * pow10((MAX_SCALE - self.scale) as nat),
                    pow10((MAX_SCALE - self.scale) as nat) >= 1,
            ;
        }
        self.mantissa == 0
    }

    /// Strictly greater than zero.
    pub fn is_positive(&self) -> (r: bool)
        ensures
            r == (units(self@) > 0),
    {
        proof {
            use_type_invariant(self);
            lemma_pow10_positive((MAX_SCALE - self.scale) as nat);
            assert((self.mantissa > 0) == (units(self@) > 0)) by (nonlinear_arith)
                requires
                    units(self@) == self.mantissa * pow10((MAX_SCALE - self.scale) as nat),
                    pow10((MAX_SCALE - self.scale) as nat) >= 1,
            ;
        }
        self.mantissa > 0
    }

    /// Strictly less than zero.
    pub fn is_negative(&self) -> (r: bool)
        ensures
            r == (units(self@) < 0),
    {
        proof {
            use_type_invariant(self);
            lemma_pow10_positive((MAX_SCALE - self.scale) as nat);
            assert((self.mantissa < 0) == (units(self@) < 0)) by (nonlinear_arith)
                requires
                    units(self@) == self.mantissa * pow10((MAX_SCALE - self.scale) as nat),
                    pow10((MAX_SCALE - self.scale) as nat) >= 1,
            ;
        }
        self.mantissa < 0
    }

    /// The same magnitude with the opposite sign.
    pub fn neg(&self) -> (r: Decimal)
        ensures
            r@ == (-self@.0, self@.1),
            units(r@) == -units(self@),
    {
        proof {
            use_type_invariant(self);
        }
        let r = Decimal { mantissa: -self.mantissa, scale: self.scale };
        proof {
            assert(units(r@) == -units(self@)) by (nonlinear_arith)
                requires
                    units(r@) == -self.mantissa * pow10((MAX_SCALE - self.scale) as nat),
                    units(self@) == self.mantissa * pow10((MAX_SCALE - self.scale) as nat),
            ;
        }
        r
    }

    /// The magnitude.
    pub fn abs(&self) -> (r: Decimal)
        ensures
            r@ == (abs(self@.0), self@.1),
            units(r@) == abs(units(self@)),
    {
        proof {
            use_type_invariant(self);
        }
        if self.mantissa < 0 {
            proof {
                lemma_pow10_positive((MAX_SCALE - self.scale) as nat);
                assert(units(self@) < 0) by (nonlinear_arith)
                    requires
                        units(self@) == self.mantissa * pow10((MAX_SCALE - self.scale) as nat),
                        self.mantissa < 0,
                        pow10((MAX_SCALE - self.scale) as nat) >= 1,
                ;
            }
            self.neg()
        } else {
            proof {
                lemma_pow10_positive((MAX_SCALE - self.scale) as nat);
                assert(units(self@) >= 0) by (nonlinear_arith)
                    requires
                        units(self@) == self.mantissa * pow10((MAX_SCALE - self.scale) as nat),
                        self.mantissa >= 0,
                        pow10((MAX_SCALE - self.scale) as nat) >= 1,
                ;
            }
            *self
        }
    }

    pub fn checked_add(&self, other: Decimal) -> (r: Option<Decimal>)
        ensures
            opt_view(r) == sum_of(self@, other@),
            r matches Some(d) ==> decimal_wf(d@),
    {
        proof {
            use_type_invariant(self);
            use_type_invariant(other);
        }
        rd_checked_add(*self, other)
    }

    pub fn checked_sub(&self, other: Decimal) -> (r: Option<Decimal>)
        ensures
            opt_view(r) == difference_of(self@, other@),
            r matches Some(d) ==> decimal_wf(d@),
    {
        proof {
            use_type_invariant(self);
            use_type_invariant(other);
        }
        rd_checked_sub(*self, other)
    }

    pub fn checked_mul(&self, other: Decimal) -> (r: Option<Decimal>)
        ensures
            opt_view(r) == product_of(self@, other@),
            r matches Some(d) ==> decimal_wf(d@),
    {
        proof {
            use_type_invariant(self);
            use_type_invariant(other);
        }
        rd_checked_mul(*self, other)
    }

    pub fn checked_div(&self, other: Decimal) -> (r: Option<Decimal>)
        ensures
            opt_view(r) == decimal_quotient(self@, other@),
            other@.0 == 0 ==> r is None,
    {
        proof {
            use_type_invariant(self);
            use_type_invariant(other);
        }
        rd_checked_div(*self, other)
    }

    /// Rounded half to even to `dp` digits after the point.
    pub fn round_dp(&self, dp: u32) -> (r: Decimal)
        ensures
            r@ == decimal_rounded(self@, dp as nat),
            self@.1 <= dp ==> r@ == self@,
    {
        proof {
            use_type_invariant(self);
        }
        rd_round_dp(*self, dp)
    }

    /// Compares by value.
    pub fn compare(&self, other: &Decimal) -> (r: core::cmp::Ordering)
        ensures
            (r == core::cmp::Ordering::Less) == (units(self@) < units(other@)),
            (r == core::cmp::Ordering::Equal) == (units(self@) == units(other@)),
            (r == core::cmp::Ordering::Greater) == (units(self@) > units(other@)),
    {
        proof {
            use_type_invariant(self);
            use_type_invariant(other);
        }
        rd_cmp(*self, *other)
    }

    pub fn lt(&self, other: &Decimal) -> (r: bool)
        ensures
            r == (units(self@) < units(other@)),
    {
        match self.compare(other) {
            core::cmp::Ordering::Less => true,
            _ => false,
        }
    }

    pub fn le(&self, other: &Decimal) -> (r: bool)
        ensures
            r == (units(self@) <= units(other@)),
    {
        match self.compare(other) {
            core::cmp::Ordering::Greater => false,
            _ => true,
        }
    }
}

impl PartialEq for Decimal {
    /// Equal in value: `1.0 == 1.00`.
    fn eq(&self, other: &Decimal) -> (r: bool) {
        match self.compare(other) {
            core::cmp::Ordering::Equal => true,
            _ => false,
        }
    }
}

impl vstd::std_specs::cmp::PartialEqSpecImpl for Decimal {
    open spec fn obeys_eq_spec() -> bool {
        true
    }

    open spec fn eq_spec(&self, other: &Decimal) -> bool {
        units(self@) == units(other@)
    }
}

} // verus!
