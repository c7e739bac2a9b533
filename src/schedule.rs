//! A single jurisdiction's tax schedule: brackets, deduction and credit
//! registries, and the calculation from income streams to an outcome.
use crate::currency::Currency;
use crate::decimal::{difference_of, product_of, sum_of, units, Decimal};
use crate::money::{CheckedAdd, CheckedSub, Money};
use crate::tax::{
    or_invalid, tax_error_from, taxed_money_is, Income, TaxBracket, TaxCalculation,
    TaxCreditClaim, TaxCreditRule, TaxDeductionClaim, TaxDeductionRule, TaxError,
};
use vstd::prelude::*;

verus! {

/// What a schedule holds.
pub struct ScheduleView {
    pub identifier: Seq<char>,
    pub brackets: Seq<TaxBracket>,
    pub deductions: Seq<TaxDeductionRule>,
    pub credits: Seq<TaxCreditRule>,
    pub currency: Currency,
    pub inclusion_rate: Decimal,
}

/// Where the rule last registered under `id` stands, if any.
pub open spec fn deduction_index(rules: Seq<TaxDeductionRule>, id: Seq<char>) -> Option<int>
    decreases rules.len(),
{
    if rules.len() == 0 {
        None
    } else if rules.last().tax_deduction_identifier@ == id {
        Some(rules.len() - 1)
    } else {
        deduction_index(rules.drop_last(), id)
    }
}

/// Where the rule last registered under `id` stands, if any.
pub open spec fn credit_index(rules: Seq<TaxCreditRule>, id: Seq<char>) -> Option<int>
    decreases rules.len(),
{
    if rules.len() == 0 {
        None
    } else if rules.last().tax_credit_identifier@ == id {
        Some(rules.len() - 1)
    } else {
        credit_index(rules.drop_last(), id)
    }
}

/// Brackets in ascending order of their lower bound.
pub open spec fn sorted_by_min(bs: Seq<TaxBracket>) -> bool {
    forall|i: int, j: int|
        0 <= i < j < bs.len() ==> units(bs[i].min_money.amount@) <= units(
            bs[j].min_money.amount@,
        )
}

/// Every bound of the bracket is in currency `c`.
pub open spec fn bracket_in(b: TaxBracket, c: Currency) -> bool {
    b.min_money.currency == c && b.currencies_match()
}

/// The outcome for gross tax `gross`, non-refundable credits `nr` and
/// refundable credits `r`: non-refundable credits bring the tax down to zero
/// at most; refundable ones can turn it into a refund.
pub open spec fn outcome_spec(gross: (int, nat), nr: (int, nat), r: (int, nat)) -> Result<(bool, (int, nat)), TaxError> {
    match difference_of(gross, nr) {
        None => Err(TaxError::InvalidAmount),
        Some(t) => if units(t) < 0 {
            Ok((false, r))
        } else {
            match difference_of(t, r) {
                None => Err(TaxError::InvalidAmount),
                Some(d) => if units(d) > 0 {
                    Ok((true, d))
                } else {
                    Ok((false, (-d.0, d.1)))
                },
            }
        },
    }
}

/// `r` is the outcome `(liability, amount)` of `model` in currency `c`, or the
/// same error.
pub open spec fn outcome_is(r: Result<TaxCalculation, TaxError>, model: Result<(bool, (int, nat)), TaxError>, c: Currency) -> bool {
    match (r, model) {
        (Ok(t), Ok(v)) => (t.is_liability(), t.money().amount@) == v && t.money().currency == c,
        (Err(e), Err(f)) => e == f,
        _ => false,
    }
}

pub struct TaxSchedule {
    identifier: String,
    brackets: Vec<TaxBracket>,
    deductions: Vec<TaxDeductionRule>,
    credits: Vec<TaxCreditRule>,
    tax_currency: Currency,
    capital_gains_inclusion_rate: Decimal,
}

impl View for TaxSchedule {
    type V = ScheduleView;

    closed spec fn view(&self) -> ScheduleView {
        ScheduleView {
            identifier: self.identifier@,
            brackets: self.brackets@,
            deductions: self.deductions@,
            credits: self.credits@,
            currency: self.tax_currency,
            inclusion_rate: self.capital_gains_inclusion_rate,
        }
    }
}

impl TaxSchedule {
    /// Brackets sorted and all in the schedule's currency.
    pub open spec fn wf(self) -> bool {
        &&& sorted_by_min(self@.brackets)
        &&& forall|i: int| 0 <= i < self@.brackets.len() ==> bracket_in(#[trigger] self@.brackets[i], self@.currency)
    }

    /// The part of an income stream that is taxed: all of employment income,
    /// the inclusion rate's share of capital gains.
    pub open spec fn considered_spec(self, income: Income) -> Result<(int, nat), TaxError> {
        match income {
            Income::Employment(m) => Ok(m.amount@),
            Income::CapitalGains(m) => or_invalid(product_of(m.amount@, self@.inclusion_rate@)),
        }
    }

    /// The taxed parts of the first `n` income streams, added up.
    pub open spec fn income_prefix(self, incomes: Seq<Income>, n: nat) -> Result<(int, nat), TaxError>
        decreases n,
    {
        if n == 0 {
            Ok((0int, 0nat))
        } else {
            match self.income_prefix(incomes, (n - 1) as nat) {
                Err(e) => Err(e),
                Ok(acc) => if incomes[n - 1].money().currency != self@.currency {
                    Err(TaxError::MismatchedCurrencies)
                } else {
                    match self.considered_spec(incomes[n - 1]) {
                        Err(e) => Err(e),
                        Ok(x) => or_invalid(sum_of(acc, x)),
                    }
                },
            }
        }
    }

    /// The validated amounts of the first `n` deduction claims that a rule
    /// is registered for, added up; claims for unknown rules are ignored.
    pub open spec fn deduction_prefix(self, claims: Seq<TaxDeductionClaim>, n: nat) -> Result<(int, nat), TaxError>
        decreases n,
    {
        if n == 0 {
            Ok((0int, 0nat))
        } else {
            match self.deduction_prefix(claims, (n - 1) as nat) {
                Err(e) => Err(e),
                Ok(acc) => match deduction_index(
                    self@.deductions,
                    claims[n - 1].tax_deduction_identifier@,
                ) {
                    None => Ok(acc),
                    Some(k) => match self@.deductions[k].deduction_spec(claims[n - 1]) {
                        Err(e) => Err(e),
                        Ok(m) => if m.currency != self@.currency {
                            Err(TaxError::MismatchedCurrencies)
                        } else {
                            or_invalid(sum_of(acc, m.amount@))
                        },
                    },
                },
            }
        }
    }

    /// Income less deductions, and zero where that is negative.
    pub open spec fn taxable_spec(self, incomes: Seq<Income>, claims: Seq<TaxDeductionClaim>) -> Result<(int, nat), TaxError> {
        match self.income_prefix(incomes, incomes.len()) {
            Err(e) => Err(e),
            Ok(income) => match self.deduction_prefix(claims, claims.len()) {
                Err(e) => Err(e),
                Ok(deducted) => match difference_of(income, deducted) {
                    None => Err(TaxError::InvalidAmount),
                    Some(t) => if units(t) < 0 {
                        Ok((0int, 0nat))
                    } else {
                        Ok(t)
                    },
                },
            },
        }
    }

    /// The contributions of the first `n` brackets to the tax on `x`, added up.
    pub open spec fn gross_prefix(self, x: (int, nat), n: nat) -> Result<(int, nat), TaxError>
        decreases n,
    {
        if n == 0 {
            Ok((0int, 0nat))
        } else {
            match self.gross_prefix(x, (n - 1) as nat) {
                Err(e) => Err(e),
                Ok(acc) => match self@.brackets[n - 1].tax_at(x, self@.currency) {
                    Err(e) => Err(e),
                    Ok(t) => or_invalid(sum_of(acc, t)),
                },
            }
        }
    }

    /// The gross tax on a taxable income `x`: every bracket's contribution.
    pub open spec fn gross_spec(self, x: (int, nat)) -> Result<(int, nat), TaxError> {
        self.gross_prefix(x, self@.brackets.len())
    }

    /// The validated amounts of the first `n` credit claims whose rule is
    /// registered and refundable as `refundable` says, added up.
    pub open spec fn credit_prefix(self, claims: Seq<TaxCreditClaim>, refundable: bool, n: nat) -> Result<(int, nat), TaxError>
        decreases n,
    {
        if n == 0 {
            Ok((0int, 0nat))
        } else {
            match self.credit_prefix(claims, refundable, (n - 1) as nat) {
                Err(e) => Err(e),
                Ok(acc) => match credit_index(self@.credits, claims[n - 1].tax_credit_identifier@) {
                    None => Ok(acc),
                    Some(k) => if self@.credits[k].refundable != refundable {
                        Ok(acc)
                    } else {
                        match self@.credits[k].credit_spec(claims[n - 1]) {
                            Err(e) => Err(e),
                            Ok(m) => if m.currency != self@.currency {
                                Err(TaxError::MismatchedCurrencies)
                            } else {
                                or_invalid(sum_of(acc, m.amount@))
                            },
                        }
                    },
                },
            }
        }
    }

    /// The outcome of the whole calculation.
    pub open spec fn calculation_spec(self, incomes: Seq<Income>, deductions: Seq<TaxDeductionClaim>, credits: Seq<TaxCreditClaim>) -> Result<(bool, (int, nat)), TaxError> {
        match self.taxable_spec(incomes, deductions) {
            Err(e) => Err(e),
            Ok(x) => match self.gross_spec(x) {
                Err(e) => Err(e),
                Ok(gross) => match self.credit_prefix(credits, false, credits.len()) {
                    Err(e) => Err(e),
                    Ok(nr) => match self.credit_prefix(credits, true, credits.len()) {
                        Err(e) => Err(e),
                        Ok(r) => outcome_spec(gross, nr, r),
                    },
                },
            },
        }
    }

    /// Among the first `n` brackets, the one whose rate is marginal at `x`:
    /// the last whose lower bound lies strictly below `x`, else the first.
    pub open spec fn marginal_prefix(self, x: (int, nat), n: nat) -> Option<int>
        decreases n,
    {
        if n == 0 {
            None
        } else if n == 1 {
            Some(0)
        } else if self@.brackets[n - 1].min_money.currency == self@.currency && units(x) > units(
            self@.brackets[n - 1].min_money.amount@,
        ) {
            Some(n - 1)
        } else {
            self.marginal_prefix(x, (n - 1) as nat)
        }
    }

    /// The marginal rate on the taxable income.
    pub open spec fn marginal_spec(self, incomes: Seq<Income>, deductions: Seq<TaxDeductionClaim>) -> Result<Decimal, TaxError> {
        match self.taxable_spec(incomes, deductions) {
            Err(e) => Err(e),
            Ok(x) => match self.marginal_prefix(x, self@.brackets.len()) {
                None => Err(TaxError::ThereAreNoBrackets),
                Some(k) => Ok(self@.brackets[k].rate),
            },
        }
    }

    proof fn lemma_income_error_stays(self, incomes: Seq<Income>, n: nat, m: nat)
        requires
            n <= m,
            self.income_prefix(incomes, n) is Err,
        ensures
            self.income_prefix(incomes, m) == self.income_prefix(incomes, n),
        decreases m - n,
    {
        if m > n {
            self.lemma_income_error_stays(incomes, n, (m - 1) as nat);
        }
    }

    proof fn lemma_deduction_error_stays(self, claims: Seq<TaxDeductionClaim>, n: nat, m: nat)
        requires
            n <= m,
            self.deduction_prefix(claims, n) is Err,
        ensures
            self.deduction_prefix(claims, m) == self.deduction_prefix(claims, n),
        decreases m - n,
    {
        if m > n {
            self.lemma_deduction_error_stays(claims, n, (m - 1) as nat);
        }
    }

    proof fn lemma_gross_error_stays(self, x: (int, nat), n: nat, m: nat)
        requires
            n <= m,
            self.gross_prefix(x, n) is Err,
        ensures
            self.gross_prefix(x, m) == self.gross_prefix(x, n),
        decreases m - n,
    {
        if m > n {
            self.lemma_gross_error_stays(x, n, (m - 1) as nat);
        }
    }

    proof fn lemma_credit_error_stays(self, claims: Seq<TaxCreditClaim>, refundable: bool, n: nat, m: nat)
        requires
            n <= m,
            self.credit_prefix(claims, refundable, n) is Err,
        ensures
            self.credit_prefix(claims, refundable, m) == self.credit_prefix(claims, refundable, n),
        decreases m - n,
    {
        if m > n {
            self.lemma_credit_error_stays(claims, refundable, n, (m - 1) as nat);
        }
    }

    fn validate_currency_on_bracket(bracket: &TaxBracket, currency: Currency) -> (r: bool)
        ensures
            r == bracket_in(*bracket, currency),
    {
        match bracket.max_money {
            Some(max) => max.currency == currency && bracket.min_money.currency == currency,
            None => bracket.min_money.currency == currency,
        }
    }

    fn validate_currency_on_brackets(brackets: &Vec<TaxBracket>, currency: Currency) -> (r: bool)
        ensures
            r == forall|i: int| 0 <= i < brackets@.len() ==> bracket_in(#[trigger] brackets@[i], currency),
    {
        let mut i: usize = 0;
        while i < brackets.len()
            invariant
                i <= brackets@.len(),
                forall|k: int| 0 <= k < i ==> bracket_in(#[trigger] brackets@[k], currency),
            decreases brackets@.len() - i,
        {
            if !Self::validate_currency_on_bracket(&brackets[i], currency) {
                return false;
            }
            i = i + 1;
        }
        true
    }

    /// The brackets in ascending order of their lower bound, equal bounds in
    /// their given order.
    fn sort_brackets(brackets: &Vec<TaxBracket>) -> (r: Vec<TaxBracket>)
        ensures
            sorted_by_min(r@),
            r@.to_multiset() == brackets@.to_multiset(),
    {
        let mut sorted: Vec<TaxBracket> = Vec::new();
        let mut i: usize = 0;
        proof {
            assert(brackets@.take(0) =~= Seq::<TaxBracket>::empty());
            assert(sorted@ =~= Seq::<TaxBracket>::empty());
        }
        while i < brackets.len()
            invariant
                i <= brackets@.len(),
                sorted_by_min(sorted@),
                sorted@.to_multiset() == brackets@.take(i as int).to_multiset(),
            decreases brackets@.len() - i,
        {
            let b = brackets[i];
            let mut j: usize = 0;
            while j < sorted.len() && sorted[j].min_money.amount.le(&b.min_money.amount)
                invariant
                    j <= sorted@.len(),
                    forall|k: int|
                        0 <= k < j ==> units(#[trigger] sorted@[k].min_money.amount@) <= units(
                            b.min_money.amount@,
                        ),
                decreases sorted@.len() - j,
            {
                j = j + 1;
            }
            let ghost before = sorted@;
            sorted.insert(j, b);
            proof {
                vstd::seq_lib::to_multiset_insert(before, j as int, b);
                assert(brackets@.take(i + 1) =~= brackets@.take(i as int).push(b));
                vstd::seq_lib::to_multiset_build(brackets@.take(i as int), b);
                assert(sorted@ =~= before.insert(j as int, b));
                assert forall|x: int, y: int| 0 <= x < y < sorted@.len() implies units(
                    sorted@[x].min_money.amount@,
                ) <= units(sorted@[y].min_money.amount@) by {
                    if y < j {
                    } else if y == j {
                    } else if x < j {
                        assert(units(before[x].min_money.amount@) <= units(b.min_money.amount@));
                        assert(units(b.min_money.amount@) < units(before[j as int].min_money.amount@));
                    } else if x == j {
                        assert(units(b.min_money.amount@) < units(before[j as int].min_money.amount@));
                    } else {
                    }
                }
            }
            i = i + 1;
        }
        proof {
            assert(brackets@.take(i as int) =~= brackets@);
        }
        sorted
    }

    /// A schedule with no deduction or credit rule yet, its brackets sorted by
    /// lower bound; a bracket in another currency is refused.
    pub fn new(identifier: &str, brackets: Vec<TaxBracket>, currency: Currency, capital_gains_inclusion_rate: Decimal) -> (r: Result<TaxSchedule, TaxError>)
        ensures
            match r {
                Ok(s) => {
                    &&& s.wf()
                    &&& s@.identifier == identifier@
                    &&& s@.brackets.to_multiset() == brackets@.to_multiset()
                    &&& s@.deductions.len() == 0
                    &&& s@.credits.len() == 0
                    &&& s@.currency == currency
                    &&& s@.inclusion_rate == capital_gains_inclusion_rate
                },
                Err(e) => e == TaxError::MismatchedCurrencies && exists|i: int|
                    0 <= i < brackets@.len() && !bracket_in(#[trigger] brackets@[i], currency),
            },
    {
        if !Self::validate_currency_on_brackets(&brackets, currency) {
            return Err(TaxError::MismatchedCurrencies);
        }
        let sorted = Self::sort_brackets(&brackets);
        proof {
            assert forall|i: int| 0 <= i < sorted@.len() implies bracket_in(#[trigger] sorted@[i], currency) by {
                vstd::seq_lib::to_multiset_contains(sorted@, sorted@[i]);
                vstd::seq_lib::to_multiset_contains(brackets@, sorted@[i]);
                assert(sorted@.to_multiset().count(sorted@[i]) > 0);
                let k = choose|k: int| 0 <= k < brackets@.len() && brackets@[k] == sorted@[i];
                assert(bracket_in(brackets@[k], currency));
            }
        }
        let name = identifier.to_string();
        proof {
            vstd::string::to_string_from_display_ensures_for_str(identifier, name);
        }
        Ok(TaxSchedule {
            identifier: name,
            brackets: sorted,
            deductions: Vec::new(),
            credits: Vec::new(),
            tax_currency: currency,
            capital_gains_inclusion_rate,
        })
    }

    /// Registers a deduction rule under its identifier, in place of an
    /// earlier one of that identifier.
    pub fn add_deduction(&mut self, tax_deduction_rule: TaxDeductionRule)
        ensures
            final(self)@.deductions == old(self)@.deductions.push(tax_deduction_rule),
            final(self)@.brackets == old(self)@.brackets,
            final(self)@.credits == old(self)@.credits,
            final(self)@.identifier == old(self)@.identifier,
            final(self)@.currency == old(self)@.currency,
            final(self)@.inclusion_rate == old(self)@.inclusion_rate,
    {
        self.deductions.push(tax_deduction_rule);
    }

    /// Registers a credit rule under its identifier, in place of an earlier
    /// one of that identifier.
    pub fn add_credit(&mut self, tax_credit_rule: TaxCreditRule)
        ensures
            final(self)@.credits == old(self)@.credits.push(tax_credit_rule),
            final(self)@.brackets == old(self)@.brackets,
            final(self)@.deductions == old(self)@.deductions,
            final(self)@.identifier == old(self)@.identifier,
            final(self)@.currency == old(self)@.currency,
            final(self)@.inclusion_rate == old(self)@.inclusion_rate,
    {
        self.credits.push(tax_credit_rule);
    }

    /// A deduction rule is registered under the claim's identifier.
    pub fn is_deduction_claim_valid(&self, tax_deduction_claim: &TaxDeductionClaim) -> (r: bool)
        ensures
            r == deduction_index(self@.deductions, tax_deduction_claim.tax_deduction_identifier@) is Some,
    {
        self.find_deduction(&tax_deduction_claim.tax_deduction_identifier).is_some()
    }

    /// A credit rule is registered under the claim's identifier.
    pub fn is_credit_claim_valid(&self, tax_credit_claim: &TaxCreditClaim) -> (r: bool)
        ensures
            r == credit_index(self@.credits, tax_credit_claim.tax_credit_identifier@) is Some,
    {
        self.find_credit(&tax_credit_claim.tax_credit_identifier).is_some()
    }

    pub fn identifier(&self) -> (r: String)
        ensures
            r@ == self@.identifier,
    {
        self.identifier.clone()
    }

    pub fn currency(&self) -> (r: Currency)
        ensures
            r == self@.currency,
    {
        self.tax_currency
    }

    fn determine_income_under_consideration_for_single_income_stream(&self, income: Income) -> (r: Result<Money, TaxError>)
        ensures
            taxed_money_is(r, self.considered_spec(income), income.money().currency),
    {
        match income {
            Income::CapitalGains(m) => match m.amount.checked_mul(self.capital_gains_inclusion_rate) {
                Some(a) => Ok(Money { amount: a, currency: m.currency }),
                None => Err(TaxError::InvalidAmount),
            },
            Income::Employment(m) => Ok(m),
        }
    }

    fn determine_income_to_consider(&self, incomes: &Vec<Income>) -> (r: Result<Money, TaxError>)
        ensures
            taxed_money_is(r, self.income_prefix(incomes@, incomes@.len()), self@.currency),
    {
        let mut acc = Money { amount: Decimal::zero(), currency: self.tax_currency };
        let mut i: usize = 0;
        while i < incomes.len()
            invariant
                i <= incomes@.len(),
                taxed_money_is(Ok(acc), self.income_prefix(incomes@, i as nat), self@.currency),
            decreases incomes@.len() - i,
        {
            let income = incomes[i];
            if income.currency() != self.tax_currency {
                {
                    proof { self.lemma_income_error_stays(incomes@, (i + 1) as nat, incomes@.len()); }
                    return Err(TaxError::MismatchedCurrencies);
                }
            }
            let x = match self.determine_income_under_consideration_for_single_income_stream(income) {
                Ok(x) => x,
                Err(e) => {
                    proof { self.lemma_income_error_stays(incomes@, (i + 1) as nat, incomes@.len()); }
                    return Err(e);
                },
            };
            acc = match acc.checked_add(x) {
                Ok(s) => s,
                Err(e) => {
                    proof { self.lemma_income_error_stays(incomes@, (i + 1) as nat, incomes@.len()); }
                    return Err(tax_error_from(e));
                },
            };
            i = i + 1;
        }
        Ok(acc)
    }

    fn find_deduction(&self, id: &String) -> (r: Option<usize>)
        ensures
            match (r, deduction_index(self@.deductions, id@)) {
                (Some(i), Some(k)) => i == k && i < self@.deductions.len(),
                (None, None) => true,
                _ => false,
            },
    {
        let mut i: usize = self.deductions.len();
        assert(self@.deductions.take(i as int) =~= self@.deductions);
        while i > 0
            invariant
                i <= self@.deductions.len(),
                deduction_index(self@.deductions, id@) == deduction_index(
                    self@.deductions.take(i as int),
                    id@,
                ),
            decreases i,
        {
            assert(self@.deductions.take(i as int).drop_last() =~= self@.deductions.take(i - 1));
            i = i - 1;
            if self.deductions[i].tax_deduction_identifier == *id {
                return Some(i);
            }
        }
        None
    }

    fn find_credit(&self, id: &String) -> (r: Option<usize>)
        ensures
            match (r, credit_index(self@.credits, id@)) {
                (Some(i), Some(k)) => i == k && i < self@.credits.len(),
                (None, None) => true,
                _ => false,
            },
    {
        let mut i: usize = self.credits.len();
        assert(self@.credits.take(i as int) =~= self@.credits);
        while i > 0
            invariant
                i <= self@.credits.len(),
                credit_index(self@.credits, id@) == credit_index(self@.credits.take(i as int), id@),
            decreases i,
        {
            assert(self@.credits.take(i as int).drop_last() =~= self@.credits.take(i - 1));
            i = i - 1;
            if self.credits[i].tax_credit_identifier == *id {
                return Some(i);
            }
        }
        None
    }

    fn determine_deduction_total(&self, claims: &Vec<TaxDeductionClaim>) -> (r: Result<Money, TaxError>)
        ensures
            taxed_money_is(r, self.deduction_prefix(claims@, claims@.len()), self@.currency),
    {
        let mut acc = Money { amount: Decimal::zero(), currency: self.tax_currency };
        let mut i: usize = 0;
        while i < claims.len()
            invariant
                i <= claims@.len(),
                taxed_money_is(Ok(acc), self.deduction_prefix(claims@, i as nat), self@.currency),
            decreases claims@.len() - i,
        {
            let claim = &claims[i];
            match self.find_deduction(&claim.tax_deduction_identifier) {
                None => {},
                Some(k) => {
                    let m = match self.deductions[k].apply_deduction(claim) {
                        Ok(m) => m,
                        Err(e) => {
                    proof { self.lemma_deduction_error_stays(claims@, (i + 1) as nat, claims@.len()); }
                    return Err(e);
                },
                    };
                    if m.currency != self.tax_currency {
                        {
                    proof { self.lemma_deduction_error_stays(claims@, (i + 1) as nat, claims@.len()); }
                    return Err(TaxError::MismatchedCurrencies);
                }
                    }
                    acc = match acc.checked_add(m) {
                        Ok(s) => s,
                        Err(e) => {
                    proof { self.lemma_deduction_error_stays(claims@, (i + 1) as nat, claims@.len()); }
                    return Err(tax_error_from(e));
                },
                    };
                },
            }
            i = i + 1;
        }
        Ok(acc)
    }

    fn determine_taxable_income(&self, incomes: &Vec<Income>, claims: &Vec<TaxDeductionClaim>) -> (r: Result<Money, TaxError>)
        ensures
            taxed_money_is(r, self.taxable_spec(incomes@, claims@), self@.currency),
    {
        let income = match self.determine_income_to_consider(incomes) {
            Ok(m) => m,
            Err(e) => return Err(e),
        };
        let deducted = match self.determine_deduction_total(claims) {
            Ok(m) => m,
            Err(e) => return Err(e),
        };
        match income.checked_sub(deducted) {
            Err(e) => Err(tax_error_from(e)),
            Ok(t) => if t.amount.is_negative() {
                Ok(Money { amount: Decimal::zero(), currency: self.tax_currency })
            } else {
                Ok(t)
            },
        }
    }

    fn determine_tax_liability(&self, taxable_income: Money) -> (r: Result<Money, TaxError>)
        requires
            taxable_income.currency == self@.currency,
        ensures
            taxed_money_is(r, self.gross_spec(taxable_income.amount@), self@.currency),
    {
        let mut acc = Money { amount: Decimal::zero(), currency: self.tax_currency };
        let mut i: usize = 0;
        while i < self.brackets.len()
            invariant
                i <= self@.brackets.len(),
                taxable_income.currency == self@.currency,
                taxed_money_is(
                    Ok(acc),
                    self.gross_prefix(taxable_income.amount@, i as nat),
                    self@.currency,
                ),
            decreases self@.brackets.len() - i,
        {
            let t = match self.brackets[i].calculate_tax(taxable_income) {
                Ok(t) => t,
                Err(e) => {
                    proof { self.lemma_gross_error_stays(taxable_income.amount@, (i + 1) as nat, self@.brackets.len()); }
                    return Err(e);
                },
            };
            acc = match acc.checked_add(t) {
                Ok(s) => s,
                Err(e) => {
                    proof { self.lemma_gross_error_stays(taxable_income.amount@, (i + 1) as nat, self@.brackets.len()); }
                    return Err(tax_error_from(e));
                },
            };
            i = i + 1;
        }
        Ok(acc)
    }

    fn determine_credit_total(&self, claims: &Vec<TaxCreditClaim>, refundable: bool) -> (r: Result<Money, TaxError>)
        ensures
            taxed_money_is(r, self.credit_prefix(claims@, refundable, claims@.len()), self@.currency),
    {
        let mut acc = Money { amount: Decimal::zero(), currency: self.tax_currency };
        let mut i: usize = 0;
        while i < claims.len()
            invariant
                i <= claims@.len(),
                taxed_money_is(
                    Ok(acc),
                    self.credit_prefix(claims@, refundable, i as nat),
                    self@.currency,
                ),
            decreases claims@.len() - i,
        {
            let claim = &claims[i];
            match self.find_credit(&claim.tax_credit_identifier) {
                None => {},
                Some(k) => {
                    if self.credits[k].refundable == refundable {
                        let m = match self.credits[k].apply_credit(claim) {
                            Ok(m) => m,
                            Err(e) => {
                    proof { self.lemma_credit_error_stays(claims@, refundable, (i + 1) as nat, claims@.len()); }
                    return Err(e);
                },
                        };
                        if m.currency != self.tax_currency {
                            {
                    proof { self.lemma_credit_error_stays(claims@, refundable, (i + 1) as nat, claims@.len()); }
                    return Err(TaxError::MismatchedCurrencies);
                }
                        }
                        acc = match acc.checked_add(m) {
                            Ok(s) => s,
                            Err(e) => {
                    proof { self.lemma_credit_error_stays(claims@, refundable, (i + 1) as nat, claims@.len()); }
                    return Err(tax_error_from(e));
                },
                        };
                    }
                },
            }
            i = i + 1;
        }
        Ok(acc)
    }

    fn determine_tax_liability_or_refund(&self, gross: Money, non_refundable: Money, refundable: Money) -> (r: Result<TaxCalculation, TaxError>)
        requires
            gross.currency == self@.currency,
            non_refundable.currency == self@.currency,
            refundable.currency == self@.currency,
        ensures
            outcome_is(
                r,
                outcome_spec(gross.amount@, non_refundable.amount@, refundable.amount@),
                self@.currency,
            ),
    {
        let after_non_refundable = match gross.checked_sub(non_refundable) {
            Ok(t) => t,
            Err(e) => return Err(tax_error_from(e)),
        };
        if after_non_refundable.amount.is_negative() {
            return Ok(TaxCalculation::Refund(refundable));
        }
        let difference = match after_non_refundable.checked_sub(refundable) {
            Ok(d) => d,
            Err(e) => return Err(tax_error_from(e)),
        };
        if difference.amount.is_positive() {
            Ok(TaxCalculation::Liability(difference))
        } else {
            Ok(TaxCalculation::Refund(difference.neg()))
        }
    }

    /// The outcome for borrowed inputs.
    pub fn calculate(&self, incomes: &Vec<Income>, deductions: &Vec<TaxDeductionClaim>, credits: &Vec<TaxCreditClaim>) -> (r: Result<TaxCalculation, TaxError>)
        ensures
            outcome_is(r, self.calculation_spec(incomes@, deductions@, credits@), self@.currency),
    {
        let taxable = match self.determine_taxable_income(incomes, deductions) {
            Ok(m) => m,
            Err(e) => return Err(e),
        };
        let gross = match self.determine_tax_liability(taxable) {
            Ok(m) => m,
            Err(e) => return Err(e),
        };
        let non_refundable = match self.determine_credit_total(credits, false) {
            Ok(m) => m,
            Err(e) => return Err(e),
        };
        let refundable = match self.determine_credit_total(credits, true) {
            Ok(m) => m,
            Err(e) => return Err(e),
        };
        self.determine_tax_liability_or_refund(gross, non_refundable, refundable)
    }

    /// Tax on the income streams after the deduction and credit claims that
    /// this schedule knows; a claim that fails its rule aborts with its error.
    pub fn calculate_tax_result(&self, incomes: Vec<Income>, tax_deduction_claims: Vec<TaxDeductionClaim>, tax_credit_claims: Vec<TaxCreditClaim>) -> (r: Result<TaxCalculation, TaxError>)
        ensures
            outcome_is(
                r,
                self.calculation_spec(incomes@, tax_deduction_claims@, tax_credit_claims@),
                self@.currency,
            ),
    {
        self.calculate(&incomes, &tax_deduction_claims, &tax_credit_claims)
    }

    /// The marginal rate for borrowed inputs.
    pub fn marginal_rate(&self, incomes: &Vec<Income>, deductions: &Vec<TaxDeductionClaim>) -> (r: Result<Decimal, TaxError>)
        ensures
            r == self.marginal_spec(incomes@, deductions@),
    {
        let taxable = match self.determine_taxable_income(incomes, deductions) {
            Ok(m) => m,
            Err(e) => return Err(e),
        };
        if self.brackets.len() == 0 {
            return Err(TaxError::ThereAreNoBrackets);
        }
        let mut chosen: usize = 0;
        let mut i: usize = 1;
        while i < self.brackets.len()
            invariant
                1 <= i <= self@.brackets.len(),
                chosen < i,
                taxable.currency == self@.currency,
                self.marginal_prefix(taxable.amount@, i as nat) == Some(chosen as int),
            decreases self@.brackets.len() - i,
        {
            let b = &self.brackets[i];
            if b.min_money.currency == self.tax_currency && b.min_money.amount.lt(&taxable.amount) {
                chosen = i;
            }
            i = i + 1;
        }
        Ok(self.brackets[chosen].rate)
    }

    /// The rate of the bracket whose lower bound is the greatest one strictly
    /// below the taxable income, or of the first bracket where none is.
    pub fn determine_marginal_rate(&self, incomes: Vec<Income>, tax_deduction_claims: Vec<TaxDeductionClaim>) -> (r: Result<Decimal, TaxError>)
        ensures
            r == self.marginal_spec(incomes@, tax_deduction_claims@),
    {
        self.marginal_rate(&incomes, &tax_deduction_claims)
    }
}

} // verus!
