//! A payroll record with its earnings, deductions and totals.
use vstd::prelude::*;
use crate::date::{Date, Timestamp, date_before, utc_now};
use crate::decimal::{
    Dec, amount_within, arithmetic_as_stated, checked_add, checked_sub, dec_checked_add, dec_lt,
    dec_le, lemma_exact_add, lemma_exact_sum_of, oadd, osub, sum_decs, sum_of, units_sum, zero_dec,
};
use crate::error::{ErrorKind, PayrollError};
use crate::models::payroll::{EarningType, earning_is_periodic, earning_type_of_text};
use crate::text::{push_str, replace_char_spec, text_lowercase, to_owned_string};

verus! {

/// A deduction beyond the statutory ones (pension, union dues, ...).
#[derive(Debug, Clone)]
pub struct AdditionalDeduction {
    pub name: String,
    pub amount: Dec,
}

/// An earning beyond the regular pay (bonus, allowance, ...).
#[derive(Debug, Clone)]
pub struct AdditionalEarning {
    pub id: Option<i64>,
    pub payroll_id: i64,
    pub earning_type: String,
    pub amount: Dec,
    pub hours: Option<Dec>,
    /// Periodic (true) or non-periodic (false) under T4127.
    pub is_periodic: bool,
}

/// Whether an earning type named `s` is periodic: unknown types count as periodic.
pub open spec fn periodic_type_text(s: Seq<char>) -> bool {
    match earning_type_of_text(replace_char_spec(text_lowercase(s), ' ', "_"@)) {
        Some(e) => earning_is_periodic(e),
        None => true,
    }
}

impl AdditionalEarning {
    /// Whether an earning type is periodic under T4127; unknown types are.
    pub fn is_periodic_earning_type(earning_type: &str) -> (r: bool)
        ensures
            r == periodic_type_text(earning_type@),
    {
        match EarningType::from_str(earning_type) {
            Some(et) => et.is_periodic(),
            None => true,
        }
    }
}

pub open spec fn deduction_amounts(ds: Seq<AdditionalDeduction>) -> Seq<Dec> {
    ds.map_values(|d: AdditionalDeduction| d.amount)
}

pub open spec fn deductions_wf(ds: Seq<AdditionalDeduction>) -> bool {
    forall|i: int| 0 <= i < ds.len() ==> (#[trigger] ds[i]).amount.wf()
}

/// The amounts of the earnings that are periodic (`periodic`) or not.
pub open spec fn earning_amounts(es: Seq<AdditionalEarning>, periodic: bool) -> Seq<Dec>
    decreases es.len(),
{
    if es.len() == 0 {
        Seq::empty()
    } else {
        let prev = earning_amounts(es.drop_last(), periodic);
        if es.last().is_periodic == periodic {
            prev.push(es.last().amount)
        } else {
            prev
        }
    }
}

pub open spec fn all_earning_amounts(es: Seq<AdditionalEarning>) -> Seq<Dec> {
    es.map_values(|e: AdditionalEarning| e.amount)
}

pub open spec fn earnings_wf(es: Seq<AdditionalEarning>) -> bool {
    forall|i: int|
        0 <= i < es.len() ==> (#[trigger] es[i]).amount.wf() && (es[i].hours is Some
            ==> es[i].hours->0.wf())
}

/// The amounts of a list of deductions.
pub fn amounts_of_deductions(ds: &Vec<AdditionalDeduction>) -> (r: Vec<Dec>)
    requires
        deductions_wf(ds@),
    ensures
        r@ == deduction_amounts(ds@),
        forall|i: int| 0 <= i < r@.len() ==> (#[trigger] r@[i]).wf(),
{
    let mut out: Vec<Dec> = Vec::new();
    let mut i: usize = 0;
    while i < ds.len()
        invariant
            i <= ds@.len(),
            deductions_wf(ds@),
            out@ == deduction_amounts(ds@.subrange(0, i as int)),
            forall|j: int| 0 <= j < out@.len() ==> (#[trigger] out@[j]).wf(),
        decreases ds@.len() - i,
    {
        out.push(ds[i].amount);
        proof {
            assert(deduction_amounts(ds@.subrange(0, i + 1)) =~= deduction_amounts(
                ds@.subrange(0, i as int),
            ).push(ds@[i as int].amount));
        }
        i = i + 1;
    }
    proof {
        assert(ds@.subrange(0, ds@.len() as int) =~= ds@);
    }
    out
}

/// The amounts of a list of earnings, all of them or only the periodic
/// (or non-periodic) ones.
fn amounts_of_earnings(es: &Vec<AdditionalEarning>, select: bool, periodic: bool) -> (r: Vec<Dec>)
    requires
        earnings_wf(es@),
    ensures
        select ==> r@ == earning_amounts(es@, periodic),
        !select ==> r@ == all_earning_amounts(es@),
        forall|i: int| 0 <= i < r@.len() ==> (#[trigger] r@[i]).wf(),
{
    let mut out: Vec<Dec> = Vec::new();
    let mut i: usize = 0;
    while i < es.len()
        invariant
            i <= es@.len(),
            earnings_wf(es@),
            select ==> out@ == earning_amounts(es@.subrange(0, i as int), periodic),
            !select ==> out@ == all_earning_amounts(es@.subrange(0, i as int)),
            forall|j: int| 0 <= j < out@.len() ==> (#[trigger] out@[j]).wf(),
        decreases es@.len() - i,
    {
        let ghost pre = es@.subrange(0, i + 1);
        proof {
            assert(pre.drop_last() =~= es@.subrange(0, i as int));
            assert(all_earning_amounts(pre) =~= all_earning_amounts(es@.subrange(0, i as int)).push(
                es@[i as int].amount,
            ));
        }
        if !select || es[i].is_periodic == periodic {
            out.push(es[i].amount);
        }
        i = i + 1;
    }
    proof {
        assert(es@.subrange(0, es@.len() as int) =~= es@);
    }
    out
}

/// The statutory and additional deductions of a pay.
#[derive(Debug, Clone)]
pub struct Deductions {
    pub cpp: Dec,
    pub cpp2: Dec,
    pub ei: Dec,
    pub federal_tax: Dec,
    pub provincial_tax: Dec,
    pub additional: Vec<AdditionalDeduction>,
}

impl Deductions {
    pub open spec fn wf(self) -> bool {
        &&& self.cpp.wf()
        &&& self.cpp2.wf()
        &&& self.ei.wf()
        &&& self.federal_tax.wf()
        &&& self.provincial_tax.wf()
        &&& deductions_wf(self.additional@)
    }

    /// `cpp + cpp2 + ei + federal_tax + provincial_tax`, left to right.
    pub open spec fn statutory_spec(self) -> Option<Dec> {
        oadd(
            oadd(oadd(oadd(Some(self.cpp), Some(self.cpp2)), Some(self.ei)), Some(self.federal_tax)),
            Some(self.provincial_tax),
        )
    }

    /// The statutory deductions plus the sum of the additional ones.
    pub open spec fn total_spec(self) -> Option<Dec> {
        let additional = sum_of(deduction_amounts(self.additional@));
        if additional is None {
            None
        } else {
            oadd(self.statutory_spec(), additional)
        }
    }

    /// No deductions.
    pub fn new() -> (r: Deductions)
        ensures
            r.wf(),
            r.cpp == zero_dec() && r.cpp2 == zero_dec() && r.ei == zero_dec(),
            r.federal_tax == zero_dec() && r.provincial_tax == zero_dec(),
            r.additional@.len() == 0,
    {
        Deductions {
            cpp: Dec::zero(),
            cpp2: Dec::zero(),
            ei: Dec::zero(),
            federal_tax: Dec::zero(),
            provincial_tax: Dec::zero(),
            additional: Vec::new(),
        }
    }

    /// All deductions: statutory plus additional; `None` on overflow.
    pub fn total(&self) -> (r: Option<Dec>)
        requires
            self.wf(),
        ensures
            r == self.total_spec(),
            r is Some ==> r->0.wf(),
    {
        let amounts = amounts_of_deductions(&self.additional);
        let additional_total = sum_decs(&amounts)?;
        let a = checked_add(self.cpp, self.cpp2)?;
        let b = checked_add(a, self.ei)?;
        let c = checked_add(b, self.federal_tax)?;
        let d = checked_add(c, self.provincial_tax)?;
        checked_add(d, additional_total)
    }

    /// The statutory deductions: CPP, CPP2, EI and both taxes.
    pub fn statutory_total(&self) -> (r: Option<Dec>)
        requires
            self.wf(),
        ensures
            r == self.statutory_spec(),
            r is Some ==> r->0.wf(),
    {
        let a = checked_add(self.cpp, self.cpp2)?;
        let b = checked_add(a, self.ei)?;
        let c = checked_add(b, self.federal_tax)?;
        checked_add(c, self.provincial_tax)
    }
}

impl Default for Deductions {
    fn default() -> (r: Deductions)
        ensures
            r.wf(),
            r.cpp == zero_dec() && r.cpp2 == zero_dec() && r.ei == zero_dec(),
            r.federal_tax == zero_dec() && r.provincial_tax == zero_dec(),
            r.additional@.len() == 0,
    {
        Deductions::new()
    }
}

/// One pay of one employee.
#[derive(Debug, Clone)]
pub struct Payroll {
    pub id: Option<i64>,
    pub employee_id: i64,
    pub pay_period_start: Date,
    pub pay_period_end: Date,
    pub pay_date: Date,
    pub regular_hours: Option<Dec>,
    pub overtime_hours: Option<Dec>,
    pub additional_earnings: Vec<AdditionalEarning>,
    pub insured_earning: Dec,
    pub gross_pay: Dec,
    pub additional_earnings_total: Dec,
    pub additional_tax_amount: Dec,
    pub deductions: Deductions,
    pub net_pay: Dec,
    pub pay_period_number: Option<i32>,
    pub total_pay_periods: i32,
    pub total_deductions: Dec,
    pub additional_deductions: Dec,
    pub federal_personal_amount: Dec,
    pub provincial_personal_amount: Dec,
    pub province: String,
    pub remittance_id: Option<i64>,
    pub created_at: Timestamp,
}

/// What `Payroll::validate` refuses, in the order it checks: the kind of
/// error and its text.
pub open spec fn earnings_issue(es: Seq<AdditionalEarning>) -> Option<Seq<char>>
    decreases es.len(),
{
    if es.len() == 0 {
        None
    } else if es[0].amount.units() < 0 {
        Some("Earning amount cannot be negative: "@ + es[0].earning_type@)
    } else if es[0].hours is Some && es[0].hours->0.units() < 0 {
        Some("Earning hours cannot be negative: "@ + es[0].earning_type@)
    } else {
        earnings_issue(es.drop_first())
    }
}

impl Payroll {
    pub open spec fn wf(self) -> bool {
        &&& self.insured_earning.wf()
        &&& self.gross_pay.wf()
        &&& self.additional_earnings_total.wf()
        &&& self.additional_tax_amount.wf()
        &&& self.deductions.wf()
        &&& self.net_pay.wf()
        &&& self.total_deductions.wf()
        &&& self.additional_deductions.wf()
        &&& self.federal_personal_amount.wf()
        &&& self.provincial_personal_amount.wf()
        &&& (self.regular_hours is Some ==> self.regular_hours->0.wf())
        &&& (self.overtime_hours is Some ==> self.overtime_hours->0.wf())
        &&& earnings_wf(self.additional_earnings@)
    }

    pub open spec fn issue(self) -> Option<(ErrorKind, Seq<char>)> {
        if self.gross_pay.units() <= 0 && self.additional_earnings_total.units() <= 0 {
            Some(
                (
                    ErrorKind::InvalidPayAmount,
                    "Gross pay or additional earnings must be greater than zero"@,
                ),
            )
        } else if self.net_pay.units() < 0 {
            Some((ErrorKind::InvalidPayAmount, "Net pay cannot be negative"@))
        } else if self.regular_hours is Some && self.regular_hours->0.units() < 0 {
            Some((ErrorKind::InvalidPayAmount, "Regular hours cannot be negative"@))
        } else if self.overtime_hours is Some && self.overtime_hours->0.units() < 0 {
            Some((ErrorKind::InvalidPayAmount, "Overtime hours cannot be negative"@))
        } else if earnings_issue(self.additional_earnings@) is Some {
            Some((ErrorKind::InvalidPayAmount, earnings_issue(self.additional_earnings@)->0))
        } else if date_before(self.pay_period_end, self.pay_period_start) {
            Some((ErrorKind::InvalidDateRange, "Pay period end cannot be before start"@))
        } else if date_before(self.pay_date, self.pay_period_end) {
            Some((ErrorKind::InvalidDateRange, "Pay date should not be before pay period end"@))
        } else {
            None
        }
    }

    /// Adds the additional earnings to gross pay and records their total.
    /// Returns false, leaving the record as it was, on overflow.
    pub fn calculate_gross_pay(&mut self) -> (ok: bool)
        requires
            old(self).wf(),
        ensures
            final(self).wf(),
            ({
                let total = sum_of(all_earning_amounts(old(self).additional_earnings@));
                let gross = oadd(Some(old(self).gross_pay), total);
                if gross is Some {
                    ok && *final(self) == (Payroll {
                        additional_earnings_total: total->0,
                        gross_pay: gross->0,
                        ..*old(self)
                    })
                } else {
                    !ok && *final(self) == *old(self)
                }
            }),
    {
        let amounts = amounts_of_earnings(&self.additional_earnings, false, true);
        let total = match sum_decs(&amounts) {
            Some(t) => t,
            None => return false,
        };
        let gross = match checked_add(self.gross_pay, total) {
            Some(g) => g,
            None => return false,
        };
        self.additional_earnings_total = total;
        self.gross_pay = gross;
        true
    }

    /// Insurable earnings (T4127 IE): all earnings, i.e. the gross pay.
    pub fn calculate_insured_earning(&mut self)
        requires
            old(self).wf(),
        ensures
            final(self).wf(),
            *final(self) == (Payroll { insured_earning: old(self).gross_pay, ..*old(self) }),
    {
        self.insured_earning = self.gross_pay;
    }

    pub open spec fn periodic_income_spec(self) -> Option<Dec> {
        oadd(
            osub(Some(self.gross_pay), Some(self.additional_earnings_total)),
            sum_of(earning_amounts(self.additional_earnings@, true)),
        )
    }

    /// Periodic income (T4127 I): gross pay without the additional
    /// earnings, plus the periodic ones.
    pub fn periodic_income(&self) -> (r: Option<Dec>)
        requires
            self.wf(),
        ensures
            r == self.periodic_income_spec(),
            r is Some ==> r->0.wf(),
    {
        let amounts = amounts_of_earnings(&self.additional_earnings, true, true);
        let periodic = sum_decs(&amounts);
        let base = checked_sub(self.gross_pay, self.additional_earnings_total)?;
        let p = periodic?;
        checked_add(base, p)
    }

    /// Non-periodic income (T4127 B): the sum of the non-periodic earnings.
    pub fn non_periodic_income(&self) -> (r: Option<Dec>)
        requires
            self.wf(),
        ensures
            r == sum_of(earning_amounts(self.additional_earnings@, false)),
            r is Some ==> r->0.wf(),
    {
        let amounts = amounts_of_earnings(&self.additional_earnings, true, false);
        sum_decs(&amounts)
    }

    /// Records the deduction totals and the net pay
    /// `gross_pay + additional_earnings_total − total_deductions`.
    /// Returns false, leaving the record as it was, on overflow.
    pub fn calculate_net_pay(&mut self) -> (ok: bool)
        requires
            old(self).wf(),
        ensures
            final(self).wf(),
            ({
                let total = old(self).deductions.total_spec();
                let additional = sum_of(deduction_amounts(old(self).deductions.additional@));
                let net = osub(
                    oadd(Some(old(self).gross_pay), Some(old(self).additional_earnings_total)),
                    total,
                );
                if net is Some && additional is Some {
                    ok && *final(self) == (Payroll {
                        total_deductions: total->0,
                        additional_deductions: additional->0,
                        net_pay: net->0,
                        ..*old(self)
                    })
                } else {
                    !ok && *final(self) == *old(self)
                }
            }),
    {
        let total = match self.deductions.total() {
            Some(t) => t,
            None => return false,
        };
        let amounts = amounts_of_deductions(&self.deductions.additional);
        let additional = match sum_decs(&amounts) {
            Some(a) => a,
            None => return false,
        };
        let with_earnings = match checked_add(self.gross_pay, self.additional_earnings_total) {
            Some(x) => x,
            None => return false,
        };
        let net = match checked_sub(with_earnings, total) {
            Some(x) => x,
            None => return false,
        };
        self.total_deductions = total;
        self.additional_deductions = additional;
        self.net_pay = net;
        true
    }

    /// Checks a payroll record: some earnings, a non-negative net pay,
    /// non-negative hours and earnings, and dates in order.
    pub fn validate(&self) -> (r: Result<(), PayrollError>)
        requires
            self.wf(),
        ensures
            match self.issue() {
                None => r is Ok,
                Some(x) => r is Err && r->Err_0.is(x.0, x.1),
            },
    {
        if dec_le(self.gross_pay, Dec::zero()) && dec_le(self.additional_earnings_total, Dec::zero()) {
            return Err(
                PayrollError::InvalidPayAmount(
                    to_owned_string("Gross pay or additional earnings must be greater than zero"),
                ),
            );
        }
        if dec_lt(self.net_pay, Dec::zero()) {
            return Err(PayrollError::InvalidPayAmount(to_owned_string("Net pay cannot be negative")));
        }
        if let Some(hours) = self.regular_hours {
            if dec_lt(hours, Dec::zero()) {
                return Err(
                    PayrollError::InvalidPayAmount(to_owned_string("Regular hours cannot be negative")),
                );
            }
        }
        if let Some(hours) = self.overtime_hours {
            if dec_lt(hours, Dec::zero()) {
                return Err(
                    PayrollError::InvalidPayAmount(to_owned_string("Overtime hours cannot be negative")),
                );
            }
        }
        let n = self.additional_earnings.len();
        let mut i: usize = 0;
        proof {
            assert(self.additional_earnings@.subrange(0, n as int) =~= self.additional_earnings@);
        }
        while i < n
            invariant
                n == self.additional_earnings@.len(),
                i <= n,
                earnings_wf(self.additional_earnings@),
                !(self.gross_pay.units() <= 0 && self.additional_earnings_total.units() <= 0),
                !(self.net_pay.units() < 0),
                !(self.regular_hours is Some && self.regular_hours->0.units() < 0),
                !(self.overtime_hours is Some && self.overtime_hours->0.units() < 0),
                earnings_issue(self.additional_earnings@) == earnings_issue(
                    self.additional_earnings@.subrange(i as int, n as int),
                ),
            decreases n - i,
        {
            let ghost rest = self.additional_earnings@.subrange(i as int, n as int);
            proof {
                assert(rest.drop_first() =~= self.additional_earnings@.subrange(i + 1, n as int));
                assert(rest[0] == self.additional_earnings@[i as int]);
            }
            let earning = &self.additional_earnings[i];
            if dec_lt(earning.amount, Dec::zero()) {
                let mut msg = to_owned_string("Earning amount cannot be negative: ");
                push_str(&mut msg, earning.earning_type.as_str());
                return Err(PayrollError::InvalidPayAmount(msg));
            }
            if let Some(hours) = earning.hours {
                if dec_lt(hours, Dec::zero()) {
                    let mut msg = to_owned_string("Earning hours cannot be negative: ");
                    push_str(&mut msg, earning.earning_type.as_str());
                    return Err(PayrollError::InvalidPayAmount(msg));
                }
            }
            i = i + 1;
        }
        if self.pay_period_end.before(&self.pay_period_start) {
            return Err(
                PayrollError::InvalidDateRange(to_owned_string("Pay period end cannot be before start")),
            );
        }
        if self.pay_date.before(&self.pay_period_end) {
            return Err(
                PayrollError::InvalidDateRange(
                    to_owned_string("Pay date should not be before pay period end"),
                ),
            );
        }
        Ok(())
    }
}

/// A year-to-date value kept with a payroll record (B1, D, D1, ...).
#[derive(Debug, Clone)]
pub struct YtdReductionValue {
    pub id: Option<i64>,
    pub payroll_id: i64,
    pub ytd_type: String,
    pub amount: Dec,
    pub created_at: Timestamp,
}

impl YtdReductionValue {
    /// A new value, stamped with the current time.
    pub fn new(payroll_id: i64, ytd_type: String, amount: Dec) -> (r: YtdReductionValue)
        ensures
            r.id is None,
            r.payroll_id == payroll_id,
            r.ytd_type@ == ytd_type@,
            r.amount == amount,
    {
        YtdReductionValue { id: None, payroll_id, ytd_type, amount, created_at: utc_now() }
    }
}

/// Year-to-date totals of an employee.
#[derive(Debug, Clone, Copy)]
pub struct YtdTotals {
    pub employee_id: i64,
    pub year: i32,
    pub gross_pay: Dec,
    pub cpp: Dec,
    pub cpp2: Dec,
    pub ei: Dec,
    pub federal_tax: Dec,
    pub provincial_tax: Dec,
    pub net_pay: Dec,
    /// Box 20: RPP contributions.
    pub rpp_contributions: Dec,
    /// Box 52: pension adjustment.
    pub pension_adjustment: Dec,
}

impl YtdTotals {
    pub open spec fn wf(self) -> bool {
        &&& self.gross_pay.wf()
        &&& self.cpp.wf()
        &&& self.cpp2.wf()
        &&& self.ei.wf()
        &&& self.federal_tax.wf()
        &&& self.provincial_tax.wf()
        &&& self.net_pay.wf()
        &&& self.rpp_contributions.wf()
        &&& self.pension_adjustment.wf()
    }

    /// Whether every total is a valid decimal (see `wf`).
    pub fn is_valid(&self) -> (r: bool)
        ensures
            r == self.wf(),
    {
        self.gross_pay.is_valid() && self.cpp.is_valid() && self.cpp2.is_valid() && self.ei.is_valid()
            && self.federal_tax.is_valid() && self.provincial_tax.is_valid() && self.net_pay.is_valid()
            && self.rpp_contributions.is_valid() && self.pension_adjustment.is_valid()
    }

    /// All totals zero.
    /// A year with nothing recorded: gross pay, CPP, EI, both taxes and net
    /// pay all zero (CPP2 and the pension amounts are not looked at).
    pub fn is_empty(&self) -> (r: bool)
        ensures
            r == (self.gross_pay.mantissa == 0 && self.cpp.mantissa == 0 && self.ei.mantissa == 0
                && self.federal_tax.mantissa == 0 && self.provincial_tax.mantissa == 0
                && self.net_pay.mantissa == 0),
    {
        self.gross_pay.is_zero() && self.cpp.is_zero() && self.ei.is_zero()
            && self.federal_tax.is_zero() && self.provincial_tax.is_zero() && self.net_pay.is_zero()
    }

    pub fn new(employee_id: i64, year: i32) -> (r: YtdTotals)
        ensures
            r.wf(),
            r == (YtdTotals {
                employee_id,
                year,
                gross_pay: zero_dec(),
                cpp: zero_dec(),
                cpp2: zero_dec(),
                ei: zero_dec(),
                federal_tax: zero_dec(),
                provincial_tax: zero_dec(),
                net_pay: zero_dec(),
                rpp_contributions: zero_dec(),
                pension_adjustment: zero_dec(),
            }),
    {
        YtdTotals {
            employee_id,
            year,
            gross_pay: Dec::zero(),
            cpp: Dec::zero(),
            cpp2: Dec::zero(),
            ei: Dec::zero(),
            federal_tax: Dec::zero(),
            provincial_tax: Dec::zero(),
            net_pay: Dec::zero(),
            rpp_contributions: Dec::zero(),
            pension_adjustment: Dec::zero(),
        }
    }
}

/// The statutory deductions of a pay add up CPP, CPP2, EI, federal tax and
/// provincial tax, each counted once: where rust_decimal adds as
/// `checked_add` states and each is an amount of at most three decimals
/// within `v` units (five times `v` at most 10^53), the statutory total is
/// their exact sum.
pub proof fn law_statutory_total(d: Deductions, v: int)
    requires
        arithmetic_as_stated(),
        0 <= v,
        5 * v <= 100000000000000000000000000000000000000000000000000000int,
        amount_within(d.cpp, v),
        amount_within(d.cpp2, v),
        amount_within(d.ei, v),
        amount_within(d.federal_tax, v),
        amount_within(d.provincial_tax, v),
    ensures
        d.statutory_spec() is Some,
        d.statutory_spec()->0.units() == d.cpp.units() + d.cpp2.units() + d.ei.units()
            + d.federal_tax.units() + d.provincial_tax.units(),
        amount_within(d.statutory_spec()->0, 5 * v),
{
    lemma_exact_add(d.cpp, d.cpp2, v, v);
    let a = dec_checked_add(d.cpp, d.cpp2)->0;
    lemma_exact_add(a, d.ei, 2 * v, v);
    let b = dec_checked_add(a, d.ei)->0;
    lemma_exact_add(b, d.federal_tax, 3 * v, v);
    let c = dec_checked_add(b, d.federal_tax)->0;
    lemma_exact_add(c, d.provincial_tax, 4 * v, v);
}

/// All the deductions of a pay are the statutory ones plus every additional
/// one: where rust_decimal adds as `checked_add` states and each amount has
/// at most three decimals and is within `v` units (the number of amounts
/// times `v` at most 10^53), the total is the exact sum of the five
/// statutory amounts and the additional amounts.
pub proof fn law_deductions_total(d: Deductions, v: int)
    requires
        arithmetic_as_stated(),
        0 <= v,
        (d.additional@.len() + 5) * v <= 100000000000000000000000000000000000000000000000000000int,
        amount_within(d.cpp, v),
        amount_within(d.cpp2, v),
        amount_within(d.ei, v),
        amount_within(d.federal_tax, v),
        amount_within(d.provincial_tax, v),
        forall|i: int| 0 <= i < d.additional@.len() ==> amount_within(#[trigger] d.additional@[i].amount, v),
    ensures
        d.total_spec() is Some,
        d.total_spec()->0.units() == d.cpp.units() + d.cpp2.units() + d.ei.units()
            + d.federal_tax.units() + d.provincial_tax.units() + units_sum(
            deduction_amounts(d.additional@),
        ),
{
    let n = d.additional@.len() as int;
    let xs = deduction_amounts(d.additional@);
    assert forall|i: int| 0 <= i < xs.len() implies amount_within(#[trigger] xs[i], v) by {
        assert(xs[i] == d.additional@[i].amount);
    }
    assert(5 * v <= (n + 5) * v && n * v <= (n + 5) * v && (n + 5) * v == 5 * v + n * v) by (nonlinear_arith)
        requires
            v >= 0,
            n >= 0,
    ;
    law_statutory_total(d, v);
    lemma_exact_sum_of(xs, v);
    lemma_exact_add(d.statutory_spec()->0, sum_of(xs)->0, 5 * v, n * v);
}

} // verus!
