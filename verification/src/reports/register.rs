//! The payroll register and the remittance register: one row per pay of
//! a known employee, the amounts split into report columns, rows in
//! employee-number order, and the totals owed to the government.
use vstd::prelude::*;
use crate::date::Date;
use crate::decimal::{Dec, checked_add, checked_mul, checked_sub, dec_checked_add, dec_checked_mul,
    dec_checked_sub, lit, oadd, sum_of, zero_dec, add_within, mul_within, ordinary_amount,
    lemma_ordinary_within, amount_within, amount_within2, sub_within};
use crate::models::employee::Employee;
use crate::models::payroll_record::{
    AdditionalDeduction, AdditionalEarning, Payroll, deductions_wf, earnings_wf,
};
use crate::reports::format::two_digits;
use crate::text::{
    contains_text, has_infix, i64_text, int_text, parse_i32, parsed_i32, push_str, text_lowercase,
    to_lowercase, to_owned_string,
};

verus! {

// ---------------------------------------------------------------------
// Report columns
// ---------------------------------------------------------------------

/// The column of the payroll register that an additional earning goes to.
#[derive(Debug, Clone, Copy, PartialEq, Eq, Structural)]
pub enum EarningColumn {
    Vacation,
    Commission,
    Allowance,
    Bonus,
    Benefit,
    Other,
}

/// The column of a lowercased earning type, by the words it contains,
/// tried in this order.
pub open spec fn earning_column_of_lower(t: Seq<char>) -> EarningColumn {
    if has_infix(t, "vacat"@) || has_infix(t, "vacation"@) {
        EarningColumn::Vacation
    } else if has_infix(t, "commis"@) || has_infix(t, "commission"@) {
        EarningColumn::Commission
    } else if has_infix(t, "allow"@) || has_infix(t, "allowance"@) || has_infix(t, "dir"@) {
        EarningColumn::Allowance
    } else if has_infix(t, "bonus"@) || has_infix(t, "lump"@) {
        EarningColumn::Bonus
    } else if has_infix(t, "benefit"@) {
        EarningColumn::Benefit
    } else {
        EarningColumn::Other
    }
}

pub open spec fn earning_column_spec(earning_type: Seq<char>) -> EarningColumn {
    earning_column_of_lower(text_lowercase(earning_type))
}

/// The column of an earning type, read without regard to case.
pub fn earning_column(earning_type: &str) -> (r: EarningColumn)
    ensures
        r == earning_column_spec(earning_type@),
{
    let lower = to_lowercase(earning_type);
    let t = lower.as_str();
    if contains_text(t, "vacat") || contains_text(t, "vacation") {
        EarningColumn::Vacation
    } else if contains_text(t, "commis") || contains_text(t, "commission") {
        EarningColumn::Commission
    } else if contains_text(t, "allow") || contains_text(t, "allowance") || contains_text(t, "dir") {
        EarningColumn::Allowance
    } else if contains_text(t, "bonus") || contains_text(t, "lump") {
        EarningColumn::Bonus
    } else if contains_text(t, "benefit") {
        EarningColumn::Benefit
    } else {
        EarningColumn::Other
    }
}

/// The column of a register that an additional deduction goes to.
#[derive(Debug, Clone, Copy, PartialEq, Eq, Structural)]
pub enum DeductionColumn {
    Pension,
    Union,
    GroupInsurance,
    Other,
}

/// The column of a lowercased deduction name, by the words it contains,
/// tried in this order; `with_ben` counts a name holding `ben` as
/// insurance (the payroll register does, the remittance register does not).
pub open spec fn deduction_column_of_lower(n: Seq<char>, with_ben: bool) -> DeductionColumn {
    if has_infix(n, "pension"@) {
        DeductionColumn::Pension
    } else if has_infix(n, "union"@) {
        DeductionColumn::Union
    } else if has_infix(n, "group"@) || has_infix(n, "insur"@) || has_infix(n, "insurance"@)
        || has_infix(n, "health"@) || has_infix(n, "medical"@) || (with_ben && has_infix(
        n,
        "ben"@,
    )) {
        DeductionColumn::GroupInsurance
    } else {
        DeductionColumn::Other
    }
}

pub open spec fn deduction_column_spec(name: Seq<char>, with_ben: bool) -> DeductionColumn {
    deduction_column_of_lower(text_lowercase(name), with_ben)
}

/// The column of a deduction name, read without regard to case.
pub fn deduction_column(name: &str, with_ben: bool) -> (r: DeductionColumn)
    ensures
        r == deduction_column_spec(name@, with_ben),
{
    let lower = to_lowercase(name);
    let n = lower.as_str();
    if contains_text(n, "pension") {
        DeductionColumn::Pension
    } else if contains_text(n, "union") {
        DeductionColumn::Union
    } else if contains_text(n, "group") || contains_text(n, "insur") || contains_text(
        n,
        "insurance",
    ) || contains_text(n, "health") || contains_text(n, "medical") || (with_ben
        && contains_text(n, "ben")) {
        DeductionColumn::GroupInsurance
    } else {
        DeductionColumn::Other
    }
}

// ---------------------------------------------------------------------
// Column totals of one pay
// ---------------------------------------------------------------------

pub open spec fn earning_in(c: EarningColumn) -> spec_fn(AdditionalEarning) -> bool {
    |e: AdditionalEarning| earning_column_spec(e.earning_type@) == c
}

/// The amounts of the earnings that go to column `c`, in order.
pub open spec fn column_earnings(es: Seq<AdditionalEarning>, c: EarningColumn) -> Seq<Dec> {
    es.filter(earning_in(c)).map_values(|e: AdditionalEarning| e.amount)
}

pub open spec fn deduction_in(c: DeductionColumn, with_ben: bool) -> spec_fn(
    AdditionalDeduction,
) -> bool {
    |d: AdditionalDeduction| deduction_column_spec(d.name@, with_ben) == c
}

/// The amounts of the deductions that go to column `c`, in order.
pub open spec fn column_deductions(ds: Seq<AdditionalDeduction>, c: DeductionColumn, with_ben: bool) -> Seq<Dec> {
    ds.filter(deduction_in(c, with_ben)).map_values(|d: AdditionalDeduction| d.amount)
}

proof fn lemma_sum_push(xs: Seq<Dec>, x: Dec)
    ensures
        sum_of(xs.push(x)) == oadd(sum_of(xs), Some(x)),
{
    assert(xs.push(x).drop_last() =~= xs);
}

proof fn lemma_map_push<A>(xs: Seq<A>, x: A, f: spec_fn(A) -> Dec)
    ensures
        xs.push(x).map_values(f) == xs.map_values(f).push(f(x)),
{
    assert(xs.push(x).map_values(f) =~= xs.map_values(f).push(f(x)));
}

/// Every earning's amount is an ordinary amount.
pub open spec fn ordinary_earnings(es: Seq<AdditionalEarning>) -> bool {
    forall|i: int| 0 <= i < es.len() ==> ordinary_amount(#[trigger] es[i].amount)
}

/// The sum of the earnings of column `c`; `None` where it overflows.
/// The sum of at most 100 ordinary amounts succeeds.
fn earning_column_total(es: &Vec<AdditionalEarning>, c: EarningColumn) -> (r: Option<Dec>)
    requires
        earnings_wf(es@),
    ensures
        r == sum_of(column_earnings(es@, c)),
        r matches Some(t) ==> t.wf(),
        (ordinary_earnings(es@) && es@.len() <= 100) ==> (r is Some && amount_within2(
            r->0,
            es@.len() * 10000000000000000000000000000000000000000000int,
        )),
{
    let ghost ok = ordinary_earnings(es@) && es@.len() <= 100;
    let n = es.len();
    let mut total = Dec::zero();
    let mut i: usize = 0;
    proof {
        assert(es@.subrange(0, 0) =~= Seq::<AdditionalEarning>::empty());
        reveal(Seq::filter);
        assert(column_earnings(es@.subrange(0, 0), c) =~= Seq::<Dec>::empty());
    }
    while i < n
        invariant
            n == es@.len(),
            i <= n,
            earnings_wf(es@),
            total.wf(),
            sum_of(column_earnings(es@.subrange(0, i as int), c)) == Some(total),
            ok == (ordinary_earnings(es@) && es@.len() <= 100),
            ok ==> amount_within2(total, i * 10000000000000000000000000000000000000000000int),
        decreases n - i,
    {
        let ghost pre = es@.subrange(0, i as int);
        proof {
            if ok {
                lemma_ordinary_within(es@[i as int].amount);
            }
        }
        let e = &es[i];
        proof {
            assert(es@.subrange(0, i + 1) =~= pre.push(es@[i as int]));
            pre.lemma_filter_push(es@[i as int], earning_in(c));
            lemma_map_push(pre.filter(earning_in(c)), es@[i as int], |e: AdditionalEarning| e.amount);
            lemma_sum_push(column_earnings(pre, c), e.amount);
        }
        if earning_column(e.earning_type.as_str()) == c {
            total = match add_within(total, e.amount, Ghost(i * 10000000000000000000000000000000000000000000int), Ghost(10000000000000000000000000000000000000000000int)) {
                Some(t) => t,
                None => {
                    proof {
                        lemma_sum_none_extends_filter_earnings(es@, i as int, c);
                    }
                    return None;
                },
            };
        }
        i = i + 1;
    }
    proof {
        assert(es@.subrange(0, n as int) =~= es@);
    }
    Some(total)
}

/// A column sum that overflows on a prefix of the earnings overflows on all
/// of them.
proof fn lemma_sum_none_extends_filter_earnings(es: Seq<AdditionalEarning>, i: int, c: EarningColumn)
    requires
        0 <= i < es.len(),
        sum_of(column_earnings(es.subrange(0, i + 1), c)) is None,
    ensures
        sum_of(column_earnings(es, c)) is None,
{
    let pre = es.subrange(0, i + 1);
    let rest = es.subrange(i + 1, es.len() as int);
    assert(es =~= pre + rest);
    Seq::filter_distributes_over_add(pre, rest, earning_in(c));
    let f = |e: AdditionalEarning| e.amount;
    let a = pre.filter(earning_in(c));
    let b = rest.filter(earning_in(c));
    assert((a + b).map_values(f) =~= a.map_values(f) + b.map_values(f));
    let all = a.map_values(f) + b.map_values(f);
    assert(all.subrange(0, a.map_values(f).len() as int) =~= a.map_values(f));
    crate::decimal::lemma_sum_none_extends(all, a.map_values(f).len() as int);
}

/// A column sum that overflows on a prefix of the deductions overflows on
/// all of them.
proof fn lemma_sum_none_extends_filter_deductions(
    ds: Seq<AdditionalDeduction>,
    i: int,
    c: DeductionColumn,
    with_ben: bool,
)
    requires
        0 <= i < ds.len(),
        sum_of(column_deductions(ds.subrange(0, i + 1), c, with_ben)) is None,
    ensures
        sum_of(column_deductions(ds, c, with_ben)) is None,
{
    let pre = ds.subrange(0, i + 1);
    let rest = ds.subrange(i + 1, ds.len() as int);
    assert(ds =~= pre + rest);
    Seq::filter_distributes_over_add(pre, rest, deduction_in(c, with_ben));
    let f = |d: AdditionalDeduction| d.amount;
    let a = pre.filter(deduction_in(c, with_ben));
    let b = rest.filter(deduction_in(c, with_ben));
    assert((a + b).map_values(f) =~= a.map_values(f) + b.map_values(f));
    let all = a.map_values(f) + b.map_values(f);
    assert(all.subrange(0, a.map_values(f).len() as int) =~= a.map_values(f));
    crate::decimal::lemma_sum_none_extends(all, a.map_values(f).len() as int);
}

/// Every deduction's amount is an ordinary amount.
pub open spec fn ordinary_deductions(ds: Seq<AdditionalDeduction>) -> bool {
    forall|i: int| 0 <= i < ds.len() ==> ordinary_amount(#[trigger] ds[i].amount)
}

/// The sum of the deductions of column `c`; `None` where it overflows.
/// The sum of at most 100 ordinary amounts succeeds.
fn deduction_column_total(ds: &Vec<AdditionalDeduction>, c: DeductionColumn, with_ben: bool) -> (r:
    Option<Dec>)
    requires
        deductions_wf(ds@),
    ensures
        r == sum_of(column_deductions(ds@, c, with_ben)),
        r matches Some(t) ==> t.wf(),
        (ordinary_deductions(ds@) && ds@.len() <= 100) ==> (r is Some && amount_within2(
            r->0,
            ds@.len() * 10000000000000000000000000000000000000000000int,
        )),
{
    let ghost ok = ordinary_deductions(ds@) && ds@.len() <= 100;
    let n = ds.len();
    let mut total = Dec::zero();
    let mut i: usize = 0;
    proof {
        assert(ds@.subrange(0, 0) =~= Seq::<AdditionalDeduction>::empty());
        reveal(Seq::filter);
        assert(column_deductions(ds@.subrange(0, 0), c, with_ben) =~= Seq::<Dec>::empty());
    }
    while i < n
        invariant
            n == ds@.len(),
            i <= n,
            deductions_wf(ds@),
            total.wf(),
            sum_of(column_deductions(ds@.subrange(0, i as int), c, with_ben)) == Some(total),
            ok == (ordinary_deductions(ds@) && ds@.len() <= 100),
            ok ==> amount_within2(total, i * 10000000000000000000000000000000000000000000int),
        decreases n - i,
    {
        let ghost pre = ds@.subrange(0, i as int);
        proof {
            if ok {
                lemma_ordinary_within(ds@[i as int].amount);
            }
        }
        let d = &ds[i];
        proof {
            assert(ds@.subrange(0, i + 1) =~= pre.push(ds@[i as int]));
            pre.lemma_filter_push(ds@[i as int], deduction_in(c, with_ben));
            lemma_map_push(
                pre.filter(deduction_in(c, with_ben)),
                ds@[i as int],
                |d: AdditionalDeduction| d.amount,
            );
            lemma_sum_push(column_deductions(pre, c, with_ben), d.amount);
        }
        if deduction_column(d.name.as_str(), with_ben) == c {
            total = match add_within(total, d.amount, Ghost(i * 10000000000000000000000000000000000000000000int), Ghost(10000000000000000000000000000000000000000000int)) {
                Some(t) => t,
                None => {
                    proof {
                        lemma_sum_none_extends_filter_deductions(ds@, i as int, c, with_ben);
                    }
                    return None;
                },
            };
        }
        i = i + 1;
    }
    proof {
        assert(ds@.subrange(0, n as int) =~= ds@);
    }
    Some(total)
}

// ---------------------------------------------------------------------
// The amounts of one pay
// ---------------------------------------------------------------------

/// One pay as the payroll register shows it.
#[derive(Debug, Clone, Copy, PartialEq, Eq, Structural)]
pub struct RegisterAmounts {
    pub regular_hours: Dec,
    pub overtime_hours: Dec,
    /// The pay before additional earnings.
    pub base_earning: Dec,
    pub allowance: Dec,
    pub benefit: Dec,
    pub bonus: Dec,
    pub commission: Dec,
    pub vacation: Dec,
    pub other_earning: Dec,
    /// The pay with the additional earnings.
    pub gross_earning: Dec,
    pub pension: Dec,
    /// The gross earning less the pension deductions.
    pub taxable_income: Dec,
    pub union_dues: Dec,
    pub group_insurance: Dec,
    pub other_deduction: Dec,
    pub cpp: Dec,
    pub cpp2: Dec,
    pub ei: Dec,
    pub federal_tax: Dec,
    pub provincial_tax: Dec,
    /// Always zero: the register has the column but nothing fills it.
    pub net_pay_adjust: Dec,
    pub net_pay: Dec,
}

impl RegisterAmounts {
    pub open spec fn wf(self) -> bool {
        &&& self.regular_hours.wf()
        &&& self.overtime_hours.wf()
        &&& self.base_earning.wf()
        &&& self.allowance.wf()
        &&& self.benefit.wf()
        &&& self.bonus.wf()
        &&& self.commission.wf()
        &&& self.vacation.wf()
        &&& self.other_earning.wf()
        &&& self.gross_earning.wf()
        &&& self.pension.wf()
        &&& self.taxable_income.wf()
        &&& self.union_dues.wf()
        &&& self.group_insurance.wf()
        &&& self.other_deduction.wf()
        &&& self.cpp.wf()
        &&& self.cpp2.wf()
        &&& self.ei.wf()
        &&& self.federal_tax.wf()
        &&& self.provincial_tax.wf()
        &&& self.net_pay_adjust.wf()
        &&& self.net_pay.wf()
    }
}

pub open spec fn hours_or_zero(h: Option<Dec>) -> Dec {
    match h {
        Some(v) => v,
        None => zero_dec(),
    }
}

/// A pay's line in the payroll register: hours (zero when absent), the
/// additional earnings and deductions added up by column, the gross
/// earning (pay plus additional earnings) and the taxable income (gross
/// earning less pension).  `None` where a sum overflows.
pub open spec fn register_amounts(p: Payroll) -> Option<RegisterAmounts> {
    let es = p.additional_earnings@;
    let ds = p.deductions.additional@;
    let gross = dec_checked_add(p.gross_pay, p.additional_earnings_total);
    let allowance = sum_of(column_earnings(es, EarningColumn::Allowance));
    let benefit = sum_of(column_earnings(es, EarningColumn::Benefit));
    let bonus = sum_of(column_earnings(es, EarningColumn::Bonus));
    let commission = sum_of(column_earnings(es, EarningColumn::Commission));
    let vacation = sum_of(column_earnings(es, EarningColumn::Vacation));
    let other_earning = sum_of(column_earnings(es, EarningColumn::Other));
    let pension = sum_of(column_deductions(ds, DeductionColumn::Pension, true));
    let union_dues = sum_of(column_deductions(ds, DeductionColumn::Union, true));
    let group_insurance = sum_of(column_deductions(ds, DeductionColumn::GroupInsurance, true));
    let other_deduction = sum_of(column_deductions(ds, DeductionColumn::Other, true));
    let taxable = if gross is Some && pension is Some {
        dec_checked_sub(gross->0, pension->0)
    } else {
        None
    };
    if gross is Some && allowance is Some && benefit is Some && bonus is Some && commission is Some
        && vacation is Some && other_earning is Some && pension is Some && union_dues is Some
        && group_insurance is Some && other_deduction is Some && taxable is Some {
        Some(
            RegisterAmounts {
                regular_hours: hours_or_zero(p.regular_hours),
                overtime_hours: hours_or_zero(p.overtime_hours),
                base_earning: p.gross_pay,
                allowance: allowance->0,
                benefit: benefit->0,
                bonus: bonus->0,
                commission: commission->0,
                vacation: vacation->0,
                other_earning: other_earning->0,
                gross_earning: gross->0,
                pension: pension->0,
                taxable_income: taxable->0,
                union_dues: union_dues->0,
                group_insurance: group_insurance->0,
                other_deduction: other_deduction->0,
                cpp: p.deductions.cpp,
                cpp2: p.deductions.cpp2,
                ei: p.deductions.ei,
                federal_tax: p.deductions.federal_tax,
                provincial_tax: p.deductions.provincial_tax,
                net_pay_adjust: zero_dec(),
                net_pay: p.net_pay,
            },
        )
    } else {
        None
    }
}

fn hours_of(h: Option<Dec>) -> (r: Dec)
    requires
        h matches Some(v) ==> v.wf(),
    ensures
        r == hours_or_zero(h),
        r.wf(),
{
    match h {
        Some(v) => v,
        None => Dec::zero(),
    }
}

/// Hours that are absent, or within 10^13 with at most three decimals.
pub open spec fn ordinary_hours(h: Option<Dec>) -> bool {
    h matches Some(v) ==> amount_within(v, 10000000000000000000000000000000000000000000int)
}

/// A pay of ordinary amounts for the payroll register: those of
/// `ordinary_pay`, the additional earnings total and its at most 100
/// additional earnings, and ordinary hours.
pub open spec fn ordinary_register_pay(p: Payroll) -> bool {
    &&& ordinary_pay(p)
    &&& ordinary_amount(p.additional_earnings_total)
    &&& ordinary_earnings(p.additional_earnings@)
    &&& p.additional_earnings@.len() <= 100
    &&& ordinary_hours(p.regular_hours)
    &&& ordinary_hours(p.overtime_hours)
}

/// Every column of a payroll register line is within `v` units: the hours
/// with at most three decimals, the amounts with at most two.
pub open spec fn register_within(a: RegisterAmounts, v: int) -> bool {
    &&& amount_within(a.regular_hours, v)
    &&& amount_within(a.overtime_hours, v)
    &&& amount_within2(a.base_earning, v)
    &&& amount_within2(a.allowance, v)
    &&& amount_within2(a.benefit, v)
    &&& amount_within2(a.bonus, v)
    &&& amount_within2(a.commission, v)
    &&& amount_within2(a.vacation, v)
    &&& amount_within2(a.other_earning, v)
    &&& amount_within2(a.gross_earning, v)
    &&& amount_within2(a.pension, v)
    &&& amount_within2(a.taxable_income, v)
    &&& amount_within2(a.union_dues, v)
    &&& amount_within2(a.group_insurance, v)
    &&& amount_within2(a.other_deduction, v)
    &&& amount_within2(a.cpp, v)
    &&& amount_within2(a.cpp2, v)
    &&& amount_within2(a.ei, v)
    &&& amount_within2(a.federal_tax, v)
    &&& amount_within2(a.provincial_tax, v)
    &&& amount_within2(a.net_pay_adjust, v)
    &&& amount_within2(a.net_pay, v)
}

/// A pay's line in the payroll register (see `register_amounts`).  The
/// line of a pay of ordinary amounts is computed, each column within
/// 110 × 10^13.
pub fn register_amounts_of(p: &Payroll) -> (r: Option<RegisterAmounts>)
    requires
        p.wf(),
    ensures
        r == register_amounts(*p),
        r matches Some(a) ==> a.wf(),
        ordinary_register_pay(*p) ==> (r matches Some(a) && register_within(a, 1100000000000000000000000000000000000000000000int)),
{
    proof {
        if ordinary_register_pay(*p) {
            lemma_ordinary_within(p.gross_pay);
            lemma_ordinary_within(p.additional_earnings_total);
            lemma_ordinary_within(p.net_pay);
            lemma_ordinary_within(p.deductions.cpp);
            lemma_ordinary_within(p.deductions.cpp2);
            lemma_ordinary_within(p.deductions.ei);
            lemma_ordinary_within(p.deductions.federal_tax);
            lemma_ordinary_within(p.deductions.provincial_tax);
        }
    }
    let es = &p.additional_earnings;
    let ds = &p.deductions.additional;
    let gross = add_within(
        p.gross_pay,
        p.additional_earnings_total,
        Ghost(10000000000000000000000000000000000000000000int),
        Ghost(10000000000000000000000000000000000000000000int),
    )?;
    let allowance = earning_column_total(es, EarningColumn::Allowance)?;
    let benefit = earning_column_total(es, EarningColumn::Benefit)?;
    let bonus = earning_column_total(es, EarningColumn::Bonus)?;
    let commission = earning_column_total(es, EarningColumn::Commission)?;
    let vacation = earning_column_total(es, EarningColumn::Vacation)?;
    let other_earning = earning_column_total(es, EarningColumn::Other)?;
    let pension = deduction_column_total(ds, DeductionColumn::Pension, true)?;
    let union_dues = deduction_column_total(ds, DeductionColumn::Union, true)?;
    let group_insurance = deduction_column_total(ds, DeductionColumn::GroupInsurance, true)?;
    let other_deduction = deduction_column_total(ds, DeductionColumn::Other, true)?;
    let taxable_income = sub_within(
        gross,
        pension,
        Ghost(2 * 10000000000000000000000000000000000000000000int),
        Ghost(100 * 10000000000000000000000000000000000000000000int),
    )?;
    Some(
        RegisterAmounts {
            regular_hours: hours_of(p.regular_hours),
            overtime_hours: hours_of(p.overtime_hours),
            base_earning: p.gross_pay,
            allowance,
            benefit,
            bonus,
            commission,
            vacation,
            other_earning,
            gross_earning: gross,
            pension,
            taxable_income,
            union_dues,
            group_insurance,
            other_deduction,
            cpp: p.deductions.cpp,
            cpp2: p.deductions.cpp2,
            ei: p.deductions.ei,
            federal_tax: p.deductions.federal_tax,
            provincial_tax: p.deductions.provincial_tax,
            net_pay_adjust: Dec::zero(),
            net_pay: p.net_pay,
        },
    )
}

/// One pay as the remittance register shows it.
#[derive(Debug, Clone, Copy, PartialEq, Eq, Structural)]
pub struct RemittanceAmounts {
    /// The pay before additional earnings.
    pub gross_earning: Dec,
    pub pension: Dec,
    pub union_dues: Dec,
    pub group_insurance: Dec,
    pub other_deduction: Dec,
    /// The gross earning less the pension deductions.
    pub taxable_income: Dec,
    pub cpp: Dec,
    pub cpp2: Dec,
    pub ei: Dec,
    pub federal_tax: Dec,
    pub provincial_tax: Dec,
    pub net_pay: Dec,
}

impl RemittanceAmounts {
    pub open spec fn wf(self) -> bool {
        &&& self.gross_earning.wf()
        &&& self.pension.wf()
        &&& self.union_dues.wf()
        &&& self.group_insurance.wf()
        &&& self.other_deduction.wf()
        &&& self.taxable_income.wf()
        &&& self.cpp.wf()
        &&& self.cpp2.wf()
        &&& self.ei.wf()
        &&& self.federal_tax.wf()
        &&& self.provincial_tax.wf()
        &&& self.net_pay.wf()
    }
}

/// A pay's line in the remittance register: the additional deductions
/// added up by column (a name holding `ben` is not insurance here) and
/// the taxable income (pay less pension).  `None` where a sum overflows.
pub open spec fn remittance_amounts(p: Payroll) -> Option<RemittanceAmounts> {
    let ds = p.deductions.additional@;
    let pension = sum_of(column_deductions(ds, DeductionColumn::Pension, false));
    let union_dues = sum_of(column_deductions(ds, DeductionColumn::Union, false));
    let group_insurance = sum_of(column_deductions(ds, DeductionColumn::GroupInsurance, false));
    let other_deduction = sum_of(column_deductions(ds, DeductionColumn::Other, false));
    let taxable = if pension is Some {
        dec_checked_sub(p.gross_pay, pension->0)
    } else {
        None
    };
    if pension is Some && union_dues is Some && group_insurance is Some && other_deduction is Some
        && taxable is Some {
        Some(
            RemittanceAmounts {
                gross_earning: p.gross_pay,
                pension: pension->0,
                union_dues: union_dues->0,
                group_insurance: group_insurance->0,
                other_deduction: other_deduction->0,
                taxable_income: taxable->0,
                cpp: p.deductions.cpp,
                cpp2: p.deductions.cpp2,
                ei: p.deductions.ei,
                federal_tax: p.deductions.federal_tax,
                provincial_tax: p.deductions.provincial_tax,
                net_pay: p.net_pay,
            },
        )
    } else {
        None
    }
}

/// A pay of ordinary amounts: gross and net pay and the statutory
/// deductions are ordinary amounts, and so are its at most 100 additional
/// deductions.
pub open spec fn ordinary_pay(p: Payroll) -> bool {
    &&& ordinary_amount(p.gross_pay)
    &&& ordinary_amount(p.net_pay)
    &&& ordinary_amount(p.deductions.cpp)
    &&& ordinary_amount(p.deductions.cpp2)
    &&& ordinary_amount(p.deductions.ei)
    &&& ordinary_amount(p.deductions.federal_tax)
    &&& ordinary_amount(p.deductions.provincial_tax)
    &&& ordinary_deductions(p.deductions.additional@)
    &&& p.deductions.additional@.len() <= 100
}

/// Every column of a remittance line is within `v` units, with at most two
/// decimals.
pub open spec fn remittance_within(a: RemittanceAmounts, v: int) -> bool {
    &&& amount_within2(a.gross_earning, v)
    &&& amount_within2(a.pension, v)
    &&& amount_within2(a.union_dues, v)
    &&& amount_within2(a.group_insurance, v)
    &&& amount_within2(a.other_deduction, v)
    &&& amount_within2(a.taxable_income, v)
    &&& amount_within2(a.cpp, v)
    &&& amount_within2(a.cpp2, v)
    &&& amount_within2(a.ei, v)
    &&& amount_within2(a.federal_tax, v)
    &&& amount_within2(a.provincial_tax, v)
    &&& amount_within2(a.net_pay, v)
}

/// A pay's line in the remittance register (see `remittance_amounts`).
/// The line of a pay of ordinary amounts is computed, each column within
/// 101 × 10^13.
pub fn remittance_amounts_of(p: &Payroll) -> (r: Option<RemittanceAmounts>)
    requires
        p.wf(),
    ensures
        r == remittance_amounts(*p),
        r matches Some(a) ==> a.wf(),
        ordinary_pay(*p) ==> (r matches Some(a) && remittance_within(a, 1010000000000000000000000000000000000000000000int)),
{
    proof {
        if ordinary_pay(*p) {
            lemma_ordinary_within(p.gross_pay);
            lemma_ordinary_within(p.net_pay);
            lemma_ordinary_within(p.deductions.cpp);
            lemma_ordinary_within(p.deductions.cpp2);
            lemma_ordinary_within(p.deductions.ei);
            lemma_ordinary_within(p.deductions.federal_tax);
            lemma_ordinary_within(p.deductions.provincial_tax);
        }
    }
    let ds = &p.deductions.additional;
    let pension = deduction_column_total(ds, DeductionColumn::Pension, false)?;
    let union_dues = deduction_column_total(ds, DeductionColumn::Union, false)?;
    let group_insurance = deduction_column_total(ds, DeductionColumn::GroupInsurance, false)?;
    let other_deduction = deduction_column_total(ds, DeductionColumn::Other, false)?;
    let taxable_income = sub_within(
        p.gross_pay,
        pension,
        Ghost(10000000000000000000000000000000000000000000int),
        Ghost(100 * 10000000000000000000000000000000000000000000int),
    )?;
    Some(
        RemittanceAmounts {
            gross_earning: p.gross_pay,
            pension,
            union_dues,
            group_insurance,
            other_deduction,
            taxable_income,
            cpp: p.deductions.cpp,
            cpp2: p.deductions.cpp2,
            ei: p.deductions.ei,
            federal_tax: p.deductions.federal_tax,
            provincial_tax: p.deductions.provincial_tax,
            net_pay: p.net_pay,
        },
    )
}

// ---------------------------------------------------------------------
// Rows
// ---------------------------------------------------------------------

/// The first employee with id `id`.
pub open spec fn first_with_id(es: Seq<Employee>, id: i64) -> Option<int>
    decreases es.len(),
{
    if es.len() == 0 {
        None
    } else if es[0].id == Some(id) {
        Some(0)
    } else {
        match first_with_id(es.drop_first(), id) {
            Some(k) => Some(k + 1),
            None => None,
        }
    }
}

proof fn lemma_first_with_id(es: Seq<Employee>, id: i64)
    ensures
        first_with_id(es, id) matches Some(k) ==> 0 <= k < es.len() && es[k].id == Some(id) && (
        forall|j: int| 0 <= j < k ==> (#[trigger] es[j]).id != Some(id)),
        first_with_id(es, id) is None ==> forall|j: int| 0 <= j < es.len() ==> (#[trigger] es[j]).id
            != Some(id),
    decreases es.len(),
{
    if es.len() > 0 && es[0].id != Some(id) {
        lemma_first_with_id(es.drop_first(), id);
        let t = es.drop_first();
        assert forall|j: int| 1 <= j < es.len() implies es[j] == t[j - 1] by {}
    }
}

/// The position of the first employee with id `id`.
pub fn find_employee(employees: &Vec<Employee>, id: i64) -> (r: Option<usize>)
    ensures
        match first_with_id(employees@, id) {
            None => r is None,
            Some(k) => r matches Some(j) && j as int == k,
        },
{
    let n = employees.len();
    let mut i: usize = 0;
    while i < n
        invariant
            n == employees@.len(),
            i <= n,
            forall|j: int| 0 <= j < i ==> (#[trigger] employees@[j]).id != Some(id),
        decreases n - i,
    {
        let found = match employees[i].id {
            Some(x) => x == id,
            None => false,
        };
        if found {
            proof {
                lemma_first_with_id(employees@, id);
                match first_with_id(employees@, id) {
                    Some(k) => {
                        if k < i {
                            assert(employees@[k].id != Some(id));
                        } else if k > i {
                            assert(employees@[i as int].id != Some(id));
                        }
                    },
                    None => {
                        assert(employees@[i as int].id != Some(id));
                    },
                }
            }
            return Some(i);
        }
        i = i + 1;
    }
    proof {
        lemma_first_with_id(employees@, id);
        if let Some(k) = first_with_id(employees@, id) {
            assert(employees@[k].id != Some(id));
        }
    }
    None
}

/// A row of a register: the employee's number and name (`Last, First`)
/// and what the register shows of the pay.
#[derive(Debug, Clone)]
pub struct EmployeeRow<D> {
    pub emp_num: String,
    pub name: String,
    pub data: D,
}

/// `Last, First`.
pub open spec fn name_text(e: Employee) -> Seq<char> {
    e.last_name@ + ", "@ + e.first_name@
}

pub open spec fn row_of_employee<D>(r: EmployeeRow<D>, e: Employee, d: D) -> bool {
    &&& r.emp_num@ == e.employee_number@
    &&& r.name@ == name_text(e)
    &&& r.data == d
}

fn employee_row<D>(e: &Employee, data: D) -> (r: EmployeeRow<D>)
    ensures
        row_of_employee(r, *e, data),
{
    let mut name = to_owned_string(e.last_name.as_str());
    push_str(&mut name, ", ");
    push_str(&mut name, e.first_name.as_str());
    EmployeeRow { emp_num: to_owned_string(e.employee_number.as_str()), name, data }
}

// ---------------------------------------------------------------------
// Employee-number order
// ---------------------------------------------------------------------

/// An employee number read as a whole number; zero when it is not one.
pub open spec fn number_key(emp_num: Seq<char>) -> i32 {
    match parsed_i32(emp_num) {
        Some(n) => n,
        None => 0,
    }
}

pub open spec fn row_key<D>(r: EmployeeRow<D>) -> i32 {
    number_key(r.emp_num@)
}

pub open spec fn key_is<D>(k: i32) -> spec_fn(EmployeeRow<D>) -> bool {
    |r: EmployeeRow<D>| row_key(r) == k
}

/// Rows in ascending order of their employee numbers.
pub open spec fn sorted_by_number<D>(s: Seq<EmployeeRow<D>>) -> bool {
    forall|i: int, j: int| 0 <= i < j < s.len() ==> row_key(#[trigger] s[i]) <= row_key(#[trigger] s[j])
}

/// For every employee number, the rows with that number come in the same
/// order in both sequences (a stable reordering, when the lengths agree).
pub open spec fn same_order_per_number<D>(a: Seq<EmployeeRow<D>>, b: Seq<EmployeeRow<D>>) -> bool {
    forall|k: i32| #[trigger] a.filter(key_is::<D>(k)) == b.filter(key_is::<D>(k))
}

/// The filter of `a + [x] + b` where every row of `b` has a larger number
/// than `x`.
proof fn lemma_insert_filter<D>(a: Seq<EmployeeRow<D>>, x: EmployeeRow<D>, b: Seq<EmployeeRow<D>>, k: i32)
    requires
        forall|t: int| 0 <= t < b.len() ==> row_key(#[trigger] b[t]) > row_key(x),
    ensures
        (a.push(x) + b).filter(key_is::<D>(k)) == if k == row_key(x) {
            (a + b).filter(key_is::<D>(k)).push(x)
        } else {
            (a + b).filter(key_is::<D>(k))
        },
{
    let f = key_is::<D>(k);
    Seq::filter_distributes_over_add(a.push(x), b, f);
    Seq::filter_distributes_over_add(a, b, f);
    a.lemma_filter_push(x, f);
    if k == row_key(x) {
        assert(b.all(|y: EmployeeRow<D>| !f(y))) by {
            assert forall|t: int| 0 <= t < b.len() implies !f(b[t]) by {}
        }
        b.lemma_all_neg_filter_empty(f);
        assert(b.filter(f) =~= Seq::<EmployeeRow<D>>::empty());
        assert(a.filter(f).push(x) + b.filter(f) =~= a.filter(f).push(x));
        assert(a.filter(f) + b.filter(f) =~= a.filter(f));
    } else {
        assert(a.filter(f) + b.filter(f) =~= a.filter(f) + b.filter(f));
    }
}

/// The position before the first row whose number exceeds `k`.
fn insert_position(keys: &Vec<i32>, k: i32) -> (p: usize)
    requires
        forall|i: int, j: int| 0 <= i < j < keys@.len() ==> keys@[i] <= keys@[j],
    ensures
        p <= keys@.len(),
        forall|t: int| 0 <= t < p ==> keys@[t] <= k,
        forall|t: int| p <= t < keys@.len() ==> keys@[t] > k,
{
    let n = keys.len();
    let mut p: usize = 0;
    while p < n && keys[p] <= k
        invariant
            n == keys@.len(),
            p <= n,
            forall|t: int| 0 <= t < p ==> keys@[t] <= k,
        decreases n - p,
    {
        p = p + 1;
    }
    proof {
        if p < n {
            assert forall|t: int| p <= t < n implies keys@[t] > k by {
                if t > p {
                    assert(keys@[p as int] <= keys@[t]);
                }
            }
        }
    }
    p
}

/// The rows in ascending order of employee number (a number that is not
/// a whole number counts as zero); rows with the same number keep their
/// order.
pub fn sort_by_employee_number<D>(rows: Vec<EmployeeRow<D>>) -> (r: Vec<EmployeeRow<D>>)
    ensures
        r@.len() == rows@.len(),
        sorted_by_number(r@),
        same_order_per_number(r@, rows@),
{
    let ghost orig = rows@;
    let n = rows.len();
    let mut input = rows;
    let mut out: Vec<EmployeeRow<D>> = Vec::new();
    let mut keys: Vec<i32> = Vec::new();
    let mut i: usize = 0;
    proof {
        assert(orig.subrange(0, n as int) =~= orig);
        assert(orig.subrange(0, 0) =~= Seq::<EmployeeRow<D>>::empty());
        assert(out@ =~= orig.subrange(0, 0));
    }
    while i < n
        invariant
            n == orig.len(),
            i <= n,
            input@ == orig.subrange(i as int, n as int),
            out@.len() == i,
            keys@.len() == i,
            forall|t: int| 0 <= t < i ==> keys@[t] == row_key(#[trigger] out@[t]),
            sorted_by_number(out@),
            same_order_per_number(out@, orig.subrange(0, i as int)),
        decreases n - i,
    {
        let x = input.remove(0);
        proof {
            assert(x == orig[i as int]);
            assert(input@ =~= orig.subrange(i + 1, n as int));
        }
        let kx = match parse_i32(x.emp_num.as_str()) {
            Some(v) => v,
            None => 0,
        };
        proof {
            assert forall|a: int, b: int| 0 <= a < b < keys@.len() implies keys@[a] <= keys@[b] by {
                assert(row_key(out@[a]) <= row_key(out@[b]));
            }
        }
        let p = insert_position(&keys, kx);
        let ghost old_out = out@;
        let ghost old_keys = keys@;
        out.insert(p, x);
        keys.insert(p, kx);
        proof {
            let a = old_out.subrange(0, p as int);
            let b = old_out.subrange(p as int, i as int);
            assert(old_out =~= a + b);
            assert(out@ =~= a.push(x) + b);
            assert forall|t: int| 0 <= t < b.len() implies row_key(#[trigger] b[t]) > row_key(x) by {
                assert(old_keys[p + t] == row_key(old_out[p + t]));
            }
            let done = orig.subrange(0, i as int);
            assert(orig.subrange(0, i + 1) =~= done.push(x));
            assert forall|k: i32| #[trigger] out@.filter(key_is::<D>(k)) == orig.subrange(0, i + 1).filter(
                key_is::<D>(k),
            ) by {
                lemma_insert_filter(a, x, b, k);
                done.lemma_filter_push(x, key_is::<D>(k));
                assert(old_out.filter(key_is::<D>(k)) == done.filter(key_is::<D>(k)));
            }
            assert forall|t: int| 0 <= t < i + 1 implies keys@[t] == row_key(#[trigger] out@[t]) by {
                if t < p {
                    assert(keys@[t] == old_keys[t]);
                    assert(out@[t] == old_out[t]);
                } else if t > p {
                    assert(keys@[t] == old_keys[t - 1]);
                    assert(out@[t] == old_out[t - 1]);
                }
            }
            assert forall|s: int, t: int| 0 <= s < t < out@.len() implies row_key(#[trigger] out@[s])
                <= row_key(#[trigger] out@[t]) by {
                if t < p {
                    assert(out@[s] == old_out[s] && out@[t] == old_out[t]);
                } else if t == p {
                    assert(out@[s] == old_out[s]);
                    assert(old_keys[s] == row_key(old_out[s]));
                } else if s > p {
                    assert(out@[s] == old_out[s - 1] && out@[t] == old_out[t - 1]);
                } else if s == p {
                    assert(out@[t] == old_out[t - 1]);
                    assert(old_keys[t - 1] == row_key(old_out[t - 1]));
                } else {
                    assert(out@[s] == old_out[s] && out@[t] == old_out[t - 1]);
                    assert(old_keys[s] == row_key(old_out[s]));
                    assert(old_keys[t - 1] == row_key(old_out[t - 1]));
                }
            }
        }
        i = i + 1;
    }
    out
}

// ---------------------------------------------------------------------
// Totals
// ---------------------------------------------------------------------

/// Two lines added field by field; `None` where a field overflows.
pub open spec fn add_register(a: RegisterAmounts, b: RegisterAmounts) -> Option<RegisterAmounts> {
    let regular_hours = dec_checked_add(a.regular_hours, b.regular_hours);
    let overtime_hours = dec_checked_add(a.overtime_hours, b.overtime_hours);
    let base_earning = dec_checked_add(a.base_earning, b.base_earning);
    let allowance = dec_checked_add(a.allowance, b.allowance);
    let benefit = dec_checked_add(a.benefit, b.benefit);
    let bonus = dec_checked_add(a.bonus, b.bonus);
    let commission = dec_checked_add(a.commission, b.commission);
    let vacation = dec_checked_add(a.vacation, b.vacation);
    let other_earning = dec_checked_add(a.other_earning, b.other_earning);
    let gross_earning = dec_checked_add(a.gross_earning, b.gross_earning);
    let pension = dec_checked_add(a.pension, b.pension);
    let taxable_income = dec_checked_add(a.taxable_income, b.taxable_income);
    let union_dues = dec_checked_add(a.union_dues, b.union_dues);
    let group_insurance = dec_checked_add(a.group_insurance, b.group_insurance);
    let other_deduction = dec_checked_add(a.other_deduction, b.other_deduction);
    let cpp = dec_checked_add(a.cpp, b.cpp);
    let cpp2 = dec_checked_add(a.cpp2, b.cpp2);
    let ei = dec_checked_add(a.ei, b.ei);
    let federal_tax = dec_checked_add(a.federal_tax, b.federal_tax);
    let provincial_tax = dec_checked_add(a.provincial_tax, b.provincial_tax);
    let net_pay_adjust = dec_checked_add(a.net_pay_adjust, b.net_pay_adjust);
    let net_pay = dec_checked_add(a.net_pay, b.net_pay);
    if regular_hours is Some && overtime_hours is Some && base_earning is Some && allowance is Some && benefit is Some && bonus is Some && commission is Some && vacation is Some && other_earning is Some && gross_earning is Some && pension is Some && taxable_income is Some && union_dues is Some && group_insurance is Some && other_deduction is Some && cpp is Some && cpp2 is Some && ei is Some && federal_tax is Some && provincial_tax is Some && net_pay_adjust is Some && net_pay is Some {
        Some(RegisterAmounts {
            regular_hours: regular_hours->0,
            overtime_hours: overtime_hours->0,
            base_earning: base_earning->0,
            allowance: allowance->0,
            benefit: benefit->0,
            bonus: bonus->0,
            commission: commission->0,
            vacation: vacation->0,
            other_earning: other_earning->0,
            gross_earning: gross_earning->0,
            pension: pension->0,
            taxable_income: taxable_income->0,
            union_dues: union_dues->0,
            group_insurance: group_insurance->0,
            other_deduction: other_deduction->0,
            cpp: cpp->0,
            cpp2: cpp2->0,
            ei: ei->0,
            federal_tax: federal_tax->0,
            provincial_tax: provincial_tax->0,
            net_pay_adjust: net_pay_adjust->0,
            net_pay: net_pay->0,
        })
    } else {
        None
    }
}

pub open spec fn zero_register() -> RegisterAmounts {
    RegisterAmounts {
        regular_hours: zero_dec(),
        overtime_hours: zero_dec(),
        base_earning: zero_dec(),
        allowance: zero_dec(),
        benefit: zero_dec(),
        bonus: zero_dec(),
        commission: zero_dec(),
        vacation: zero_dec(),
        other_earning: zero_dec(),
        gross_earning: zero_dec(),
        pension: zero_dec(),
        taxable_income: zero_dec(),
        union_dues: zero_dec(),
        group_insurance: zero_dec(),
        other_deduction: zero_dec(),
        cpp: zero_dec(),
        cpp2: zero_dec(),
        ei: zero_dec(),
        federal_tax: zero_dec(),
        provincial_tax: zero_dec(),
        net_pay_adjust: zero_dec(),
        net_pay: zero_dec(),
    }
}

fn add_register_of(
    a: &RegisterAmounts,
    b: &RegisterAmounts,
    Ghost(va): Ghost<int>,
    Ghost(vb): Ghost<int>,
) -> (r: Option<RegisterAmounts>)
    requires
        a.wf(),
        b.wf(),
    ensures
        r == add_register(*a, *b),
        r matches Some(t) ==> t.wf(),
        (register_within(*a, va) && register_within(*b, vb) && va + vb <= 100000000000000000000000000000000000000000000000000000int) ==> (
        r matches Some(t) && register_within(t, va + vb)),
{
    let regular_hours = add_within(a.regular_hours, b.regular_hours, Ghost(va), Ghost(vb))?;
    let overtime_hours = add_within(a.overtime_hours, b.overtime_hours, Ghost(va), Ghost(vb))?;
    let base_earning = add_within(a.base_earning, b.base_earning, Ghost(va), Ghost(vb))?;
    let allowance = add_within(a.allowance, b.allowance, Ghost(va), Ghost(vb))?;
    let benefit = add_within(a.benefit, b.benefit, Ghost(va), Ghost(vb))?;
    let bonus = add_within(a.bonus, b.bonus, Ghost(va), Ghost(vb))?;
    let commission = add_within(a.commission, b.commission, Ghost(va), Ghost(vb))?;
    let vacation = add_within(a.vacation, b.vacation, Ghost(va), Ghost(vb))?;
    let other_earning = add_within(a.other_earning, b.other_earning, Ghost(va), Ghost(vb))?;
    let gross_earning = add_within(a.gross_earning, b.gross_earning, Ghost(va), Ghost(vb))?;
    let pension = add_within(a.pension, b.pension, Ghost(va), Ghost(vb))?;
    let taxable_income = add_within(a.taxable_income, b.taxable_income, Ghost(va), Ghost(vb))?;
    let union_dues = add_within(a.union_dues, b.union_dues, Ghost(va), Ghost(vb))?;
    let group_insurance = add_within(a.group_insurance, b.group_insurance, Ghost(va), Ghost(vb))?;
    let other_deduction = add_within(a.other_deduction, b.other_deduction, Ghost(va), Ghost(vb))?;
    let cpp = add_within(a.cpp, b.cpp, Ghost(va), Ghost(vb))?;
    let cpp2 = add_within(a.cpp2, b.cpp2, Ghost(va), Ghost(vb))?;
    let ei = add_within(a.ei, b.ei, Ghost(va), Ghost(vb))?;
    let federal_tax = add_within(a.federal_tax, b.federal_tax, Ghost(va), Ghost(vb))?;
    let provincial_tax = add_within(a.provincial_tax, b.provincial_tax, Ghost(va), Ghost(vb))?;
    let net_pay_adjust = add_within(a.net_pay_adjust, b.net_pay_adjust, Ghost(va), Ghost(vb))?;
    let net_pay = add_within(a.net_pay, b.net_pay, Ghost(va), Ghost(vb))?;
    Some(RegisterAmounts {
        regular_hours,
        overtime_hours,
        base_earning,
        allowance,
        benefit,
        bonus,
        commission,
        vacation,
        other_earning,
        gross_earning,
        pension,
        taxable_income,
        union_dues,
        group_insurance,
        other_deduction,
        cpp,
        cpp2,
        ei,
        federal_tax,
        provincial_tax,
        net_pay_adjust,
        net_pay,
    })
}

fn zero_register_of() -> (r: RegisterAmounts)
    ensures
        r == zero_register(),
        r.wf(),
{
    let z = Dec::zero();
    RegisterAmounts {
        regular_hours: z,
        overtime_hours: z,
        base_earning: z,
        allowance: z,
        benefit: z,
        bonus: z,
        commission: z,
        vacation: z,
        other_earning: z,
        gross_earning: z,
        pension: z,
        taxable_income: z,
        union_dues: z,
        group_insurance: z,
        other_deduction: z,
        cpp: z,
        cpp2: z,
        ei: z,
        federal_tax: z,
        provincial_tax: z,
        net_pay_adjust: z,
        net_pay: z,
    }
}

/// Two lines added field by field; `None` where a field overflows.
pub open spec fn add_remittance(a: RemittanceAmounts, b: RemittanceAmounts) -> Option<RemittanceAmounts> {
    let gross_earning = dec_checked_add(a.gross_earning, b.gross_earning);
    let pension = dec_checked_add(a.pension, b.pension);
    let union_dues = dec_checked_add(a.union_dues, b.union_dues);
    let group_insurance = dec_checked_add(a.group_insurance, b.group_insurance);
    let other_deduction = dec_checked_add(a.other_deduction, b.other_deduction);
    let taxable_income = dec_checked_add(a.taxable_income, b.taxable_income);
    let cpp = dec_checked_add(a.cpp, b.cpp);
    let cpp2 = dec_checked_add(a.cpp2, b.cpp2);
    let ei = dec_checked_add(a.ei, b.ei);
    let federal_tax = dec_checked_add(a.federal_tax, b.federal_tax);
    let provincial_tax = dec_checked_add(a.provincial_tax, b.provincial_tax);
    let net_pay = dec_checked_add(a.net_pay, b.net_pay);
    if gross_earning is Some && pension is Some && union_dues is Some && group_insurance is Some && other_deduction is Some && taxable_income is Some && cpp is Some && cpp2 is Some && ei is Some && federal_tax is Some && provincial_tax is Some && net_pay is Some {
        Some(RemittanceAmounts {
            gross_earning: gross_earning->0,
            pension: pension->0,
            union_dues: union_dues->0,
            group_insurance: group_insurance->0,
            other_deduction: other_deduction->0,
            taxable_income: taxable_income->0,
            cpp: cpp->0,
            cpp2: cpp2->0,
            ei: ei->0,
            federal_tax: federal_tax->0,
            provincial_tax: provincial_tax->0,
            net_pay: net_pay->0,
        })
    } else {
        None
    }
}

pub open spec fn zero_remittance() -> RemittanceAmounts {
    RemittanceAmounts {
        gross_earning: zero_dec(),
        pension: zero_dec(),
        union_dues: zero_dec(),
        group_insurance: zero_dec(),
        other_deduction: zero_dec(),
        taxable_income: zero_dec(),
        cpp: zero_dec(),
        cpp2: zero_dec(),
        ei: zero_dec(),
        federal_tax: zero_dec(),
        provincial_tax: zero_dec(),
        net_pay: zero_dec(),
    }
}

fn add_remittance_of(
    a: &RemittanceAmounts,
    b: &RemittanceAmounts,
    Ghost(va): Ghost<int>,
    Ghost(vb): Ghost<int>,
) -> (r: Option<RemittanceAmounts>)
    requires
        a.wf(),
        b.wf(),
    ensures
        r == add_remittance(*a, *b),
        r matches Some(t) ==> t.wf(),
        (remittance_within(*a, va) && remittance_within(*b, vb) && va + vb <= 100000000000000000000000000000000000000000000000000000int) ==> (
        r matches Some(t) && remittance_within(t, va + vb)),
{
    let gross_earning = add_within(a.gross_earning, b.gross_earning, Ghost(va), Ghost(vb))?;
    let pension = add_within(a.pension, b.pension, Ghost(va), Ghost(vb))?;
    let union_dues = add_within(a.union_dues, b.union_dues, Ghost(va), Ghost(vb))?;
    let group_insurance = add_within(a.group_insurance, b.group_insurance, Ghost(va), Ghost(vb))?;
    let other_deduction = add_within(a.other_deduction, b.other_deduction, Ghost(va), Ghost(vb))?;
    let taxable_income = add_within(a.taxable_income, b.taxable_income, Ghost(va), Ghost(vb))?;
    let cpp = add_within(a.cpp, b.cpp, Ghost(va), Ghost(vb))?;
    let cpp2 = add_within(a.cpp2, b.cpp2, Ghost(va), Ghost(vb))?;
    let ei = add_within(a.ei, b.ei, Ghost(va), Ghost(vb))?;
    let federal_tax = add_within(a.federal_tax, b.federal_tax, Ghost(va), Ghost(vb))?;
    let provincial_tax = add_within(a.provincial_tax, b.provincial_tax, Ghost(va), Ghost(vb))?;
    let net_pay = add_within(a.net_pay, b.net_pay, Ghost(va), Ghost(vb))?;
    Some(RemittanceAmounts {
        gross_earning,
        pension,
        union_dues,
        group_insurance,
        other_deduction,
        taxable_income,
        cpp,
        cpp2,
        ei,
        federal_tax,
        provincial_tax,
        net_pay,
    })
}

fn zero_remittance_of() -> (r: RemittanceAmounts)
    ensures
        r == zero_remittance(),
        r.wf(),
{
    let z = Dec::zero();
    RemittanceAmounts {
        gross_earning: z,
        pension: z,
        union_dues: z,
        group_insurance: z,
        other_deduction: z,
        taxable_income: z,
        cpp: z,
        cpp2: z,
        ei: z,
        federal_tax: z,
        provincial_tax: z,
        net_pay: z,
    }
}

/// The lines added up field by field, in order, from zero; `None` as soon
/// as a field overflows.
pub open spec fn register_sum(xs: Seq<RegisterAmounts>) -> Option<RegisterAmounts>
    decreases xs.len(),
{
    if xs.len() == 0 {
        Some(zero_register())
    } else {
        match register_sum(xs.drop_last()) {
            Some(t) => add_register(t, xs.last()),
            None => None,
        }
    }
}

pub open spec fn remittance_sum(xs: Seq<RemittanceAmounts>) -> Option<RemittanceAmounts>
    decreases xs.len(),
{
    if xs.len() == 0 {
        Some(zero_remittance())
    } else {
        match remittance_sum(xs.drop_last()) {
            Some(t) => add_remittance(t, xs.last()),
            None => None,
        }
    }
}

proof fn lemma_register_sum_none_extends(xs: Seq<RegisterAmounts>, k: int)
    requires
        0 <= k <= xs.len(),
        register_sum(xs.subrange(0, k)) is None,
    ensures
        register_sum(xs) is None,
    decreases xs.len(),
{
    if k == xs.len() {
        assert(xs.subrange(0, k) =~= xs);
    } else {
        let t = xs.drop_last();
        assert(t.subrange(0, k) =~= xs.subrange(0, k));
        lemma_register_sum_none_extends(t, k);
    }
}

proof fn lemma_remittance_sum_none_extends(xs: Seq<RemittanceAmounts>, k: int)
    requires
        0 <= k <= xs.len(),
        remittance_sum(xs.subrange(0, k)) is None,
    ensures
        remittance_sum(xs) is None,
    decreases xs.len(),
{
    if k == xs.len() {
        assert(xs.subrange(0, k) =~= xs);
    } else {
        let t = xs.drop_last();
        assert(t.subrange(0, k) =~= xs.subrange(0, k));
        lemma_remittance_sum_none_extends(t, k);
    }
}

/// What the employer adds and what is payable to the government.
#[derive(Debug, Clone, Copy, PartialEq, Eq, Structural)]
pub struct GovernmentShare {
    /// The employer's EI: 1.4 times the employees'.
    pub employer_ei: Dec,
    /// Employee and employer CPP: twice the employees'.
    pub payable_cpp: Dec,
    pub payable_cpp2: Dec,
    /// Employee and employer EI.
    pub payable_ei: Dec,
    pub payable_tax: Dec,
    /// `payable_cpp + payable_cpp2 + payable_ei + payable_tax`.
    pub payable_total: Dec,
}

pub open spec fn government_share(cpp: Dec, cpp2: Dec, ei: Dec, tax: Dec) -> Option<GovernmentShare> {
    let employer_ei = dec_checked_mul(ei, lit(14, 1));
    let payable_cpp = dec_checked_mul(cpp, lit(2, 0));
    let payable_cpp2 = dec_checked_mul(cpp2, lit(2, 0));
    let payable_ei = if employer_ei is Some {
        dec_checked_add(ei, employer_ei->0)
    } else {
        None
    };
    let total = oadd(oadd(oadd(payable_cpp, payable_cpp2), payable_ei), Some(tax));
    if employer_ei is Some && payable_cpp is Some && payable_cpp2 is Some && payable_ei is Some
        && total is Some {
        Some(
            GovernmentShare {
                employer_ei: employer_ei->0,
                payable_cpp: payable_cpp->0,
                payable_cpp2: payable_cpp2->0,
                payable_ei: payable_ei->0,
                payable_tax: tax,
                payable_total: total->0,
            },
        )
    } else {
        None
    }
}

/// The employer's share and the amounts payable to the government, from
/// the employees' CPP, CPP2, EI and income tax.
pub fn government_share_of(cpp: Dec, cpp2: Dec, ei: Dec, tax: Dec) -> (r: Option<GovernmentShare>)
    requires
        cpp.wf(),
        cpp2.wf(),
        ei.wf(),
        tax.wf(),
    ensures
        r == government_share(cpp, cpp2, ei, tax),
        (ordinary_amount(cpp) && ordinary_amount(cpp2) && ordinary_amount(ei) && ordinary_amount(
            tax,
        )) ==> r is Some,
        (amount_within2(cpp, 1000000000000000000000000000000000000000000000000000int) && amount_within2(cpp2, 1000000000000000000000000000000000000000000000000000int)
            && amount_within2(ei, 1000000000000000000000000000000000000000000000000000int) && amount_within2(tax, 1000000000000000000000000000000000000000000000000000int)) ==> r is Some,
{
    let ghost v: int = 1000000000000000000000000000000000000000000000000000int;
    proof {
        if ordinary_amount(cpp) && ordinary_amount(cpp2) && ordinary_amount(ei) && ordinary_amount(
            tax,
        ) {
            lemma_ordinary_within(cpp);
            lemma_ordinary_within(cpp2);
            lemma_ordinary_within(ei);
            lemma_ordinary_within(tax);
        }
    }
    let employer_ei = mul_within(ei, Dec::new(14, 1), Ghost(v))?;
    let payable_cpp = mul_within(cpp, Dec::new(2, 0), Ghost(v))?;
    let payable_cpp2 = mul_within(cpp2, Dec::new(2, 0), Ghost(v))?;
    let payable_ei = add_within(ei, employer_ei, Ghost(v), Ghost(14 * v))?;
    let t1 = add_within(payable_cpp, payable_cpp2, Ghost(2 * v), Ghost(2 * v))?;
    let t2 = add_within(t1, payable_ei, Ghost(4 * v), Ghost(15 * v))?;
    let payable_total = add_within(t2, tax, Ghost(19 * v), Ghost(v))?;
    Some(
        GovernmentShare {
            employer_ei,
            payable_cpp,
            payable_cpp2,
            payable_ei,
            payable_tax: tax,
            payable_total,
        },
    )
}

// ---------------------------------------------------------------------
// The payroll register
// ---------------------------------------------------------------------

/// The register rows of the pays, in the pays' order: one for each pay
/// whose employee is known (the first with its id), the others skipped.
pub open spec fn register_rows_ok(rows: Seq<EmployeeRow<RegisterAmounts>>, ps: Seq<Payroll>, es: Seq<Employee>) -> bool
    decreases ps.len(),
{
    if ps.len() == 0 {
        rows.len() == 0
    } else {
        let p = ps.last();
        match first_with_id(es, p.employee_id) {
            None => register_rows_ok(rows, ps.drop_last(), es),
            Some(k) => rows.len() > 0 && register_amounts(p) is Some && row_of_employee(
                rows.last(),
                es[k],
                register_amounts(p)->0,
            ) && register_rows_ok(rows.drop_last(), ps.drop_last(), es),
        }
    }
}

/// The register lines of the pays whose employee is known, in order;
/// `None` where one overflows.
pub open spec fn register_lines(ps: Seq<Payroll>, es: Seq<Employee>) -> Option<Seq<RegisterAmounts>>
    decreases ps.len(),
{
    if ps.len() == 0 {
        Some(Seq::empty())
    } else {
        let prev = register_lines(ps.drop_last(), es);
        let p = ps.last();
        if first_with_id(es, p.employee_id) is None {
            prev
        } else if prev is Some && register_amounts(p) is Some {
            Some(prev->0.push(register_amounts(p)->0))
        } else {
            None
        }
    }
}

pub open spec fn register_data(rows: Seq<EmployeeRow<RegisterAmounts>>) -> Seq<RegisterAmounts> {
    rows.map_values(|r: EmployeeRow<RegisterAmounts>| r.data)
}

proof fn lemma_register_rows_lines(rows: Seq<EmployeeRow<RegisterAmounts>>, ps: Seq<Payroll>, es: Seq<Employee>)
    requires
        register_rows_ok(rows, ps, es),
    ensures
        register_lines(ps, es) == Some(register_data(rows)),
    decreases ps.len(),
{
    if ps.len() > 0 {
        let p = ps.last();
        match first_with_id(es, p.employee_id) {
            None => lemma_register_rows_lines(rows, ps.drop_last(), es),
            Some(k) => {
                lemma_register_rows_lines(rows.drop_last(), ps.drop_last(), es);
                assert(register_data(rows) =~= register_data(rows.drop_last()).push(rows.last().data));
            },
        }
    } else {
        assert(register_data(rows) =~= Seq::<RegisterAmounts>::empty());
    }
}

proof fn lemma_register_lines_none_extends(ps: Seq<Payroll>, es: Seq<Employee>, k: int)
    requires
        0 <= k <= ps.len(),
        register_lines(ps.subrange(0, k), es) is None,
    ensures
        register_lines(ps, es) is None,
    decreases ps.len(),
{
    if k == ps.len() {
        assert(ps.subrange(0, k) =~= ps);
    } else {
        let t = ps.drop_last();
        assert(t.subrange(0, k) =~= ps.subrange(0, k));
        lemma_register_lines_none_extends(t, es, k);
    }
}

pub open spec fn payrolls_wf(ps: Seq<Payroll>) -> bool {
    forall|i: int| 0 <= i < ps.len() ==> (#[trigger] ps[i]).wf()
}

/// The payroll register's rows, in the pays' order (see
/// `register_rows_ok`); `None` where a line overflows.
pub fn register_rows(payrolls: &Vec<Payroll>, employees: &Vec<Employee>) -> (r: Option<
    Vec<EmployeeRow<RegisterAmounts>>,
>)
    requires
        payrolls_wf(payrolls@),
    ensures
        register_lines(payrolls@, employees@) is None ==> r is None,
        register_lines(payrolls@, employees@) is Some ==> (r matches Some(rows) && register_rows_ok(
            rows@,
            payrolls@,
            employees@,
        ) && forall|i: int| 0 <= i < rows@.len() ==> (#[trigger] rows@[i]).data.wf()),
        r matches Some(rows) ==> rows@.len() <= payrolls@.len(),
        ordinary_register_pays(payrolls@) ==> (r matches Some(rows) && forall|i: int|
            0 <= i < rows@.len() ==> register_within(#[trigger] rows@[i].data, 1100000000000000000000000000000000000000000000int)),
{
    let ghost ok = ordinary_register_pays(payrolls@);
    let n = payrolls.len();
    let mut rows: Vec<EmployeeRow<RegisterAmounts>> = Vec::new();
    let mut i: usize = 0;
    proof {
        assert(payrolls@.subrange(0, 0) =~= Seq::<Payroll>::empty());
    }
    while i < n
        invariant
            n == payrolls@.len(),
            i <= n,
            payrolls_wf(payrolls@),
            register_rows_ok(rows@, payrolls@.subrange(0, i as int), employees@),
            forall|t: int| 0 <= t < rows@.len() ==> (#[trigger] rows@[t]).data.wf(),
            rows@.len() <= i,
            ok == ordinary_register_pays(payrolls@),
            ok ==> forall|t: int|
                0 <= t < rows@.len() ==> register_within(#[trigger] rows@[t].data, 1100000000000000000000000000000000000000000000int),
        decreases n - i,
    {
        proof {
            if ok {
                assert(ordinary_register_pay(payrolls@[i as int]));
            }
        }
        let p = &payrolls[i];
        let ghost pre = payrolls@.subrange(0, i as int);
        let ghost next = payrolls@.subrange(0, i + 1);
        proof {
            assert(next.drop_last() =~= pre);
            assert(next.last() == payrolls@[i as int]);
            assert(payrolls@[i as int].wf());
            lemma_first_with_id(employees@, p.employee_id);
        }
        match find_employee(employees, p.employee_id) {
            None => {
                assert(register_rows_ok(rows@, next, employees@));
            },
            Some(k) => {
                let amounts = match register_amounts_of(p) {
                    Some(a) => a,
                    None => {
                        proof {
                            lemma_register_lines_none_extends(payrolls@, employees@, i + 1);
                        }
                        return None;
                    },
                };
                let row = employee_row(&employees[k], amounts);
                let ghost old_rows = rows@;
                rows.push(row);
                proof {
                    assert(rows@.drop_last() =~= old_rows);
                    assert(rows@.last() == row);
                    assert(first_with_id(employees@, p.employee_id) == Some(k as int));
                    assert(register_rows_ok(rows@, next, employees@));
                }
            },
        }
        i = i + 1;
    }
    proof {
        assert(payrolls@.subrange(0, n as int) =~= payrolls@);
        lemma_register_rows_lines(rows@, payrolls@, employees@);
    }
    Some(rows)
}

/// At most 100,000 pays, each of ordinary amounts for the payroll register.
pub open spec fn ordinary_register_pays(ps: Seq<Payroll>) -> bool {
    &&& ps.len() <= 100000
    &&& forall|i: int| 0 <= i < ps.len() ==> ordinary_register_pay(#[trigger] ps[i])
}

/// At most 100,000 pays, each of ordinary amounts.
pub open spec fn ordinary_pays(ps: Seq<Payroll>) -> bool {
    &&& ps.len() <= 100000
    &&& forall|i: int| 0 <= i < ps.len() ==> ordinary_pay(#[trigger] ps[i])
}

/// The rows' lines added up, in order.
/// Where there are at most 100,000 rows whose columns are each within
/// 110 × 10^13, the sum succeeds, each column within that times the rows.
pub fn register_totals(rows: &Vec<EmployeeRow<RegisterAmounts>>) -> (r: Option<RegisterAmounts>)
    requires
        forall|i: int| 0 <= i < rows@.len() ==> (#[trigger] rows@[i]).data.wf(),
    ensures
        r == register_sum(register_data(rows@)),
        r matches Some(t) ==> t.wf(),
        (rows@.len() <= 100000 && forall|i: int|
            0 <= i < rows@.len() ==> register_within(#[trigger] rows@[i].data, 1100000000000000000000000000000000000000000000int)) ==> (
        r matches Some(t) && register_within(t, rows@.len() * 1100000000000000000000000000000000000000000000int)),
{
    let ghost ok = rows@.len() <= 100000 && forall|i: int|
        0 <= i < rows@.len() ==> register_within(#[trigger] rows@[i].data, 1100000000000000000000000000000000000000000000int);
    let n = rows.len();
    let mut total = zero_register_of();
    let mut i: usize = 0;
    proof {
        assert(register_data(rows@).subrange(0, 0) =~= Seq::<RegisterAmounts>::empty());
    }
    while i < n
        invariant
            n == rows@.len(),
            i <= n,
            forall|t: int| 0 <= t < rows@.len() ==> (#[trigger] rows@[t]).data.wf(),
            total.wf(),
            register_sum(register_data(rows@).subrange(0, i as int)) == Some(total),
            ok == (rows@.len() <= 100000 && forall|i: int|
                0 <= i < rows@.len() ==> register_within(#[trigger] rows@[i].data, 1100000000000000000000000000000000000000000000int)),
            ok ==> register_within(total, i * 1100000000000000000000000000000000000000000000int),
        decreases n - i,
    {
        let ghost xs = register_data(rows@);
        proof {
            assert(xs.subrange(0, i + 1).drop_last() =~= xs.subrange(0, i as int));
            assert(xs.subrange(0, i + 1).last() == rows@[i as int].data);
        }
        total = match add_register_of(&total, &rows[i].data, Ghost(i * 1100000000000000000000000000000000000000000000int), Ghost(1100000000000000000000000000000000000000000000int)) {
            Some(t) => t,
            None => {
                proof {
                    lemma_register_sum_none_extends(xs, i + 1);
                }
                return None;
            },
        };
        i = i + 1;
    }
    proof {
        assert(register_data(rows@).subrange(0, n as int) =~= register_data(rows@));
    }
    Some(total)
}

/// The totals of the payroll register.
#[derive(Debug, Clone, Copy, PartialEq, Eq, Structural)]
pub struct RegisterTotals {
    /// Every column added up.
    pub totals: RegisterAmounts,
    /// Pension, union dues, group insurance and other deductions.
    pub deductions_total: Dec,
    /// Federal and provincial tax.
    pub tax_total: Dec,
    pub government: GovernmentShare,
}

pub open spec fn register_summary(lines: Seq<RegisterAmounts>) -> Option<RegisterTotals> {
    match register_sum(lines) {
        None => None,
        Some(t) => {
            let ded = oadd(
                oadd(oadd(Some(t.pension), Some(t.union_dues)), Some(t.group_insurance)),
                Some(t.other_deduction),
            );
            let tax = dec_checked_add(t.federal_tax, t.provincial_tax);
            if ded is Some && tax is Some && government_share(t.cpp, t.cpp2, t.ei, tax->0) is Some {
                Some(
                    RegisterTotals {
                        totals: t,
                        deductions_total: ded->0,
                        tax_total: tax->0,
                        government: government_share(t.cpp, t.cpp2, t.ei, tax->0)->0,
                    },
                )
            } else {
                None
            }
        },
    }
}

/// The payroll register: its rows in employee-number order and its totals.
#[derive(Debug, Clone)]
pub struct PayrollRegister {
    pub rows: Vec<EmployeeRow<RegisterAmounts>>,
    pub summary: RegisterTotals,
}

/// The payroll register of a run of pays.  A pay whose employee is not
/// among `employees` is left out; the rows are sorted by employee number,
/// keeping the pays' order among equal numbers; the totals add up the
/// rows in the pays' order.  `None` where an amount overflows, which
/// cannot happen for at most 100,000 pays of ordinary amounts
/// (`ordinary_register_pays`).
pub fn payroll_register(payrolls: &Vec<Payroll>, employees: &Vec<Employee>) -> (r: Option<PayrollRegister>)
    requires
        payrolls_wf(payrolls@),
    ensures
        match register_lines(payrolls@, employees@) {
            None => r is None,
            Some(lines) => match register_summary(lines) {
                None => r is None,
                Some(s) => r matches Some(reg) && reg.summary == s && reg.rows@.len() == lines.len()
                    && sorted_by_number(reg.rows@) && exists|u: Seq<EmployeeRow<RegisterAmounts>>|
                    register_rows_ok(u, payrolls@, employees@) && #[trigger] same_order_per_number(
                    reg.rows@,
                    u,
                ),
            },
        },
        ordinary_register_pays(payrolls@) ==> r is Some,
{
    let rows = register_rows(payrolls, employees)?;
    proof {
        lemma_register_rows_lines(rows@, payrolls@, employees@);
    }
    let totals = register_totals(&rows)?;
    let ghost v = rows@.len() * 1100000000000000000000000000000000000000000000int;
    let d1 = add_within(totals.pension, totals.union_dues, Ghost(v), Ghost(v))?;
    let d2 = add_within(d1, totals.group_insurance, Ghost(2 * v), Ghost(v))?;
    let deductions_total = add_within(d2, totals.other_deduction, Ghost(3 * v), Ghost(v))?;
    let tax_total = add_within(totals.federal_tax, totals.provincial_tax, Ghost(v), Ghost(v))?;
    let government = government_share_of(totals.cpp, totals.cpp2, totals.ei, tax_total)?;
    let ghost unsorted = rows@;
    let sorted = sort_by_employee_number(rows);
    proof {
        assert(register_rows_ok(unsorted, payrolls@, employees@)
            && same_order_per_number(sorted@, unsorted));
    }
    Some(
        PayrollRegister {
            rows: sorted,
            summary: RegisterTotals { totals, deductions_total, tax_total, government },
        },
    )
}

// ---------------------------------------------------------------------
// The remittance register
// ---------------------------------------------------------------------

/// A pay as a row of the remittance register shows it.
#[derive(Debug, Clone)]
pub struct RemittanceLine {
    /// `MM/DD-MM/DD`: the first and last day of the pay period.
    pub pay_period: String,
    /// Union dues and group insurance together, as one column shows them.
    pub union_and_insurance: Dec,
    pub amounts: RemittanceAmounts,
}

/// `MM/DD`.
pub open spec fn month_day_text(d: Date) -> Seq<char> {
    two_digits(d.month as int) + "/"@ + two_digits(d.day as int)
}

pub open spec fn pay_period_text(p: Payroll) -> Seq<char> {
    month_day_text(p.pay_period_start) + "-"@ + month_day_text(p.pay_period_end)
}

/// At least two digits (`{:02}`).
fn two_digit_text(n: u32) -> (r: String)
    ensures
        r@ == two_digits(n as int),
{
    let mut out = String::new();
    if n < 10 {
        push_str(&mut out, "0");
    }
    let t = i64_text(n as i64);
    push_str(&mut out, t.as_str());
    proof {
        if n >= 10 {
            assert(out@ =~= int_text(n as int));
        }
    }
    out
}

fn month_day(d: Date) -> (r: String)
    ensures
        r@ == month_day_text(d),
{
    let mut out = two_digit_text(d.month);
    push_str(&mut out, "/");
    let day = two_digit_text(d.day);
    push_str(&mut out, day.as_str());
    out
}

/// A pay's remittance amounts, when its union dues and group insurance
/// can also be added together.
pub open spec fn remittance_line(p: Payroll) -> Option<RemittanceAmounts> {
    match remittance_amounts(p) {
        Some(a) => if dec_checked_add(a.union_dues, a.group_insurance) is Some {
            Some(a)
        } else {
            None
        },
        None => None,
    }
}

pub open spec fn remittance_row_ok(r: EmployeeRow<RemittanceLine>, p: Payroll, e: Employee) -> bool {
    &&& r.emp_num@ == e.employee_number@
    &&& r.name@ == name_text(e)
    &&& r.data.pay_period@ == pay_period_text(p)
    &&& remittance_line(p) == Some(r.data.amounts)
    &&& Some(r.data.union_and_insurance) == dec_checked_add(
        r.data.amounts.union_dues,
        r.data.amounts.group_insurance,
    )
}

/// The remittance register rows of the pays, in the pays' order: one for
/// each pay whose employee is known (the first with its id).
pub open spec fn remittance_rows_ok(rows: Seq<EmployeeRow<RemittanceLine>>, ps: Seq<Payroll>, es: Seq<Employee>) -> bool
    decreases ps.len(),
{
    if ps.len() == 0 {
        rows.len() == 0
    } else {
        let p = ps.last();
        match first_with_id(es, p.employee_id) {
            None => remittance_rows_ok(rows, ps.drop_last(), es),
            Some(k) => rows.len() > 0 && remittance_row_ok(rows.last(), p, es[k])
                && remittance_rows_ok(rows.drop_last(), ps.drop_last(), es),
        }
    }
}

/// The remittance lines of the pays whose employee is known, in order;
/// `None` where one overflows.
pub open spec fn remittance_lines(ps: Seq<Payroll>, es: Seq<Employee>) -> Option<Seq<RemittanceAmounts>>
    decreases ps.len(),
{
    if ps.len() == 0 {
        Some(Seq::empty())
    } else {
        let prev = remittance_lines(ps.drop_last(), es);
        let p = ps.last();
        if first_with_id(es, p.employee_id) is None {
            prev
        } else if prev is Some && remittance_line(p) is Some {
            Some(prev->0.push(remittance_line(p)->0))
        } else {
            None
        }
    }
}

pub open spec fn remittance_data(rows: Seq<EmployeeRow<RemittanceLine>>) -> Seq<RemittanceAmounts> {
    rows.map_values(|r: EmployeeRow<RemittanceLine>| r.data.amounts)
}

proof fn lemma_remittance_rows_lines(rows: Seq<EmployeeRow<RemittanceLine>>, ps: Seq<Payroll>, es: Seq<Employee>)
    requires
        remittance_rows_ok(rows, ps, es),
    ensures
        remittance_lines(ps, es) == Some(remittance_data(rows)),
    decreases ps.len(),
{
    if ps.len() > 0 {
        let p = ps.last();
        match first_with_id(es, p.employee_id) {
            None => lemma_remittance_rows_lines(rows, ps.drop_last(), es),
            Some(k) => {
                lemma_remittance_rows_lines(rows.drop_last(), ps.drop_last(), es);
                assert(remittance_data(rows) =~= remittance_data(rows.drop_last()).push(
                    rows.last().data.amounts,
                ));
            },
        }
    } else {
        assert(remittance_data(rows) =~= Seq::<RemittanceAmounts>::empty());
    }
}

proof fn lemma_remittance_lines_none_extends(ps: Seq<Payroll>, es: Seq<Employee>, k: int)
    requires
        0 <= k <= ps.len(),
        remittance_lines(ps.subrange(0, k), es) is None,
    ensures
        remittance_lines(ps, es) is None,
    decreases ps.len(),
{
    if k == ps.len() {
        assert(ps.subrange(0, k) =~= ps);
    } else {
        let t = ps.drop_last();
        assert(t.subrange(0, k) =~= ps.subrange(0, k));
        lemma_remittance_lines_none_extends(t, es, k);
    }
}

/// The remittance register's rows, in the pays' order (see
/// `remittance_rows_ok`); `None` where a line overflows.
pub fn remittance_rows(payrolls: &Vec<Payroll>, employees: &Vec<Employee>) -> (r: Option<
    Vec<EmployeeRow<RemittanceLine>>,
>)
    requires
        payrolls_wf(payrolls@),
    ensures
        remittance_lines(payrolls@, employees@) is None ==> r is None,
        remittance_lines(payrolls@, employees@) is Some ==> (r matches Some(rows)
            && remittance_rows_ok(rows@, payrolls@, employees@) && forall|i: int|
            0 <= i < rows@.len() ==> (#[trigger] rows@[i]).data.amounts.wf()),
        r matches Some(rows) ==> rows@.len() <= payrolls@.len(),
        ordinary_pays(payrolls@) ==> (r matches Some(rows) && forall|i: int|
            0 <= i < rows@.len() ==> remittance_within(#[trigger] rows@[i].data.amounts, 1010000000000000000000000000000000000000000000int)),
{
    let ghost ok = ordinary_pays(payrolls@);
    let n = payrolls.len();
    let mut rows: Vec<EmployeeRow<RemittanceLine>> = Vec::new();
    let mut i: usize = 0;
    proof {
        assert(payrolls@.subrange(0, 0) =~= Seq::<Payroll>::empty());
    }
    while i < n
        invariant
            n == payrolls@.len(),
            i <= n,
            payrolls_wf(payrolls@),
            remittance_rows_ok(rows@, payrolls@.subrange(0, i as int), employees@),
            forall|t: int| 0 <= t < rows@.len() ==> (#[trigger] rows@[t]).data.amounts.wf(),
            rows@.len() <= i,
            ok == ordinary_pays(payrolls@),
            ok ==> forall|t: int|
                0 <= t < rows@.len() ==> remittance_within(#[trigger] rows@[t].data.amounts, 1010000000000000000000000000000000000000000000int),
        decreases n - i,
    {
        proof {
            if ok {
                assert(ordinary_pay(payrolls@[i as int]));
            }
        }
        let p = &payrolls[i];
        let ghost pre = payrolls@.subrange(0, i as int);
        let ghost next = payrolls@.subrange(0, i + 1);
        proof {
            assert(next.drop_last() =~= pre);
            assert(next.last() == payrolls@[i as int]);
            assert(payrolls@[i as int].wf());
            lemma_first_with_id(employees@, p.employee_id);
        }
        match find_employee(employees, p.employee_id) {
            None => {
                assert(remittance_rows_ok(rows@, next, employees@));
            },
            Some(k) => {
                let amounts = match remittance_amounts_of(p) {
                    Some(a) => a,
                    None => {
                        proof {
                            lemma_remittance_lines_none_extends(payrolls@, employees@, i + 1);
                        }
                        return None;
                    },
                };
                let union_and_insurance = match add_within(
                    amounts.union_dues,
                    amounts.group_insurance,
                    Ghost(1010000000000000000000000000000000000000000000int),
                    Ghost(1010000000000000000000000000000000000000000000int),
                ) {
                    Some(u) => u,
                    None => {
                        proof {
                            lemma_remittance_lines_none_extends(payrolls@, employees@, i + 1);
                        }
                        return None;
                    },
                };
                let mut pay_period = month_day(p.pay_period_start);
                push_str(&mut pay_period, "-");
                let end = month_day(p.pay_period_end);
                push_str(&mut pay_period, end.as_str());
                let e = &employees[k];
                let mut name = to_owned_string(e.last_name.as_str());
                push_str(&mut name, ", ");
                push_str(&mut name, e.first_name.as_str());
                let row = EmployeeRow {
                    emp_num: to_owned_string(e.employee_number.as_str()),
                    name,
                    data: RemittanceLine { pay_period, union_and_insurance, amounts },
                };
                let ghost old_rows = rows@;
                rows.push(row);
                proof {
                    assert(rows@.drop_last() =~= old_rows);
                    assert(rows@.last() == row);
                    assert(first_with_id(employees@, p.employee_id) == Some(k as int));
                    assert(remittance_row_ok(row, *p, employees@[k as int]));
                    assert(remittance_rows_ok(rows@, next, employees@));
                }
            },
        }
        i = i + 1;
    }
    proof {
        assert(payrolls@.subrange(0, n as int) =~= payrolls@);
        lemma_remittance_rows_lines(rows@, payrolls@, employees@);
    }
    Some(rows)
}

/// The rows' lines added up, in order.
/// Where there are at most 100,000 rows whose columns are each within
/// 101 × 10^13, the sum succeeds, each column within that times the rows.
pub fn remittance_totals(rows: &Vec<EmployeeRow<RemittanceLine>>) -> (r: Option<RemittanceAmounts>)
    requires
        forall|i: int| 0 <= i < rows@.len() ==> (#[trigger] rows@[i]).data.amounts.wf(),
    ensures
        r == remittance_sum(remittance_data(rows@)),
        r matches Some(t) ==> t.wf(),
        (rows@.len() <= 100000 && forall|i: int|
            0 <= i < rows@.len() ==> remittance_within(#[trigger] rows@[i].data.amounts, 1010000000000000000000000000000000000000000000int)) ==> (
        r matches Some(t) && remittance_within(t, rows@.len() * 1010000000000000000000000000000000000000000000int)),
{
    let ghost ok = rows@.len() <= 100000 && forall|i: int|
        0 <= i < rows@.len() ==> remittance_within(#[trigger] rows@[i].data.amounts, 1010000000000000000000000000000000000000000000int);
    let n = rows.len();
    let mut total = zero_remittance_of();
    let mut i: usize = 0;
    proof {
        assert(remittance_data(rows@).subrange(0, 0) =~= Seq::<RemittanceAmounts>::empty());
    }
    while i < n
        invariant
            n == rows@.len(),
            i <= n,
            forall|t: int| 0 <= t < rows@.len() ==> (#[trigger] rows@[t]).data.amounts.wf(),
            total.wf(),
            remittance_sum(remittance_data(rows@).subrange(0, i as int)) == Some(total),
            ok == (rows@.len() <= 100000 && forall|i: int|
                0 <= i < rows@.len() ==> remittance_within(#[trigger] rows@[i].data.amounts, 1010000000000000000000000000000000000000000000int)),
            ok ==> remittance_within(total, i * 1010000000000000000000000000000000000000000000int),
        decreases n - i,
    {
        let ghost xs = remittance_data(rows@);
        proof {
            assert(xs.subrange(0, i + 1).drop_last() =~= xs.subrange(0, i as int));
            assert(xs.subrange(0, i + 1).last() == rows@[i as int].data.amounts);
        }
        total = match add_remittance_of(
            &total,
            &rows[i].data.amounts,
            Ghost(i * 1010000000000000000000000000000000000000000000int),
            Ghost(1010000000000000000000000000000000000000000000int),
        ) {
            Some(t) => t,
            None => {
                proof {
                    lemma_remittance_sum_none_extends(xs, i + 1);
                }
                return None;
            },
        };
        i = i + 1;
    }
    proof {
        assert(remittance_data(rows@).subrange(0, n as int) =~= remittance_data(rows@));
    }
    Some(total)
}

/// The totals of the remittance register.
#[derive(Debug, Clone, Copy, PartialEq, Eq, Structural)]
pub struct RemittanceTotals {
    /// Every column added up.
    pub totals: RemittanceAmounts,
    /// The union dues total and the group insurance total together.
    pub union_and_insurance: Dec,
    /// Federal and provincial tax.
    pub tax_total: Dec,
    pub government: GovernmentShare,
}

pub open spec fn remittance_summary(lines: Seq<RemittanceAmounts>) -> Option<RemittanceTotals> {
    match remittance_sum(lines) {
        None => None,
        Some(t) => {
            let ui = dec_checked_add(t.union_dues, t.group_insurance);
            let tax = dec_checked_add(t.federal_tax, t.provincial_tax);
            if ui is Some && tax is Some && government_share(t.cpp, t.cpp2, t.ei, tax->0) is Some {
                Some(
                    RemittanceTotals {
                        totals: t,
                        union_and_insurance: ui->0,
                        tax_total: tax->0,
                        government: government_share(t.cpp, t.cpp2, t.ei, tax->0)->0,
                    },
                )
            } else {
                None
            }
        },
    }
}

/// The remittance register: its rows in employee-number order and its totals.
#[derive(Debug, Clone)]
pub struct RemittanceRegister {
    pub rows: Vec<EmployeeRow<RemittanceLine>>,
    pub summary: RemittanceTotals,
}

/// The remittance register of the pays of a remittance period.  A pay
/// whose employee is not among `employees` is left out; the rows are
/// sorted by employee number, keeping the pays' order among equal
/// numbers; the totals add up the rows in the pays' order.  `None` where
/// an amount overflows, which cannot happen for at most 100,000 pays of
/// ordinary amounts (`ordinary_pays`).
pub fn remittance_register(payrolls: &Vec<Payroll>, employees: &Vec<Employee>) -> (r: Option<
    RemittanceRegister,
>)
    requires
        payrolls_wf(payrolls@),
    ensures
        match remittance_lines(payrolls@, employees@) {
            None => r is None,
            Some(lines) => match remittance_summary(lines) {
                None => r is None,
                Some(s) => r matches Some(reg) && reg.summary == s && reg.rows@.len() == lines.len()
                    && sorted_by_number(reg.rows@) && exists|u: Seq<EmployeeRow<RemittanceLine>>|
                    remittance_rows_ok(u, payrolls@, employees@) && #[trigger] same_order_per_number(
                    reg.rows@,
                    u,
                ),
            },
        },
        ordinary_pays(payrolls@) ==> r is Some,
{
    let rows = remittance_rows(payrolls, employees)?;
    proof {
        lemma_remittance_rows_lines(rows@, payrolls@, employees@);
    }
    let totals = remittance_totals(&rows)?;
    let ghost v = rows@.len() * 1010000000000000000000000000000000000000000000int;
    let union_and_insurance = add_within(
        totals.union_dues,
        totals.group_insurance,
        Ghost(v),
        Ghost(v),
    )?;
    let tax_total = add_within(totals.federal_tax, totals.provincial_tax, Ghost(v), Ghost(v))?;
    let government = government_share_of(totals.cpp, totals.cpp2, totals.ei, tax_total)?;
    let ghost unsorted = rows@;
    let sorted = sort_by_employee_number(rows);
    proof {
        assert(remittance_rows_ok(unsorted, payrolls@, employees@)
            && same_order_per_number(sorted@, unsorted));
    }
    Some(
        RemittanceRegister {
            rows: sorted,
            summary: RemittanceTotals { totals, union_and_insurance, tax_total, government },
        },
    )
}

} // verus!
