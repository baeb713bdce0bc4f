//! T4 slips and the T4 summary: their amounts and their text forms.
use vstd::prelude::*;
use crate::decimal::{
    Dec, checked_add, checked_mul, checked_sub, dec_checked_add, dec_checked_mul, dec_checked_sub,
    dec_display_text, dec_fixed2_text, dec_lt, dec_max, display_text, fixed2_text, int_dec, lit,
    oadd, omax, omul, osub, round_dp_even, round_half_even, sum_decs, sum_of, zero_dec, mantissa_digits,
    zeros,
};
use crate::models::company::Company;
use crate::models::employee::Employee;
use crate::models::province::province_code;
use crate::models::payroll_record::YtdTotals;
use crate::reports::format::{before_first, grouped, second_field};
use crate::text::{
    char_count, i64_text, int_text, push_str, replace_char, replace_char_spec, to_owned_string,
};

verus! {

/// The transmitter of an electronic filing (T619).
#[derive(Debug, Clone)]
pub struct T619Transmitter {
    /// BN15 with program identifier (e.g. `882504012RP0001`).
    pub bn15: String,
    pub name: String,
    pub contact_name: String,
    pub phone_area: String,
    pub phone: String,
    pub email: Option<String>,
    pub submission_ref_id: Option<String>,
}

impl T619Transmitter {
    /// A transmitter with every text empty and no email or reference.
    pub fn new() -> (r: T619Transmitter)
        ensures
            r.bn15@.len() == 0 && r.name@.len() == 0 && r.contact_name@.len() == 0,
            r.phone_area@.len() == 0 && r.phone@.len() == 0,
            r.email is None && r.submission_ref_id is None,
    {
        T619Transmitter {
            bn15: String::new(),
            name: String::new(),
            contact_name: String::new(),
            phone_area: String::new(),
            phone: String::new(),
            email: None,
            submission_ref_id: None,
        }
    }
}

/// The amounts of an employee's T4 slip.
#[derive(Debug, Clone)]
pub struct T4Data {
    pub employee: Employee,
    pub year: i32,
    /// Box 14.
    pub employment_income: Dec,
    /// Box 16.
    pub cpp_contributions: Dec,
    /// Box 16A.
    pub cpp2_contributions: Dec,
    /// Box 20.
    pub rpp_contributions: Dec,
    /// Box 18.
    pub ei_premiums: Dec,
    /// Box 22.
    pub income_tax_deducted: Dec,
    /// Box 24.
    pub ei_insurable_earnings: Dec,
    /// Box 26.
    pub cpp_pensionable_earnings: Dec,
    /// Box 52.
    pub pension_adjustment: Dec,
    /// Box 45 (1, 2 or 3).
    pub dental_benefit: i32,
    pub employment_code: Option<String>,
    pub province_of_employment: String,
    /// The year's net pays added up.
    pub net_pay: Dec,
    /// Box 14 less boxes 16, 16A, 18, 22 and 20.
    pub computed_net_pay: Dec,
}

/// Income tax (federal plus provincial), pensionable earnings (gross pay
/// above the $3,500 exemption, at least zero) and the net pay computed
/// from the boxes.
pub open spec fn slip_amounts(ytd: YtdTotals) -> Option<(Dec, Dec, Dec)> {
    let pensionable = omax(osub(Some(ytd.gross_pay), Some(lit(350000, 2))), Some(zero_dec()));
    let income_tax = dec_checked_add(ytd.federal_tax, ytd.provincial_tax);
    let net = osub(
        osub(
            osub(
                osub(osub(Some(ytd.gross_pay), Some(ytd.cpp)), Some(ytd.cpp2)),
                Some(ytd.ei),
            ),
            income_tax,
        ),
        Some(ytd.rpp_contributions),
    );
    if pensionable is Some && net is Some {
        Some((income_tax->0, pensionable->0, net->0))
    } else {
        None
    }
}

impl T4Data {
    pub open spec fn wf(self) -> bool {
        &&& self.employment_income.wf()
        &&& self.cpp_contributions.wf()
        &&& self.cpp2_contributions.wf()
        &&& self.rpp_contributions.wf()
        &&& self.ei_premiums.wf()
        &&& self.income_tax_deducted.wf()
        &&& self.ei_insurable_earnings.wf()
        &&& self.cpp_pensionable_earnings.wf()
        &&& self.pension_adjustment.wf()
        &&& self.net_pay.wf()
        &&& self.computed_net_pay.wf()
    }

    /// The slip of an employee from the year's totals.  `None` where an
    /// amount overflows.
    pub fn from_ytd_totals(employee: Employee, ytd: YtdTotals) -> (r: Option<T4Data>)
        requires
            ytd.wf(),
        ensures
            match slip_amounts(ytd) {
                None => r is None,
                Some(a) => r is Some && ({
                    let t = r->0;
                    &&& t.wf()
                    &&& t.year == ytd.year
                    &&& t.employment_income == ytd.gross_pay
                    &&& t.cpp_contributions == ytd.cpp
                    &&& t.cpp2_contributions == ytd.cpp2
                    &&& t.rpp_contributions == ytd.rpp_contributions
                    &&& t.ei_premiums == ytd.ei
                    &&& t.income_tax_deducted == a.0
                    &&& t.ei_insurable_earnings == ytd.gross_pay
                    &&& t.cpp_pensionable_earnings == a.1
                    &&& t.pension_adjustment == ytd.pension_adjustment
                    &&& t.dental_benefit == employee.dental_benefit
                    &&& t.employment_code is Some
                    &&& t.employment_code->0@ == employee.employee_number@
                    &&& t.province_of_employment@ == employee.hire_province@
                    &&& t.net_pay == ytd.net_pay
                    &&& t.computed_net_pay == a.2
                    &&& t.employee == employee
                }),
            },
    {
        let above = checked_sub(ytd.gross_pay, Dec::new(350000, 2))?;
        let cpp_pensionable_earnings = dec_max(above, Dec::zero());
        let dental_benefit = employee.dental_benefit;
        let income_tax = checked_add(ytd.federal_tax, ytd.provincial_tax)?;
        let n1 = checked_sub(ytd.gross_pay, ytd.cpp)?;
        let n2 = checked_sub(n1, ytd.cpp2)?;
        let n3 = checked_sub(n2, ytd.ei)?;
        let n4 = checked_sub(n3, income_tax)?;
        let computed_net_pay = checked_sub(n4, ytd.rpp_contributions)?;
        let employment_code = Some(to_owned_string(employee.employee_number.as_str()));
        let province_of_employment = to_owned_string(employee.hire_province.as_str());
        Some(
            T4Data {
                province_of_employment,
                employee,
                year: ytd.year,
                employment_income: ytd.gross_pay,
                cpp_contributions: ytd.cpp,
                cpp2_contributions: ytd.cpp2,
                rpp_contributions: ytd.rpp_contributions,
                ei_premiums: ytd.ei,
                income_tax_deducted: income_tax,
                ei_insurable_earnings: ytd.gross_pay,
                cpp_pensionable_earnings,
                pension_adjustment: ytd.pension_adjustment,
                dental_benefit,
                employment_code,
                net_pay: ytd.net_pay,
                computed_net_pay,
            },
        )
    }
}

/// How a slip writes its box 45 code: 2 and 3 name the coverage, every
/// other code reads as code 1, no benefit.
pub open spec fn dental_benefit_text(code: i32) -> Seq<char> {
    if code == 2 {
        "2 - Basic dental coverage"@
    } else if code == 3 {
        "3 - Comprehensive dental coverage"@
    } else {
        "1 - No dental benefit"@
    }
}

pub fn dental_benefit_label(code: i32) -> (r: &'static str)
    ensures
        r@ == dental_benefit_text(code),
{
    if code == 2 {
        "2 - Basic dental coverage"
    } else if code == 3 {
        "3 - Comprehensive dental coverage"
    } else {
        "1 - No dental benefit"
    }
}

/// The amounts of a slip that the summaries add up.
#[derive(Debug, Clone, Copy, PartialEq, Eq, Structural)]
pub enum SlipField {
    EmploymentIncome,
    Rpp,
    PensionAdjustment,
    Cpp,
    Cpp2,
    Ei,
    IncomeTax,
    EiInsurable,
    CppPensionable,
}

pub open spec fn slip_field(t: T4Data, f: SlipField) -> Dec {
    match f {
        SlipField::EmploymentIncome => t.employment_income,
        SlipField::Rpp => t.rpp_contributions,
        SlipField::PensionAdjustment => t.pension_adjustment,
        SlipField::Cpp => t.cpp_contributions,
        SlipField::Cpp2 => t.cpp2_contributions,
        SlipField::Ei => t.ei_premiums,
        SlipField::IncomeTax => t.income_tax_deducted,
        SlipField::EiInsurable => t.ei_insurable_earnings,
        SlipField::CppPensionable => t.cpp_pensionable_earnings,
    }
}

pub open spec fn slips_wf(slips: Seq<T4Data>) -> bool {
    forall|i: int| 0 <= i < slips.len() ==> (#[trigger] slips[i]).wf()
}

/// The sum of one amount over the slips, in order.
pub open spec fn slip_total(slips: Seq<T4Data>, f: SlipField) -> Option<Dec> {
    sum_of(slips.map_values(|t: T4Data| slip_field(t, f)))
}

/// Adds up one amount over the slips.
pub fn total_of(slips: &Vec<T4Data>, f: SlipField) -> (r: Option<Dec>)
    requires
        slips_wf(slips@),
    ensures
        r == slip_total(slips@, f),
        r is Some ==> r->0.wf(),
{
    let mut values: Vec<Dec> = Vec::new();
    let mut i: usize = 0;
    while i < slips.len()
        invariant
            i <= slips@.len(),
            slips_wf(slips@),
            values@ == slips@.subrange(0, i as int).map_values(|t: T4Data| slip_field(t, f)),
        decreases slips@.len() - i,
    {
        let t = &slips[i];
        let v = match f {
            SlipField::EmploymentIncome => t.employment_income,
            SlipField::Rpp => t.rpp_contributions,
            SlipField::PensionAdjustment => t.pension_adjustment,
            SlipField::Cpp => t.cpp_contributions,
            SlipField::Cpp2 => t.cpp2_contributions,
            SlipField::Ei => t.ei_premiums,
            SlipField::IncomeTax => t.income_tax_deducted,
            SlipField::EiInsurable => t.ei_insurable_earnings,
            SlipField::CppPensionable => t.cpp_pensionable_earnings,
        };
        values.push(v);
        proof {
            assert(slips@.subrange(0, i + 1).map_values(|t: T4Data| slip_field(t, f)) =~= slips@.subrange(
                0,
                i as int,
            ).map_values(|t: T4Data| slip_field(t, f)).push(v));
        }
        i = i + 1;
    }
    proof {
        assert(slips@.subrange(0, slips@.len() as int) =~= slips@);
        assert forall|j: int| 0 <= j < values@.len() implies (#[trigger] values@[j]).wf() by {
            assert(slips@[j].wf());
        }
    }
    sum_decs(&values)
}

/// The boxes of the T4 summary for a year.
#[derive(Debug, Clone)]
pub struct T4SummaryData {
    pub year: i32,
    /// Box 88: number of slips.
    pub total_slips: i32,
    /// Box 14.
    pub total_employment_income: Dec,
    /// Box 20.
    pub total_rpp_contributions: Dec,
    /// Box 52.
    pub total_pension_adjustment: Dec,
    /// Box 16.
    pub total_employee_cpp: Dec,
    /// Box 16A.
    pub total_employee_cpp2: Dec,
    /// Box 27: the employer matches the employees' CPP.
    pub total_employer_cpp: Dec,
    /// Box 27A: the employer matches the employees' CPP2.
    pub total_employer_cpp2: Dec,
    /// Box 18.
    pub total_employee_ei: Dec,
    /// Box 19: 1.4 times the employees' EI.
    pub total_employer_ei: Dec,
    /// Box 22.
    pub total_income_tax: Dec,
    /// Box 80: boxes 16, 16A, 27, 27A, 18, 19 and 22 added up.
    pub total_deductions_reported: Dec,
    /// Box 82: remittances paid.
    pub total_remittances_paid: Dec,
    /// Box 80 less box 82.
    pub difference: Dec,
}

/// Box 80: `16 + 16A + 27 + 27A + 18 + 19 + 22`, added left to right.
pub open spec fn deductions_reported(cpp: Dec, cpp2: Dec, ei: Dec, employer_ei: Dec, tax: Dec) -> Option<Dec> {
    oadd(
        oadd(
            oadd(oadd(oadd(oadd(Some(cpp), Some(cpp2)), Some(cpp)), Some(cpp2)), Some(ei)),
            Some(employer_ei),
        ),
        Some(tax),
    )
}

impl T4SummaryData {
    /// The summary of a year's slips, with the remittances paid.  The
    /// employer's CPP and CPP2 equal the employees', the employer's EI is
    /// 1.4 times theirs, box 80 adds up the deductions and the difference
    /// is box 80 less the remittances.  `None` where an amount overflows.
    pub fn calculate(year: i32, t4_slips: &Vec<T4Data>, total_remittances: Dec) -> (r: Option<
        T4SummaryData,
    >)
        requires
            slips_wf(t4_slips@),
            total_remittances.wf(),
        ensures
            r matches Some(s) ==> {
                &&& s.year == year
                &&& s.total_slips == t4_slips@.len() as i32
                &&& Some(s.total_employment_income) == slip_total(
                    t4_slips@,
                    SlipField::EmploymentIncome,
                )
                &&& Some(s.total_rpp_contributions) == slip_total(t4_slips@, SlipField::Rpp)
                &&& Some(s.total_pension_adjustment) == slip_total(
                    t4_slips@,
                    SlipField::PensionAdjustment,
                )
                &&& Some(s.total_employee_cpp) == slip_total(t4_slips@, SlipField::Cpp)
                &&& Some(s.total_employee_cpp2) == slip_total(t4_slips@, SlipField::Cpp2)
                &&& s.total_employer_cpp == s.total_employee_cpp
                &&& s.total_employer_cpp2 == s.total_employee_cpp2
                &&& Some(s.total_employee_ei) == slip_total(t4_slips@, SlipField::Ei)
                &&& Some(s.total_employer_ei) == dec_checked_mul(s.total_employee_ei, lit(14, 1))
                &&& Some(s.total_income_tax) == slip_total(t4_slips@, SlipField::IncomeTax)
                &&& Some(s.total_deductions_reported) == deductions_reported(
                    s.total_employee_cpp,
                    s.total_employee_cpp2,
                    s.total_employee_ei,
                    s.total_employer_ei,
                    s.total_income_tax,
                )
                &&& s.total_remittances_paid == total_remittances
                &&& Some(s.difference) == dec_checked_sub(
                    s.total_deductions_reported,
                    total_remittances,
                )
            },
            total_remittances.mantissa == 0 ==> (r matches Some(s) ==> format_currency_text(
                s.difference,
            ) == format_currency_text(s.total_deductions_reported)),
            r is None ==> (slip_total(t4_slips@, SlipField::EmploymentIncome) is None
                || slip_total(t4_slips@, SlipField::Rpp) is None || slip_total(
                t4_slips@,
                SlipField::PensionAdjustment,
            ) is None || slip_total(t4_slips@, SlipField::Cpp) is None || slip_total(
                t4_slips@,
                SlipField::Cpp2,
            ) is None || slip_total(t4_slips@, SlipField::Ei) is None || slip_total(
                t4_slips@,
                SlipField::IncomeTax,
            ) is None || omul(slip_total(t4_slips@, SlipField::Ei), Some(lit(14, 1))) is None
                || deductions_reported(
                slip_total(t4_slips@, SlipField::Cpp)->0,
                slip_total(t4_slips@, SlipField::Cpp2)->0,
                slip_total(t4_slips@, SlipField::Ei)->0,
                omul(slip_total(t4_slips@, SlipField::Ei), Some(lit(14, 1)))->0,
                slip_total(t4_slips@, SlipField::IncomeTax)->0,
            ) is None || osub(
                deductions_reported(
                    slip_total(t4_slips@, SlipField::Cpp)->0,
                    slip_total(t4_slips@, SlipField::Cpp2)->0,
                    slip_total(t4_slips@, SlipField::Ei)->0,
                    omul(slip_total(t4_slips@, SlipField::Ei), Some(lit(14, 1)))->0,
                    slip_total(t4_slips@, SlipField::IncomeTax)->0,
                ),
                Some(total_remittances),
            ) is None),
    {
        let total_slips = t4_slips.len() as i32;
        let total_employment_income = total_of(t4_slips, SlipField::EmploymentIncome)?;
        let total_rpp_contributions = total_of(t4_slips, SlipField::Rpp)?;
        let total_pension_adjustment = total_of(t4_slips, SlipField::PensionAdjustment)?;
        let total_employee_cpp = total_of(t4_slips, SlipField::Cpp)?;
        let total_employee_cpp2 = total_of(t4_slips, SlipField::Cpp2)?;
        let total_employer_cpp = total_employee_cpp;
        let total_employer_cpp2 = total_employee_cpp2;
        let total_employee_ei = total_of(t4_slips, SlipField::Ei)?;
        let total_employer_ei = checked_mul(total_employee_ei, Dec::new(14, 1))?;
        let total_income_tax = total_of(t4_slips, SlipField::IncomeTax)?;
        let d1 = checked_add(total_employee_cpp, total_employee_cpp2)?;
        let d2 = checked_add(d1, total_employer_cpp)?;
        let d3 = checked_add(d2, total_employer_cpp2)?;
        let d4 = checked_add(d3, total_employee_ei)?;
        let d5 = checked_add(d4, total_employer_ei)?;
        let total_deductions_reported = checked_add(d5, total_income_tax)?;
        let difference = checked_sub(total_deductions_reported, total_remittances)?;
        proof {
            if total_remittances.mantissa == 0 && total_deductions_reported.mantissa == 0 {
                lemma_zero_currency_text(difference);
                lemma_zero_currency_text(total_deductions_reported);
            }
        }
        Some(
            T4SummaryData {
                year,
                total_slips,
                total_employment_income,
                total_rpp_contributions,
                total_pension_adjustment,
                total_employee_cpp,
                total_employee_cpp2,
                total_employer_cpp,
                total_employer_cpp2,
                total_employee_ei,
                total_employer_ei,
                total_income_tax,
                total_deductions_reported,
                total_remittances_paid: total_remittances,
                difference,
            },
        )
    }
}

/// `s` with `&`, `<`, `>`, `"` and `'` written as XML entities.
pub open spec fn escape_xml_text(s: Seq<char>) -> Seq<char> {
    replace_char_spec(
        replace_char_spec(
            replace_char_spec(
                replace_char_spec(replace_char_spec(s, '&', "&amp;"@), '<', "&lt;"@),
                '>',
                "&gt;"@,
            ),
            '"',
            "&quot;"@,
        ),
        '\'',
        "&apos;"@,
    )
}

pub fn escape_xml(s: &str) -> (r: String)
    ensures
        r@ == escape_xml_text(s@),
{
    let a = replace_char(s, '&', "&amp;");
    let b = replace_char(a.as_str(), '<', "&lt;");
    let c = replace_char(b.as_str(), '>', "&gt;");
    let d = replace_char(c.as_str(), '"', "&quot;");
    replace_char(d.as_str(), '\'', "&apos;")
}

/// An amount in cents, rounded (half to even) to a whole number.
pub open spec fn cents_string_text(value: Dec) -> Option<Seq<char>> {
    match dec_checked_mul(value, int_dec(100)) {
        None => None,
        Some(c) => Some(dec_display_text(round_half_even(c, 0))),
    }
}

/// An amount as its whole number of cents (`12.34` → `1234`); `None`
/// where the product overflows.
pub fn decimal_to_cents_string(value: &Dec) -> (r: Option<String>)
    requires
        value.wf(),
    ensures
        match cents_string_text(*value) {
            None => r is None,
            Some(t) => r matches Some(s) && s@ == t,
        },
{
    let cents = checked_mul(*value, Dec::from_int(100))?;
    let rounded = round_dp_even(cents, 0);
    Some(display_text(rounded))
}

/// An amount in dollars with two decimals (`48000` → `48000.00`).
pub fn decimal_to_dollars_string(value: &Dec) -> (r: String)
    requires
        value.wf(),
    ensures
        r@ == dec_fixed2_text(*value),
{
    fixed2_text(*value)
}

/// The absolute value of a decimal.
pub open spec fn dec_abs(d: Dec) -> Dec {
    Dec {
        mantissa: (if d.mantissa < 0 {
            -d.mantissa
        } else {
            d.mantissa as int
        }) as i128,
        scale: d.scale,
    }
}

/// An amount with a sign, a `$`, thousands separators and two decimals
/// (`-1234.5` → `-$1,234.50`).
pub open spec fn format_currency_text(value: Dec) -> Seq<char> {
    let sign = if value.units() < 0 {
        "-"@
    } else {
        Seq::empty()
    };
    let f = dec_fixed2_text(dec_abs(value));
    sign + "$"@ + grouped(before_first(f, '.')) + "."@ + second_field(f, '.')->0
}

pub fn format_currency(value: Dec) -> (r: String)
    requires
        value.wf(),
    ensures
        r@ == format_currency_text(value),
{
    let negative = dec_lt(value, Dec::zero());
    let abs_val = Dec {
        mantissa: if value.mantissa < 0 {
            -value.mantissa
        } else {
            value.mantissa
        },
        scale: value.scale,
    };
    let formatted = fixed2_text(abs_val);
    proof {
        lemma_second_field_exists(formatted@, '.');
    }
    let int_part = crate::reports::format::first_field_of(formatted.as_str(), '.');
    let dec_part = match crate::reports::format::field_after_of(formatted.as_str(), '.') {
        Some(d) => d,
        None => String::new(),
    };
    let mut out = if negative {
        to_owned_string("-")
    } else {
        String::new()
    };
    push_str(&mut out, "$");
    let grouped_int = crate::reports::format::group_thousands_of(int_part.as_str());
    push_str(&mut out, grouped_int.as_str());
    push_str(&mut out, ".");
    push_str(&mut out, dec_part.as_str());
    out
}

/// Zero is `0.00` with two decimals, whatever its scale.
proof fn lemma_zero_fixed2(d: Dec)
    requires
        d.mantissa == 0,
    ensures
        dec_fixed2_text(d) =~= seq!['0', '.', '0', '0'],
{
    let p = mantissa_digits(d);
    assert(p =~= zeros(d.scale as nat));
    assert((p + zeros(2)).subrange(0, 2) =~= seq!['0', '0']);
}

/// Every zero is written the same way, whatever its scale.
proof fn lemma_zero_currency_text(d: Dec)
    requires
        d.mantissa == 0,
    ensures
        format_currency_text(d) == "$"@ + grouped(seq!['0']) + "."@ + seq!['0', '0'],
{
    assert(d.units() == 0);
    let a = dec_abs(d);
    assert(a.mantissa == 0);
    lemma_zero_fixed2(a);
    let f = dec_fixed2_text(a);
    assert(before_first(f, '.') =~= seq!['0']) by {
        reveal_with_fuel(before_first, 3);
        assert(f.drop_first() =~= seq!['.', '0', '0']);
    }
    assert(second_field(f, '.') == Some(seq!['0', '0'])) by {
        reveal_with_fuel(second_field, 3);
        reveal_with_fuel(before_first, 3);
        assert(f.drop_first() =~= seq!['.', '0', '0']);
        assert(f.drop_first().drop_first() =~= seq!['0', '0']);
        assert(seq!['0', '0'].drop_first() =~= seq!['0']);
        assert(seq!['0'].drop_first() =~= Seq::<char>::empty());
    }
    assert(Seq::<char>::empty() + "$"@ =~= "$"@);
}

/// A text that holds `c` has a field after its first `c`.
proof fn lemma_second_field_exists(s: Seq<char>, c: char)
    requires
        s.contains(c),
    ensures
        second_field(s, c) is Some,
    decreases s.len(),
{
    if s.len() > 0 && s[0] != c {
        let i = choose|i: int| 0 <= i < s.len() && s[i] == c;
        assert(s.drop_first()[i - 1] == c);
        lemma_second_field_exists(s.drop_first(), c);
    }
}

// ---------------------------------------------------------------------
// The CRA XML submission
// ---------------------------------------------------------------------

/// A line of the document.
pub open spec fn ln(s: Seq<char>) -> Seq<char> {
    s + "\n"@
}

/// An element on a line of its own.
pub open spec fn tg(open: Seq<char>, content: Seq<char>, close: Seq<char>) -> Seq<char> {
    open + content + close + "\n"@
}

fn put_line(out: &mut String, s: &str)
    ensures
        final(out)@ == old(out)@ + ln(s@),
{
    push_str(out, s);
    push_str(out, "\n");
    assert(final(out)@ =~= old(out)@ + ln(s@));
}

fn put_tag(out: &mut String, open: &str, content: &str, close: &str)
    ensures
        final(out)@ == old(out)@ + tg(open@, content@, close@),
{
    let ghost start = out@;
    push_str(out, open);
    push_str(out, content);
    push_str(out, close);
    push_str(out, "\n");
    assert(out@ =~= start + tg(open@, content@, close@));
}

pub open spec fn opt_text(s: Option<String>) -> Seq<char> {
    match s {
        Some(t) => t@,
        None => Seq::empty(),
    }
}

/// The transmitter part (T619) and the start of the return.
#[verifier::opaque]
pub open spec fn xml_header_text(tr: T619Transmitter, n: int) -> Seq<char> {
    Seq::empty() + ln("<?xml version=\"1.0\" encoding=\"UTF-8\"?>"@) + ln(
        "<Submission xmlns:xsi=\"http://www.w3.org/2001/XMLSchema-instance\">"@,
    ) + ln("<T619>"@) + ln("<TransmitterAccountNumber>"@) + tg(
        "<bn15>"@,
        escape_xml_text(tr.bn15@),
        "</bn15>"@,
    ) + ln("</TransmitterAccountNumber>"@) + tg(
        "<sbmt_ref_id>"@,
        escape_xml_text(opt_text(tr.submission_ref_id)),
        "</sbmt_ref_id>"@,
    ) + tg("<summ_cnt>"@, int_text(n), "</summ_cnt>"@) + ln("<lang_cd>E</lang_cd>"@) + ln(
        "<TransmitterName>"@,
    ) + tg("<l1_nm>"@, escape_xml_text(tr.name@), "</l1_nm>"@) + ln("</TransmitterName>"@) + ln(
        "<TransmitterCountryCode>CAN</TransmitterCountryCode>"@,
    ) + ln("<CNTC>"@) + tg("<cntc_nm>"@, escape_xml_text(tr.contact_name@), "</cntc_nm>"@) + tg(
        "<cntc_area_cd>"@,
        escape_xml_text(tr.phone_area@),
        "</cntc_area_cd>"@,
    ) + tg("<cntc_phn_nbr>"@, escape_xml_text(tr.phone@), "</cntc_phn_nbr>"@) + tg(
        "<cntc_email_area>"@,
        escape_xml_text(opt_text(tr.email)),
        "</cntc_email_area>"@,
    ) + ln("</CNTC>"@) + ln("</T619>"@) + ln("<Return>"@) + ln("<T4>"@)
}

/// `1` when both amounts are zero (exempt), else `0`.
pub open spec fn exempt_code(a: Dec, b: Dec) -> Seq<char> {
    if a.units() == 0 && b.units() == 0 {
        "1"@
    } else {
        "0"@
    }
}

/// One employee's slip.
#[verifier::opaque]
pub open spec fn xml_slip_text(t: T4Data, bn: Seq<char>) -> Seq<char> {
    let e = t.employee;
    Seq::empty() + ln("<T4Slip>"@) + ln("<EMPE_NM>"@) + tg(
        "<snm>"@,
        escape_xml_text(e.last_name@),
        "</snm>"@,
    ) + tg("<gvn_nm>"@, escape_xml_text(e.first_name@), "</gvn_nm>"@) + ln("</EMPE_NM>"@) + ln(
        "<EMPE_ADDR>"@,
    ) + tg("<addr_l1_txt>"@, escape_xml_text(e.address.street@), "</addr_l1_txt>"@) + ln(
        "<addr_l2_txt></addr_l2_txt>"@,
    ) + tg("<cty_nm>"@, escape_xml_text(e.address.city@), "</cty_nm>"@) + tg(
        "<prov_cd>"@,
        e.address.province@,
        "</prov_cd>"@,
    ) + ln("<cntry_cd>CAN</cntry_cd>"@) + tg(
        "<pstl_cd>"@,
        escape_xml_text(e.address.postal_code@),
        "</pstl_cd>"@,
    ) + ln("</EMPE_ADDR>"@) + tg("<sin>"@, e.sin@, "</sin>"@) + tg(
        "<empe_nbr>"@,
        escape_xml_text(e.employee_number@),
        "</empe_nbr>"@,
    ) + tg("<bn>"@, escape_xml_text(bn), "</bn>"@) + tg(
        "<cpp_qpp_xmpt_cd>"@,
        exempt_code(t.cpp_contributions, t.cpp_pensionable_earnings),
        "</cpp_qpp_xmpt_cd>"@,
    ) + tg(
        "<ei_xmpt_cd>"@,
        exempt_code(t.ei_premiums, t.ei_insurable_earnings),
        "</ei_xmpt_cd>"@,
    ) + ln("<rpt_tcd>O</rpt_tcd>"@) + tg(
        "<empt_prov_cd>"@,
        t.province_of_employment@,
        "</empt_prov_cd>"@,
    ) + tg(
        "<empr_dntl_ben_rpt_cd>"@,
        int_text(t.dental_benefit as int),
        "</empr_dntl_ben_rpt_cd>"@,
    ) + ln("<T4_AMT>"@) + tg(
        "<empt_incamt>"@,
        dec_fixed2_text(t.employment_income),
        "</empt_incamt>"@,
    ) + tg(
        "<cpp_cntrb_amt>"@,
        dec_fixed2_text(t.cpp_contributions),
        "</cpp_cntrb_amt>"@,
    ) + tg(
        "<cppe_cntrb_amt>"@,
        dec_fixed2_text(t.cpp2_contributions),
        "</cppe_cntrb_amt>"@,
    ) + tg("<empe_eip_amt>"@, dec_fixed2_text(t.ei_premiums), "</empe_eip_amt>"@) + tg(
        "<itx_ddct_amt>"@,
        dec_fixed2_text(t.income_tax_deducted),
        "</itx_ddct_amt>"@,
    ) + tg(
        "<ei_insu_ern_amt>"@,
        dec_fixed2_text(t.ei_insurable_earnings),
        "</ei_insu_ern_amt>"@,
    ) + tg(
        "<cpp_qpp_ern_amt>"@,
        dec_fixed2_text(t.cpp_pensionable_earnings),
        "</cpp_qpp_ern_amt>"@,
    ) + ln("</T4_AMT>"@) + ln("<OTH_INFO>"@) + (if t.rpp_contributions.units() != 0 {
        tg("<rpp_amt>"@, dec_fixed2_text(t.rpp_contributions), "</rpp_amt>"@)
    } else {
        Seq::empty()
    }) + (if t.pension_adjustment.units() != 0 {
        tg("<pen_adj_amt>"@, dec_fixed2_text(t.pension_adjustment), "</pen_adj_amt>"@)
    } else {
        Seq::empty()
    }) + ln("</OTH_INFO>"@) + ln("</T4Slip>"@)
}

/// The slips, in order.
pub open spec fn xml_slips_text(slips: Seq<T4Data>, bn: Seq<char>) -> Seq<char>
    decreases slips.len(),
{
    if slips.len() == 0 {
        Seq::empty()
    } else {
        xml_slips_text(slips.drop_last(), bn) + xml_slip_text(slips.last(), bn)
    }
}

/// The summary totals: income, employee CPP, CPP2, EI, tax, employer
/// CPP, CPP2 and EI (1.4 times the employees').
pub open spec fn xml_totals(slips: Seq<T4Data>) -> Option<Seq<Dec>> {
    let inc = slip_total(slips, SlipField::EmploymentIncome);
    let cpp = slip_total(slips, SlipField::Cpp);
    let cpp2 = slip_total(slips, SlipField::Cpp2);
    let ei = slip_total(slips, SlipField::Ei);
    let tax = slip_total(slips, SlipField::IncomeTax);
    let empr_ei = omul(ei, Some(lit(14, 1)));
    if inc is Some && cpp is Some && cpp2 is Some && tax is Some && empr_ei is Some {
        Some(seq![inc->0, cpp->0, cpp2->0, ei->0, tax->0, cpp->0, cpp2->0, empr_ei->0])
    } else {
        None
    }
}

/// The employer's summary and the end of the document.
#[verifier::opaque]
pub open spec fn xml_summary_text(
    year: i32,
    company: Company,
    tr: T619Transmitter,
    n: int,
    totals: Seq<Dec>,
) -> Seq<char> {
    let bn = opt_text(company.business_number);
    Seq::empty() + ln("<T4Summary>"@) + tg("<bn>"@, escape_xml_text(bn), "</bn>"@) + ln(
        "<EMPR_NM>"@,
    ) + tg("<l1_nm>"@, escape_xml_text(company.name@), "</l1_nm>"@) + ln("</EMPR_NM>"@) + ln(
        "<EMPR_ADDR>"@,
    ) + tg("<addr_l1_txt>"@, escape_xml_text(company.address@), "</addr_l1_txt>"@) + ln(
        "<addr_l2_txt></addr_l2_txt>"@,
    ) + ln("<cty_nm></cty_nm>"@) + tg(
        "<prov_cd>"@,
        province_code(company.province),
        "</prov_cd>"@,
    ) + ln("<cntry_cd>CAN</cntry_cd>"@) + ln("<pstl_cd></pstl_cd>"@) + ln("</EMPR_ADDR>"@) + ln(
        "<CNTC>"@,
    ) + tg("<cntc_nm>"@, escape_xml_text(tr.contact_name@), "</cntc_nm>"@) + tg(
        "<cntc_area_cd>"@,
        escape_xml_text(tr.phone_area@),
        "</cntc_area_cd>"@,
    ) + tg("<cntc_phn_nbr>"@, escape_xml_text(tr.phone@), "</cntc_phn_nbr>"@) + ln("</CNTC>"@)
        + tg("<tx_yr>"@, int_text(year as int), "</tx_yr>"@) + tg(
        "<slp_cnt>"@,
        int_text(n),
        "</slp_cnt>"@,
    ) + ln("<rpt_tcd>O</rpt_tcd>"@) + ln("<T4_TAMT>"@) + tg(
        "<tot_empt_incamt>"@,
        dec_fixed2_text(totals[0]),
        "</tot_empt_incamt>"@,
    ) + tg(
        "<tot_empe_cpp_amt>"@,
        dec_fixed2_text(totals[1]),
        "</tot_empe_cpp_amt>"@,
    ) + tg(
        "<tot_empe_cppe_amt>"@,
        dec_fixed2_text(totals[2]),
        "</tot_empe_cppe_amt>"@,
    ) + tg(
        "<tot_empe_eip_amt>"@,
        dec_fixed2_text(totals[3]),
        "</tot_empe_eip_amt>"@,
    ) + tg(
        "<tot_itx_ddct_amt>"@,
        dec_fixed2_text(totals[4]),
        "</tot_itx_ddct_amt>"@,
    ) + tg(
        "<tot_empr_cpp_amt>"@,
        dec_fixed2_text(totals[5]),
        "</tot_empr_cpp_amt>"@,
    ) + tg(
        "<tot_empr_cppe_amt>"@,
        dec_fixed2_text(totals[6]),
        "</tot_empr_cppe_amt>"@,
    ) + tg(
        "<tot_empr_eip_amt>"@,
        dec_fixed2_text(totals[7]),
        "</tot_empr_eip_amt>"@,
    ) + ln("</T4_TAMT>"@) + ln("</T4Summary>"@) + ln("</T4>"@) + ln("</Return>"@) + ln(
        "</Submission>"@,
    )
}

/// The whole XML submission; `None` where a total overflows.
pub open spec fn t4_xml_text(
    year: i32,
    company: Company,
    slips: Seq<T4Data>,
    tr: T619Transmitter,
) -> Option<Seq<char>> {
    match xml_totals(slips) {
        None => None,
        Some(totals) => Some(
            xml_header_text(tr, slips.len() as int) + xml_slips_text(
                slips,
                opt_text(company.business_number),
            ) + xml_summary_text(year, company, tr, slips.len() as int, totals),
        ),
    }
}

fn header_xml(tr: &T619Transmitter, n: usize) -> (r: String)
    requires
        n <= i64::MAX,
    ensures
        r@ == xml_header_text(*tr, n as int),
{
    reveal(xml_header_text);
    let mut out = String::new();
    put_line(&mut out, "<?xml version=\"1.0\" encoding=\"UTF-8\"?>");
    put_line(&mut out, "<Submission xmlns:xsi=\"http://www.w3.org/2001/XMLSchema-instance\">");
    put_line(&mut out, "<T619>");
    put_line(&mut out, "<TransmitterAccountNumber>");
    put_tag(&mut out, "<bn15>", escape_xml(tr.bn15.as_str()).as_str(), "</bn15>");
    put_line(&mut out, "</TransmitterAccountNumber>");
    let ref_id = match &tr.submission_ref_id {
        Some(r) => escape_xml(r.as_str()),
        None => escape_xml(""),
    };
    proof {
        reveal_strlit("");
        assert(""@ =~= Seq::<char>::empty());
    }
    put_tag(&mut out, "<sbmt_ref_id>", ref_id.as_str(), "</sbmt_ref_id>");
    put_tag(&mut out, "<summ_cnt>", i64_text(n as i64).as_str(), "</summ_cnt>");
    put_line(&mut out, "<lang_cd>E</lang_cd>");
    put_line(&mut out, "<TransmitterName>");
    put_tag(&mut out, "<l1_nm>", escape_xml(tr.name.as_str()).as_str(), "</l1_nm>");
    put_line(&mut out, "</TransmitterName>");
    put_line(&mut out, "<TransmitterCountryCode>CAN</TransmitterCountryCode>");
    put_line(&mut out, "<CNTC>");
    put_tag(&mut out, "<cntc_nm>", escape_xml(tr.contact_name.as_str()).as_str(), "</cntc_nm>");
    put_tag(
        &mut out,
        "<cntc_area_cd>",
        escape_xml(tr.phone_area.as_str()).as_str(),
        "</cntc_area_cd>",
    );
    put_tag(&mut out, "<cntc_phn_nbr>", escape_xml(tr.phone.as_str()).as_str(), "</cntc_phn_nbr>");
    let email = match &tr.email {
        Some(e) => escape_xml(e.as_str()),
        None => escape_xml(""),
    };
    put_tag(&mut out, "<cntc_email_area>", email.as_str(), "</cntc_email_area>");
    put_line(&mut out, "</CNTC>");
    put_line(&mut out, "</T619>");
    put_line(&mut out, "<Return>");
    put_line(&mut out, "<T4>");
    out
}

fn slip_xml(t: &T4Data, bn: &str) -> (r: String)
    requires
        t.wf(),
    ensures
        r@ == xml_slip_text(*t, bn@),
{
    reveal(xml_slip_text);
    let e = &t.employee;
    let mut out = String::new();
    put_line(&mut out, "<T4Slip>");
    put_line(&mut out, "<EMPE_NM>");
    put_tag(&mut out, "<snm>", escape_xml(e.last_name.as_str()).as_str(), "</snm>");
    put_tag(&mut out, "<gvn_nm>", escape_xml(e.first_name.as_str()).as_str(), "</gvn_nm>");
    put_line(&mut out, "</EMPE_NM>");
    put_line(&mut out, "<EMPE_ADDR>");
    put_tag(
        &mut out,
        "<addr_l1_txt>",
        escape_xml(e.address.street.as_str()).as_str(),
        "</addr_l1_txt>",
    );
    put_line(&mut out, "<addr_l2_txt></addr_l2_txt>");
    put_tag(&mut out, "<cty_nm>", escape_xml(e.address.city.as_str()).as_str(), "</cty_nm>");
    put_tag(&mut out, "<prov_cd>", e.address.province.as_str(), "</prov_cd>");
    put_line(&mut out, "<cntry_cd>CAN</cntry_cd>");
    put_tag(
        &mut out,
        "<pstl_cd>",
        escape_xml(e.address.postal_code.as_str()).as_str(),
        "</pstl_cd>",
    );
    put_line(&mut out, "</EMPE_ADDR>");
    put_tag(&mut out, "<sin>", e.sin.as_str(), "</sin>");
    put_tag(&mut out, "<empe_nbr>", escape_xml(e.employee_number.as_str()).as_str(), "</empe_nbr>");
    put_tag(&mut out, "<bn>", escape_xml(bn).as_str(), "</bn>");
    proof {
        crate::decimal::lemma_units_sign(t.cpp_contributions);
        crate::decimal::lemma_units_sign(t.cpp_pensionable_earnings);
        crate::decimal::lemma_units_sign(t.ei_premiums);
        crate::decimal::lemma_units_sign(t.ei_insurable_earnings);
        crate::decimal::lemma_units_sign(t.rpp_contributions);
        crate::decimal::lemma_units_sign(t.pension_adjustment);
    }
    let cpp_exempt = if t.cpp_contributions.is_zero() && t.cpp_pensionable_earnings.is_zero() {
        "1"
    } else {
        "0"
    };
    put_tag(&mut out, "<cpp_qpp_xmpt_cd>", cpp_exempt, "</cpp_qpp_xmpt_cd>");
    let ei_exempt = if t.ei_premiums.is_zero() && t.ei_insurable_earnings.is_zero() {
        "1"
    } else {
        "0"
    };
    put_tag(&mut out, "<ei_xmpt_cd>", ei_exempt, "</ei_xmpt_cd>");
    put_line(&mut out, "<rpt_tcd>O</rpt_tcd>");
    put_tag(&mut out, "<empt_prov_cd>", t.province_of_employment.as_str(), "</empt_prov_cd>");
    put_tag(
        &mut out,
        "<empr_dntl_ben_rpt_cd>",
        i64_text(t.dental_benefit as i64).as_str(),
        "</empr_dntl_ben_rpt_cd>",
    );
    put_line(&mut out, "<T4_AMT>");
    put_tag(
        &mut out,
        "<empt_incamt>",
        decimal_to_dollars_string(&t.employment_income).as_str(),
        "</empt_incamt>",
    );
    put_tag(
        &mut out,
        "<cpp_cntrb_amt>",
        decimal_to_dollars_string(&t.cpp_contributions).as_str(),
        "</cpp_cntrb_amt>",
    );
    put_tag(
        &mut out,
        "<cppe_cntrb_amt>",
        decimal_to_dollars_string(&t.cpp2_contributions).as_str(),
        "</cppe_cntrb_amt>",
    );
    put_tag(
        &mut out,
        "<empe_eip_amt>",
        decimal_to_dollars_string(&t.ei_premiums).as_str(),
        "</empe_eip_amt>",
    );
    put_tag(
        &mut out,
        "<itx_ddct_amt>",
        decimal_to_dollars_string(&t.income_tax_deducted).as_str(),
        "</itx_ddct_amt>",
    );
    put_tag(
        &mut out,
        "<ei_insu_ern_amt>",
        decimal_to_dollars_string(&t.ei_insurable_earnings).as_str(),
        "</ei_insu_ern_amt>",
    );
    put_tag(
        &mut out,
        "<cpp_qpp_ern_amt>",
        decimal_to_dollars_string(&t.cpp_pensionable_earnings).as_str(),
        "</cpp_qpp_ern_amt>",
    );
    put_line(&mut out, "</T4_AMT>");
    put_line(&mut out, "<OTH_INFO>");
    let ghost before_rpp = out@;
    if !t.rpp_contributions.is_zero() {
        put_tag(
            &mut out,
            "<rpp_amt>",
            decimal_to_dollars_string(&t.rpp_contributions).as_str(),
            "</rpp_amt>",
        );
    } else {
        assert(out@ =~= before_rpp + Seq::<char>::empty());
    }
    let ghost before_pa = out@;
    if !t.pension_adjustment.is_zero() {
        put_tag(
            &mut out,
            "<pen_adj_amt>",
            decimal_to_dollars_string(&t.pension_adjustment).as_str(),
            "</pen_adj_amt>",
        );
    } else {
        assert(out@ =~= before_pa + Seq::<char>::empty());
    }
    put_line(&mut out, "</OTH_INFO>");
    put_line(&mut out, "</T4Slip>");
    out
}

fn summary_xml(year: i32, company: &Company, tr: &T619Transmitter, n: usize, totals: &Vec<Dec>) -> (r:
    String)
    requires
        totals@.len() == 8,
        forall|i: int| 0 <= i < 8 ==> (#[trigger] totals@[i]).wf(),
        n <= i64::MAX,
    ensures
        r@ == xml_summary_text(year, *company, *tr, n as int, totals@),
{
    reveal(xml_summary_text);
    let bn = match &company.business_number {
        Some(b) => escape_xml(b.as_str()),
        None => escape_xml(""),
    };
    proof {
        reveal_strlit("");
        assert(""@ =~= Seq::<char>::empty());
    }
    let mut out = String::new();
    put_line(&mut out, "<T4Summary>");
    put_tag(&mut out, "<bn>", bn.as_str(), "</bn>");
    put_line(&mut out, "<EMPR_NM>");
    put_tag(&mut out, "<l1_nm>", escape_xml(company.name.as_str()).as_str(), "</l1_nm>");
    put_line(&mut out, "</EMPR_NM>");
    put_line(&mut out, "<EMPR_ADDR>");
    put_tag(
        &mut out,
        "<addr_l1_txt>",
        escape_xml(company.address.as_str()).as_str(),
        "</addr_l1_txt>",
    );
    put_line(&mut out, "<addr_l2_txt></addr_l2_txt>");
    put_line(&mut out, "<cty_nm></cty_nm>");
    put_tag(&mut out, "<prov_cd>", company.province.code(), "</prov_cd>");
    put_line(&mut out, "<cntry_cd>CAN</cntry_cd>");
    put_line(&mut out, "<pstl_cd></pstl_cd>");
    put_line(&mut out, "</EMPR_ADDR>");
    put_line(&mut out, "<CNTC>");
    put_tag(&mut out, "<cntc_nm>", escape_xml(tr.contact_name.as_str()).as_str(), "</cntc_nm>");
    put_tag(
        &mut out,
        "<cntc_area_cd>",
        escape_xml(tr.phone_area.as_str()).as_str(),
        "</cntc_area_cd>",
    );
    put_tag(&mut out, "<cntc_phn_nbr>", escape_xml(tr.phone.as_str()).as_str(), "</cntc_phn_nbr>");
    put_line(&mut out, "</CNTC>");
    put_tag(&mut out, "<tx_yr>", i64_text(year as i64).as_str(), "</tx_yr>");
    put_tag(&mut out, "<slp_cnt>", i64_text(n as i64).as_str(), "</slp_cnt>");
    put_line(&mut out, "<rpt_tcd>O</rpt_tcd>");
    put_line(&mut out, "<T4_TAMT>");
    put_tag(
        &mut out,
        "<tot_empt_incamt>",
        decimal_to_dollars_string(&totals[0]).as_str(),
        "</tot_empt_incamt>",
    );
    put_tag(
        &mut out,
        "<tot_empe_cpp_amt>",
        decimal_to_dollars_string(&totals[1]).as_str(),
        "</tot_empe_cpp_amt>",
    );
    put_tag(
        &mut out,
        "<tot_empe_cppe_amt>",
        decimal_to_dollars_string(&totals[2]).as_str(),
        "</tot_empe_cppe_amt>",
    );
    put_tag(
        &mut out,
        "<tot_empe_eip_amt>",
        decimal_to_dollars_string(&totals[3]).as_str(),
        "</tot_empe_eip_amt>",
    );
    put_tag(
        &mut out,
        "<tot_itx_ddct_amt>",
        decimal_to_dollars_string(&totals[4]).as_str(),
        "</tot_itx_ddct_amt>",
    );
    put_tag(
        &mut out,
        "<tot_empr_cpp_amt>",
        decimal_to_dollars_string(&totals[5]).as_str(),
        "</tot_empr_cpp_amt>",
    );
    put_tag(
        &mut out,
        "<tot_empr_cppe_amt>",
        decimal_to_dollars_string(&totals[6]).as_str(),
        "</tot_empr_cppe_amt>",
    );
    put_tag(
        &mut out,
        "<tot_empr_eip_amt>",
        decimal_to_dollars_string(&totals[7]).as_str(),
        "</tot_empr_eip_amt>",
    );
    put_line(&mut out, "</T4_TAMT>");
    put_line(&mut out, "</T4Summary>");
    put_line(&mut out, "</T4>");
    put_line(&mut out, "</Return>");
    put_line(&mut out, "</Submission>");
    out
}

/// The CRA XML submission of a year's slips (T619 transmitter, the slips,
/// the employer's summary); `None` where a summary total overflows.
pub fn t4_xml_document(
    year: i32,
    company: &Company,
    t4_slips: &Vec<T4Data>,
    transmitter: &T619Transmitter,
) -> (r: Option<String>)
    requires
        slips_wf(t4_slips@),
        t4_slips@.len() <= i64::MAX,
    ensures
        match t4_xml_text(year, *company, t4_slips@, *transmitter) {
            None => r is None,
            Some(t) => r matches Some(s) && s@ == t,
        },
{
    let n = t4_slips.len();
    let inc = total_of(t4_slips, SlipField::EmploymentIncome)?;
    let cpp = total_of(t4_slips, SlipField::Cpp)?;
    let cpp2 = total_of(t4_slips, SlipField::Cpp2)?;
    let ei = total_of(t4_slips, SlipField::Ei)?;
    let tax = total_of(t4_slips, SlipField::IncomeTax)?;
    let empr_ei = checked_mul(ei, Dec::new(14, 1))?;
    let mut totals: Vec<Dec> = Vec::new();
    totals.push(inc);
    totals.push(cpp);
    totals.push(cpp2);
    totals.push(ei);
    totals.push(tax);
    totals.push(cpp);
    totals.push(cpp2);
    totals.push(empr_ei);
    let ghost tot = xml_totals(t4_slips@)->0;
    assert(totals@ =~= tot);
    let bn = match &company.business_number {
        Some(b) => to_owned_string(b.as_str()),
        None => String::new(),
    };
    let mut out = header_xml(transmitter, n);
    let ghost head = out@;
    let mut i: usize = 0;
    proof {
        assert(t4_slips@.subrange(0, 0).len() == 0);
        assert(out@ =~= head + xml_slips_text(t4_slips@.subrange(0, 0), bn@));
    }
    while i < n
        invariant
            n == t4_slips@.len(),
            i <= n,
            slips_wf(t4_slips@),
            out@ == head + xml_slips_text(t4_slips@.subrange(0, i as int), bn@),
        decreases n - i,
    {
        let part = slip_xml(&t4_slips[i], bn.as_str());
        push_str(&mut out, part.as_str());
        proof {
            let pre = t4_slips@.subrange(0, i + 1);
            assert(pre.drop_last() =~= t4_slips@.subrange(0, i as int));
            assert(pre.last() == t4_slips@[i as int]);
            assert(out@ =~= head + xml_slips_text(pre, bn@));
        }
        i = i + 1;
    }
    proof {
        assert(t4_slips@.subrange(0, n as int) =~= t4_slips@);
    }
    let summary = summary_xml(year, company, transmitter, n, &totals);
    push_str(&mut out, summary.as_str());
    Some(out)
}

// ---------------------------------------------------------------------
// The CSV files
// ---------------------------------------------------------------------

pub open spec fn strs(v: Seq<&str>) -> Seq<Seq<char>> {
    v.map_values(|s: &str| s@)
}

pub open spec fn strings(v: Seq<String>) -> Seq<Seq<char>> {
    v.map_values(|s: String| s@)
}

/// The header of the T4 CSV file.
pub open spec fn t4_csv_header_spec() -> Seq<Seq<char>> {
    seq![
        "TaxYear"@,
        "BusinessNumber"@,
        "EmployerName"@,
        "SIN"@,
        "EmployeeNumber"@,
        "LastName"@,
        "FirstName"@,
        "ProvinceOfEmployment"@,
        "Box14_EmploymentIncome"@,
        "Box16_CPPContributions"@,
        "Box16a_CPP2Contributions"@,
        "Box18_EIPremiums"@,
        "Box20_RPPContributions"@,
        "Box22_IncomeTaxDeducted"@,
        "Box24_EIInsurableEarnings"@,
        "Box26_CPPPensionableEarnings"@,
        "Box52_PensionAdjustment"@,
        "Box45_DentalBenefit"@,
        "EmploymentCode"@,
    ]
}

pub fn t4_csv_header() -> (r: Vec<&'static str>)
    ensures
        strs(r@) == t4_csv_header_spec(),
{
    let v = vec![
        "TaxYear",
        "BusinessNumber",
        "EmployerName",
        "SIN",
        "EmployeeNumber",
        "LastName",
        "FirstName",
        "ProvinceOfEmployment",
        "Box14_EmploymentIncome",
        "Box16_CPPContributions",
        "Box16a_CPP2Contributions",
        "Box18_EIPremiums",
        "Box20_RPPContributions",
        "Box22_IncomeTaxDeducted",
        "Box24_EIInsurableEarnings",
        "Box26_CPPPensionableEarnings",
        "Box52_PensionAdjustment",
        "Box45_DentalBenefit",
        "EmploymentCode",
    ];
    assert(strs(v@) =~= t4_csv_header_spec());
    v
}

/// The amounts of a slip in the CSV file, as whole cents, in column order
/// (boxes 14, 16, 16A, 18, 20, 22, 24, 26, 52), as the header names them.
pub open spec fn csv_amounts(t: T4Data) -> Seq<Dec> {
    seq![
        t.employment_income,
        t.cpp_contributions,
        t.cpp2_contributions,
        t.ei_premiums,
        t.rpp_contributions,
        t.income_tax_deducted,
        t.ei_insurable_earnings,
        t.cpp_pensionable_earnings,
        t.pension_adjustment,
    ]
}

/// A slip's row of the T4 CSV file; `None` where an amount in cents overflows.
pub open spec fn t4_csv_row_spec(year: i32, company: Company, t: T4Data) -> Option<Seq<Seq<char>>> {
    let a = csv_amounts(t);
    if exists|i: int| 0 <= i < 9 && #[trigger] cents_string_text(a[i]) is None {
        None
    } else {
        Some(
            seq![
                int_text(year as int),
                opt_text(company.business_number),
                company.name@,
                t.employee.sin@,
                t.employee.employee_number@,
                t.employee.last_name@,
                t.employee.first_name@,
                t.province_of_employment@,
            ] + Seq::new(9, |i: int| cents_string_text(a[i])->0) + seq![
                int_text(t.dental_benefit as int),
                opt_text(t.employment_code),
            ],
        )
    }
}

fn cents_text(value: &Dec) -> (r: Option<String>)
    requires
        value.wf(),
    ensures
        match cents_string_text(*value) {
            None => r is None,
            Some(t) => r matches Some(s) && s@ == t,
        },
{
    decimal_to_cents_string(value)
}

/// A slip's row of the T4 CSV file.
pub fn t4_csv_row(year: i32, company: &Company, t: &T4Data) -> (r: Option<Vec<String>>)
    requires
        t.wf(),
    ensures
        match t4_csv_row_spec(year, *company, *t) {
            None => r is None,
            Some(row) => r matches Some(v) && strings(v@) == row,
        },
{
    let ghost a = csv_amounts(*t);
    let c0 = match cents_text(&t.employment_income) {
        Some(x) => x,
        None => {
            assert(cents_string_text(a[0]) is None);
            return None;
        },
    };
    let c1 = match cents_text(&t.cpp_contributions) {
        Some(x) => x,
        None => {
            assert(cents_string_text(a[1]) is None);
            return None;
        },
    };
    let c2 = match cents_text(&t.cpp2_contributions) {
        Some(x) => x,
        None => {
            assert(cents_string_text(a[2]) is None);
            return None;
        },
    };
    let c3 = match cents_text(&t.ei_premiums) {
        Some(x) => x,
        None => {
            assert(cents_string_text(a[3]) is None);
            return None;
        },
    };
    let c4 = match cents_text(&t.rpp_contributions) {
        Some(x) => x,
        None => {
            assert(cents_string_text(a[4]) is None);
            return None;
        },
    };
    let c5 = match cents_text(&t.income_tax_deducted) {
        Some(x) => x,
        None => {
            assert(cents_string_text(a[5]) is None);
            return None;
        },
    };
    let c6 = match cents_text(&t.ei_insurable_earnings) {
        Some(x) => x,
        None => {
            assert(cents_string_text(a[6]) is None);
            return None;
        },
    };
    let c7 = match cents_text(&t.cpp_pensionable_earnings) {
        Some(x) => x,
        None => {
            assert(cents_string_text(a[7]) is None);
            return None;
        },
    };
    let c8 = match cents_text(&t.pension_adjustment) {
        Some(x) => x,
        None => {
            assert(cents_string_text(a[8]) is None);
            return None;
        },
    };
    let bn = match &company.business_number {
        Some(b) => to_owned_string(b.as_str()),
        None => String::new(),
    };
    let code = match &t.employment_code {
        Some(c) => to_owned_string(c.as_str()),
        None => String::new(),
    };
    let v = vec![
        i64_text(year as i64),
        bn,
        to_owned_string(company.name.as_str()),
        to_owned_string(t.employee.sin.as_str()),
        to_owned_string(t.employee.employee_number.as_str()),
        to_owned_string(t.employee.last_name.as_str()),
        to_owned_string(t.employee.first_name.as_str()),
        to_owned_string(t.province_of_employment.as_str()),
        c0,
        c1,
        c2,
        c3,
        c4,
        c5,
        c6,
        c7,
        c8,
        i64_text(t.dental_benefit as i64),
        code,
    ];
    proof {
        assert(forall|i: int| 0 <= i < 9 ==> #[trigger] cents_string_text(a[i]) is Some);
        let row = t4_csv_row_spec(year, *company, *t)->0;
        assert(strings(v@) =~= row);
    }
    Some(v)
}

/// The header of the T4 summary CSV file.
pub open spec fn t4_summary_csv_header_spec() -> Seq<Seq<char>> {
    seq![
        "TaxYear"@,
        "BusinessNumber"@,
        "EmployerName"@,
        "NumberOfSlips"@,
        "TotalEmploymentIncome"@,
        "TotalCPPContributions"@,
        "TotalEIPremiums"@,
        "TotalIncomeTaxDeducted"@,
        "TotalEIInsurableEarnings"@,
        "TotalCPPPensionableEarnings"@,
    ]
}

pub fn t4_summary_csv_header() -> (r: Vec<&'static str>)
    ensures
        strs(r@) == t4_summary_csv_header_spec(),
{
    let v = vec![
        "TaxYear",
        "BusinessNumber",
        "EmployerName",
        "NumberOfSlips",
        "TotalEmploymentIncome",
        "TotalCPPContributions",
        "TotalEIPremiums",
        "TotalIncomeTaxDeducted",
        "TotalEIInsurableEarnings",
        "TotalCPPPensionableEarnings",
    ];
    assert(strs(v@) =~= t4_summary_csv_header_spec());
    v
}

/// The totals of the summary CSV file, in column order (boxes 14, 16,
/// 18, 22, 24, 26).
pub open spec fn summary_csv_totals(slips: Seq<T4Data>) -> Seq<Option<Dec>> {
    seq![
        slip_total(slips, SlipField::EmploymentIncome),
        slip_total(slips, SlipField::Cpp),
        slip_total(slips, SlipField::Ei),
        slip_total(slips, SlipField::IncomeTax),
        slip_total(slips, SlipField::EiInsurable),
        slip_total(slips, SlipField::CppPensionable),
    ]
}

/// The row of the T4 summary CSV file; `None` where a total (or its
/// cents) overflows.
pub open spec fn t4_summary_csv_row_spec(year: i32, company: Company, slips: Seq<T4Data>) -> Option<Seq<Seq<char>>> {
    let tot = summary_csv_totals(slips);
    if exists|i: int|
        0 <= i < 6 && (#[trigger] tot[i] is None || cents_string_text(tot[i]->0) is None) {
        None
    } else {
        Some(
            seq![
                int_text(year as int),
                opt_text(company.business_number),
                company.name@,
                int_text(slips.len() as int),
            ] + Seq::new(6, |i: int| cents_string_text(tot[i]->0)->0),
        )
    }
}

fn total_cents_text(slips: &Vec<T4Data>, f: SlipField) -> (r: Option<String>)
    requires
        slips_wf(slips@),
    ensures
        match slip_total(slips@, f) {
            None => r is None,
            Some(d) => match cents_string_text(d) {
                None => r is None,
                Some(t) => r matches Some(s) && s@ == t,
            },
        },
{
    let total = total_of(slips, f)?;
    cents_text(&total)
}

/// The row of the T4 summary CSV file.
pub fn t4_summary_csv_row(year: i32, company: &Company, t4_slips: &Vec<T4Data>) -> (r: Option<Vec<String>>)
    requires
        slips_wf(t4_slips@),
        t4_slips@.len() <= i64::MAX,
    ensures
        match t4_summary_csv_row_spec(year, *company, t4_slips@) {
            None => r is None,
            Some(row) => r matches Some(v) && strings(v@) == row,
        },
{
    let ghost tot = summary_csv_totals(t4_slips@);
    let c0 = match total_cents_text(t4_slips, SlipField::EmploymentIncome) {
        Some(x) => x,
        None => {
            assert(tot[0] is None || cents_string_text(tot[0]->0) is None);
            return None;
        },
    };
    let c1 = match total_cents_text(t4_slips, SlipField::Cpp) {
        Some(x) => x,
        None => {
            assert(tot[1] is None || cents_string_text(tot[1]->0) is None);
            return None;
        },
    };
    let c2 = match total_cents_text(t4_slips, SlipField::Ei) {
        Some(x) => x,
        None => {
            assert(tot[2] is None || cents_string_text(tot[2]->0) is None);
            return None;
        },
    };
    let c3 = match total_cents_text(t4_slips, SlipField::IncomeTax) {
        Some(x) => x,
        None => {
            assert(tot[3] is None || cents_string_text(tot[3]->0) is None);
            return None;
        },
    };
    let c4 = match total_cents_text(t4_slips, SlipField::EiInsurable) {
        Some(x) => x,
        None => {
            assert(tot[4] is None || cents_string_text(tot[4]->0) is None);
            return None;
        },
    };
    let c5 = match total_cents_text(t4_slips, SlipField::CppPensionable) {
        Some(x) => x,
        None => {
            assert(tot[5] is None || cents_string_text(tot[5]->0) is None);
            return None;
        },
    };
    let bn = match &company.business_number {
        Some(b) => to_owned_string(b.as_str()),
        None => String::new(),
    };
    let v = vec![
        i64_text(year as i64),
        bn,
        to_owned_string(company.name.as_str()),
        i64_text(t4_slips.len() as i64),
        c0,
        c1,
        c2,
        c3,
        c4,
        c5,
    ];
    proof {
        assert(forall|i: int|
            0 <= i < 6 ==> !(#[trigger] tot[i] is None || cents_string_text(tot[i]->0) is None));
        let row = t4_summary_csv_row_spec(year, *company, t4_slips@)->0;
        assert(strings(v@) =~= row);
    }
    Some(v)
}
} // verus!
