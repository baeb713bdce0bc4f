//! The stored form of pays and employees: amounts as whole cents, rates
//! as basis points, hours as thousandths and dates as text, with the
//! messages for values that cannot be stored or read back.
use vstd::prelude::*;
use crate::date::{Date, Timestamp, date_text, iso_date_text};
use crate::db::currency::{
    CurrencyError, cents_to_decimal, cents_to_decimal_signed, decimal_to_cents,
    decimal_to_cents_signed, decimal_to_cents_signed_spec, decimal_to_cents_spec,
};
use crate::db::error::DbError;
use crate::db::utils::{
    basis_points_of, basis_points_to_decimal, decimal_to_basis_points,
    decimal_to_days_thousandths, exact_product, rounded_thousandths_of, scaled_int,
};
use crate::decimal::{Dec, dec_display_text, display_text, lit};
use crate::models::employee::{Address, Employee, PayType, pay_type_of_text};
use crate::models::payroll_record::{AdditionalDeduction, AdditionalEarning, Payroll};
use crate::text::{i64_text, int_text, push_str, text_lowercase, to_lowercase, to_owned_string};

verus! {

// ---------------------------------------------------------------------
// Pays
// ---------------------------------------------------------------------

/// The amounts as whole cents, in order, or the error of the first that
/// cannot be stored.
pub open spec fn cents_of_all(xs: Seq<Dec>) -> Result<Seq<i64>, CurrencyError>
    decreases xs.len(),
{
    if xs.len() == 0 {
        Ok(Seq::empty())
    } else {
        match cents_of_all(xs.drop_last()) {
            Err(e) => Err(e),
            Ok(cs) => match decimal_to_cents_spec(xs.last()) {
                Err(e) => Err(e),
                Ok(c) => Ok(cs.push(c)),
            },
        }
    }
}

proof fn lemma_cents_of_all_err_extends(xs: Seq<Dec>, k: int)
    requires
        0 <= k <= xs.len(),
        cents_of_all(xs.subrange(0, k)) is Err,
    ensures
        cents_of_all(xs) == cents_of_all(xs.subrange(0, k)),
    decreases xs.len(),
{
    if k == xs.len() {
        assert(xs.subrange(0, k) =~= xs);
    } else {
        let t = xs.drop_last();
        assert(t.subrange(0, k) =~= xs.subrange(0, k));
        lemma_cents_of_all_err_extends(t, k);
    }
}

/// Amounts as whole cents for storage; the first that cannot be stored
/// gives `InvalidData` with the currency error's text.
pub fn amounts_to_cents(xs: &Vec<Dec>) -> (r: Result<Vec<i64>, DbError>)
    requires
        forall|i: int| 0 <= i < xs@.len() ==> (#[trigger] xs@[i]).wf(),
    ensures
        match cents_of_all(xs@) {
            Ok(cs) => r matches Ok(v) && v@ == cs,
            Err(e) => r matches Err(DbError::InvalidData(m)) && m@ == e.message_text(),
        },
{
    let n = xs.len();
    let mut out: Vec<i64> = Vec::new();
    let mut i: usize = 0;
    proof {
        assert(xs@.subrange(0, 0) =~= Seq::<Dec>::empty());
    }
    while i < n
        invariant
            n == xs@.len(),
            i <= n,
            forall|j: int| 0 <= j < xs@.len() ==> (#[trigger] xs@[j]).wf(),
            cents_of_all(xs@.subrange(0, i as int)) == Ok::<Seq<i64>, CurrencyError>(out@),
        decreases n - i,
    {
        proof {
            assert(xs@.subrange(0, i + 1).drop_last() =~= xs@.subrange(0, i as int));
            assert(xs@.subrange(0, i + 1).last() == xs@[i as int]);
        }
        match decimal_to_cents(&xs[i]) {
            Ok(c) => {
                out.push(c);
            },
            Err(e) => {
                proof {
                    lemma_cents_of_all_err_extends(xs@, i + 1);
                }
                return Err(DbError::InvalidData(e.message()));
            },
        }
        i = i + 1;
    }
    proof {
        assert(xs@.subrange(0, n as int) =~= xs@);
    }
    Ok(out)
}

/// The amounts that a new pay's row stores, in column order: gross pay,
/// additional earnings, insured earning, additional tax, CPP, CPP2, EI,
/// federal and provincial tax, additional deductions, net pay, and the
/// federal and provincial personal amounts.
pub open spec fn payroll_row_amounts(p: Payroll) -> Seq<Dec> {
    seq![
        p.gross_pay,
        p.additional_earnings_total,
        p.insured_earning,
        p.additional_tax_amount,
        p.deductions.cpp,
        p.deductions.cpp2,
        p.deductions.ei,
        p.deductions.federal_tax,
        p.deductions.provincial_tax,
        p.additional_deductions,
        p.net_pay,
        p.federal_personal_amount,
        p.provincial_personal_amount,
    ]
}

/// The amounts that an update of a pay's row stores: those of a new row
/// without the personal amounts.
pub open spec fn payroll_update_amounts(p: Payroll) -> Seq<Dec> {
    payroll_row_amounts(p).subrange(0, 11)
}

/// A new pay's row amounts as cents (see `payroll_row_amounts`).
pub fn payroll_row_cents(p: &Payroll) -> (r: Result<Vec<i64>, DbError>)
    requires
        p.wf(),
    ensures
        match cents_of_all(payroll_row_amounts(*p)) {
            Ok(cs) => r matches Ok(v) && v@ == cs,
            Err(e) => r matches Err(DbError::InvalidData(m)) && m@ == e.message_text(),
        },
{
    let v = vec![
        p.gross_pay,
        p.additional_earnings_total,
        p.insured_earning,
        p.additional_tax_amount,
        p.deductions.cpp,
        p.deductions.cpp2,
        p.deductions.ei,
        p.deductions.federal_tax,
        p.deductions.provincial_tax,
        p.additional_deductions,
        p.net_pay,
        p.federal_personal_amount,
        p.provincial_personal_amount,
    ];
    assert(v@ =~= payroll_row_amounts(*p));
    amounts_to_cents(&v)
}

/// The amounts as whole cents, negative ones included, in order, or the
/// error of the first that cannot be stored.
pub open spec fn signed_cents_of_all(xs: Seq<Dec>) -> Result<Seq<i64>, CurrencyError>
    decreases xs.len(),
{
    if xs.len() == 0 {
        Ok(Seq::empty())
    } else {
        match signed_cents_of_all(xs.drop_last()) {
            Err(e) => Err(e),
            Ok(cs) => match decimal_to_cents_signed_spec(xs.last()) {
                Err(e) => Err(e),
                Ok(c) => Ok(cs.push(c)),
            },
        }
    }
}

proof fn lemma_signed_cents_of_all_err_extends(xs: Seq<Dec>, k: int)
    requires
        0 <= k <= xs.len(),
        signed_cents_of_all(xs.subrange(0, k)) is Err,
    ensures
        signed_cents_of_all(xs) == signed_cents_of_all(xs.subrange(0, k)),
    decreases xs.len(),
{
    if k == xs.len() {
        assert(xs.subrange(0, k) =~= xs);
    } else {
        let t = xs.drop_last();
        assert(t.subrange(0, k) =~= xs.subrange(0, k));
        lemma_signed_cents_of_all_err_extends(t, k);
    }
}

/// Amounts as whole cents for storage, negative ones included; the first
/// that cannot be stored gives `InvalidData` with the currency error's text.
pub fn amounts_to_signed_cents(xs: &Vec<Dec>) -> (r: Result<Vec<i64>, DbError>)
    requires
        forall|i: int| 0 <= i < xs@.len() ==> (#[trigger] xs@[i]).wf(),
    ensures
        match signed_cents_of_all(xs@) {
            Ok(cs) => r matches Ok(v) && v@ == cs,
            Err(e) => r matches Err(DbError::InvalidData(m)) && m@ == e.message_text(),
        },
{
    let n = xs.len();
    let mut out: Vec<i64> = Vec::new();
    let mut i: usize = 0;
    proof {
        assert(xs@.subrange(0, 0) =~= Seq::<Dec>::empty());
    }
    while i < n
        invariant
            n == xs@.len(),
            i <= n,
            forall|j: int| 0 <= j < xs@.len() ==> (#[trigger] xs@[j]).wf(),
            signed_cents_of_all(xs@.subrange(0, i as int)) == Ok::<Seq<i64>, CurrencyError>(out@),
        decreases n - i,
    {
        proof {
            assert(xs@.subrange(0, i + 1).drop_last() =~= xs@.subrange(0, i as int));
            assert(xs@.subrange(0, i + 1).last() == xs@[i as int]);
        }
        match decimal_to_cents_signed(&xs[i]) {
            Ok(c) => {
                out.push(c);
            },
            Err(e) => {
                proof {
                    lemma_signed_cents_of_all_err_extends(xs@, i + 1);
                }
                return Err(DbError::InvalidData(e.message()));
            },
        }
        i = i + 1;
    }
    proof {
        assert(xs@.subrange(0, n as int) =~= xs@);
    }
    Ok(out)
}

/// An imported pay's row amounts as cents (see `payroll_row_amounts`),
/// zero and negative amounts included.
pub fn payroll_row_signed_cents(p: &Payroll) -> (r: Result<Vec<i64>, DbError>)
    requires
        p.wf(),
    ensures
        match signed_cents_of_all(payroll_row_amounts(*p)) {
            Ok(cs) => r matches Ok(v) && v@ == cs,
            Err(e) => r matches Err(DbError::InvalidData(m)) && m@ == e.message_text(),
        },
{
    let v = vec![
        p.gross_pay,
        p.additional_earnings_total,
        p.insured_earning,
        p.additional_tax_amount,
        p.deductions.cpp,
        p.deductions.cpp2,
        p.deductions.ei,
        p.deductions.federal_tax,
        p.deductions.provincial_tax,
        p.additional_deductions,
        p.net_pay,
        p.federal_personal_amount,
        p.provincial_personal_amount,
    ];
    assert(v@ =~= payroll_row_amounts(*p));
    amounts_to_signed_cents(&v)
}

/// An updated pay's row amounts as cents (see `payroll_update_amounts`).
pub fn payroll_update_cents(p: &Payroll) -> (r: Result<Vec<i64>, DbError>)
    requires
        p.wf(),
    ensures
        match cents_of_all(payroll_update_amounts(*p)) {
            Ok(cs) => r matches Ok(v) && v@ == cs,
            Err(e) => r matches Err(DbError::InvalidData(m)) && m@ == e.message_text(),
        },
{
    let v = vec![
        p.gross_pay,
        p.additional_earnings_total,
        p.insured_earning,
        p.additional_tax_amount,
        p.deductions.cpp,
        p.deductions.cpp2,
        p.deductions.ei,
        p.deductions.federal_tax,
        p.deductions.provincial_tax,
        p.additional_deductions,
        p.net_pay,
    ];
    assert(v@ =~= payroll_update_amounts(*p));
    amounts_to_cents(&v)
}

/// Stored hours: thousandths rounded half to even (see
/// `rounded_thousandths_of`); an error where the product overflows.
pub fn stored_hours(h: Option<Dec>) -> (r: Result<Option<i64>, DbError>)
    requires
        h matches Some(v) ==> v.wf(),
    ensures
        match h {
            None => r == Ok::<Option<i64>, DbError>(None),
            Some(v) => match rounded_thousandths_of(v) {
                Some(t) => r == Ok::<Option<i64>, DbError>(Some(t)),
                None => r matches Err(DbError::InvalidData(m)) && m@ == "Hours out of range"@,
            },
        },
{
    match h {
        None => Ok(None),
        Some(v) => match decimal_to_days_thousandths(&v) {
            Some(t) => Ok(Some(t)),
            None => Err(DbError::InvalidData(to_owned_string("Hours out of range"))),
        },
    }
}

/// A deduction as stored: its name in lowercase and its amount in cents.
pub fn deduction_row(d: &AdditionalDeduction) -> (r: Result<(String, i64), DbError>)
    requires
        d.amount.wf(),
    ensures
        match decimal_to_cents_spec(d.amount) {
            Ok(c) => r matches Ok(t) && t.0@ == text_lowercase(d.name@) && t.1 == c,
            Err(e) => r matches Err(DbError::InvalidData(m)) && m@ == e.message_text(),
        },
{
    match decimal_to_cents(&d.amount) {
        Ok(c) => Ok((to_lowercase(d.name.as_str()), c)),
        Err(e) => Err(DbError::InvalidData(e.message())),
    }
}

/// An earning as stored.
#[derive(Debug, Clone)]
pub struct EarningRow {
    /// The type in lowercase.
    pub earning_type: String,
    /// The amount in cents.
    pub amount: i64,
    /// The hours in thousandths.
    pub hours: Option<i64>,
    pub is_periodic: bool,
}

/// An earning's stored form (see `EarningRow`); the amount's error comes
/// before the hours'.
pub fn earning_row(e: &AdditionalEarning) -> (r: Result<EarningRow, DbError>)
    requires
        e.amount.wf(),
        e.hours matches Some(h) ==> h.wf(),
    ensures
        match decimal_to_cents_spec(e.amount) {
            Err(err) => r matches Err(DbError::InvalidData(m)) && m@ == err.message_text(),
            Ok(c) => match e.hours {
                None => r matches Ok(row) && row.amount == c && row.hours is None
                    && row.earning_type@ == text_lowercase(e.earning_type@) && row.is_periodic
                    == e.is_periodic,
                Some(h) => match rounded_thousandths_of(h) {
                    None => r matches Err(DbError::InvalidData(m)) && m@ == "Hours out of range"@,
                    Some(t) => r matches Ok(row) && row.amount == c && row.hours == Some(t)
                        && row.earning_type@ == text_lowercase(e.earning_type@) && row.is_periodic
                        == e.is_periodic,
                },
            },
        },
{
    let amount = match decimal_to_cents(&e.amount) {
        Ok(c) => c,
        Err(err) => return Err(DbError::InvalidData(err.message())),
    };
    let hours = stored_hours(e.hours)?;
    Ok(
        EarningRow {
            earning_type: to_lowercase(e.earning_type.as_str()),
            amount,
            hours,
            is_periodic: e.is_periodic,
        },
    )
}

// ---------------------------------------------------------------------
// Employees
// ---------------------------------------------------------------------

/// An employee's columns that need converting.
#[derive(Debug, Clone)]
pub struct EmployeeColumns {
    pub pay_rate: i64,
    pub date_of_birth: String,
    pub vacation_pay_rate: i64,
    pub vacation_balance: i64,
    /// Thousandths of a day.
    pub vacation_balance_days: i64,
    pub overtime_multiplier: i64,
    pub hire_date: String,
    pub termination_date: Option<String>,
}

/// `Employee #N (First Last): field is invalid — detail`.
pub open spec fn employee_problem(e: Employee, field: Seq<char>, detail: Seq<char>) -> Seq<char> {
    "Employee #"@ + e.employee_number@ + " ("@ + e.first_name@ + " "@ + e.last_name@ + "): "@ + field
        + " is invalid \u{2014} "@ + detail
}

fn employee_problem_text(e: &Employee, field: &str, detail: &str) -> (r: String)
    ensures
        r@ == employee_problem(*e, field@, detail@),
{
    let mut m = to_owned_string("Employee #");
    push_str(&mut m, e.employee_number.as_str());
    push_str(&mut m, " (");
    push_str(&mut m, e.first_name.as_str());
    push_str(&mut m, " ");
    push_str(&mut m, e.last_name.as_str());
    push_str(&mut m, "): ");
    push_str(&mut m, field);
    push_str(&mut m, " is invalid \u{2014} ");
    push_str(&mut m, detail);
    proof {
        assert(m@ =~= employee_problem(*e, field@, detail@));
    }
    m
}

/// The message of a vacation balance that cannot be stored.
pub open spec fn balance_problem(e: Employee, field: Seq<char>, err: CurrencyError, value: Dec) -> Seq<char> {
    employee_problem(e, field, err.message_text() + " (value: "@ + dec_display_text(value) + ")"@)
}

fn balance_problem_text(e: &Employee, field: &str, err: &CurrencyError, value: Dec) -> (r: String)
    requires
        err.payload_wf(),
        value.wf(),
    ensures
        r@ == balance_problem(*e, field@, *err, value),
{
    let mut detail = err.message();
    push_str(&mut detail, " (value: ");
    let v = display_text(value);
    push_str(&mut detail, v.as_str());
    push_str(&mut detail, ")");
    employee_problem_text(e, field, detail.as_str())
}

/// What storing an employee gives, checked in column order: the pay rate
/// in cents (a currency error), the vacation rate in basis points, the
/// vacation balance in cents (an `InvalidData` naming the employee and
/// the field), the vacation days in thousandths (see
/// `rounded_thousandths_of`, which for days with at most three decimals is
/// exact: see `law_days_thousandths_roundtrip`; "Days out of range" where
/// the product overflows), the overtime multiplier in basis points, and the dates as
/// `YYYY-MM-DD`.  A rate whose product overflows gives `InvalidData`
/// "Rate out of range".
pub fn employee_columns(e: &Employee) -> (r: Result<EmployeeColumns, DbError>)
    requires
        e.wf(),
    ensures
        match decimal_to_cents_spec(e.pay_rate) {
            Err(err) => r matches Err(DbError::Currency(x)) && x == err,
            Ok(pay) => match (basis_points_of(e.vacation_pay_rate), decimal_to_cents_signed_spec(
                e.vacation_balance,
            ), rounded_thousandths_of(e.vacation_balance_days), basis_points_of(
                e.overtime_multiplier,
            )) {
                (None, _, _, _) => r matches Err(DbError::InvalidData(m)) && m@ == "Rate out of range"@,
                (Some(_), Err(err), _, _) => r matches Err(DbError::InvalidData(m)) && m@
                    == balance_problem(*e, "vacation_balance"@, err, e.vacation_balance),
                (Some(_), Ok(_), None, _) => r matches Err(DbError::InvalidData(m)) && m@
                    == "Days out of range"@,
                (Some(_), Ok(_), Some(_), None) => r matches Err(DbError::InvalidData(m)) && m@
                    == "Rate out of range"@,
                (Some(vr), Ok(vb), Some(vd), Some(ot)) => r matches Ok(c) && c.pay_rate == pay
                    && c.vacation_pay_rate == vr && c.vacation_balance == vb
                    && c.vacation_balance_days == vd && c.overtime_multiplier == ot
                    && c.date_of_birth@ == iso_date_text(e.date_of_birth) && c.hire_date@
                    == iso_date_text(e.hire_date) && match e.termination_date {
                    None => c.termination_date is None,
                    Some(t) => c.termination_date matches Some(s) && s@ == iso_date_text(t),
                },
            },
        },
        (e.vacation_balance_days.scale <= 3 && exact_product(e.vacation_balance_days, 1000)) ==> (
        r matches Ok(c) ==> c.vacation_balance_days == scaled_int(e.vacation_balance_days, 1000)),
{
    let pay_rate = match decimal_to_cents(&e.pay_rate) {
        Ok(c) => c,
        Err(err) => return Err(DbError::Currency(err)),
    };
    let vacation_pay_rate = match decimal_to_basis_points(&e.vacation_pay_rate) {
        Some(v) => v,
        None => return Err(DbError::InvalidData(to_owned_string("Rate out of range"))),
    };
    let vacation_balance = match decimal_to_cents_signed(&e.vacation_balance) {
        Ok(c) => c,
        Err(err) => {
            return Err(
                DbError::InvalidData(
                    balance_problem_text(e, "vacation_balance", &err, e.vacation_balance),
                ),
            )
        },
    };
    let vacation_balance_days = match decimal_to_days_thousandths(&e.vacation_balance_days) {
        Some(t) => t,
        None => return Err(DbError::InvalidData(to_owned_string("Days out of range"))),
    };
    let overtime_multiplier = match decimal_to_basis_points(&e.overtime_multiplier) {
        Some(v) => v,
        None => return Err(DbError::InvalidData(to_owned_string("Rate out of range"))),
    };
    let termination_date = match e.termination_date {
        Some(t) => Some(date_text(t)),
        None => None,
    };
    Ok(
        EmployeeColumns {
            pay_rate,
            date_of_birth: date_text(e.date_of_birth),
            vacation_pay_rate,
            vacation_balance,
            vacation_balance_days,
            overtime_multiplier,
            hire_date: date_text(e.hire_date),
            termination_date,
        },
    )
}

/// An employee's row as read from the database, before conversion.
#[derive(Debug, Clone)]
pub struct StoredEmployee {
    pub id: i64,
    pub employee_number: String,
    pub first_name: String,
    pub last_name: String,
    pub notes: Option<String>,
    pub sin: String,
    pub address: Address,
    pub pay_type: String,
    pub pay_rate_cents: i64,
    pub date_of_birth: Date,
    pub vacation_pay_rate_bp: i64,
    pub vacation_balance_cents: i64,
    pub vacation_balance_days_thousandths: i64,
    pub overtime_multiplier_bp: i64,
    pub ei_exempt: i32,
    pub cpp_exempt: i32,
    pub hire_date: Date,
    pub hire_province: String,
    pub termination_date: Option<Date>,
    pub dental_benefit: i32,
    pub is_active: i32,
    pub created_at: Timestamp,
}

/// `Employee #N (First Last): field is invalid — detail` for a stored row.
pub open spec fn stored_problem(s: StoredEmployee, field: Seq<char>, detail: Seq<char>) -> Seq<char> {
    "Employee #"@ + s.employee_number@ + " ("@ + s.first_name@ + " "@ + s.last_name@ + "): "@ + field
        + " is invalid \u{2014} "@ + detail
}

fn stored_problem_text(s: &StoredEmployee, field: &str, detail: &str) -> (r: String)
    ensures
        r@ == stored_problem(*s, field@, detail@),
{
    let mut m = to_owned_string("Employee #");
    push_str(&mut m, s.employee_number.as_str());
    push_str(&mut m, " (");
    push_str(&mut m, s.first_name.as_str());
    push_str(&mut m, " ");
    push_str(&mut m, s.last_name.as_str());
    push_str(&mut m, "): ");
    push_str(&mut m, field);
    push_str(&mut m, " is invalid \u{2014} ");
    push_str(&mut m, detail);
    proof {
        assert(m@ =~= stored_problem(*s, field@, detail@));
    }
    m
}

pub open spec fn pay_type_problem(t: Seq<char>) -> Seq<char> {
    "unknown type '"@ + t + "' (expected Hourly, Weekly, Monthly, or Annual)"@
}

impl StoredEmployee {
    /// The employee of a stored row: the pay type read without regard to
    /// case, the pay rate from cents (refused when negative), the rates
    /// from basis points, the balance from cents, the days from
    /// thousandths, the flags from
    /// integers (non-zero is true).  The error names the employee and the
    /// field.
    pub fn decode(self) -> (r: Result<Employee, String>)
        ensures
            match pay_type_of_text(text_lowercase(self.pay_type@)) {
                None => r matches Err(m) && m@ == stored_problem(
                    self,
                    "pay_type"@,
                    pay_type_problem(self.pay_type@),
                ),
                Some(pt) => if self.pay_rate_cents < 0 {
                    r matches Err(m) && m@ == stored_problem(
                        self,
                        "pay_rate"@,
                        CurrencyError::Negative(lit(self.pay_rate_cents as int, 2)).message_text()
                            + " (stored as "@ + int_text(self.pay_rate_cents as int) + " cents)"@,
                    )
                } else {
                    r matches Ok(e) && e.id == Some(self.id) && e.employee_number@
                        == self.employee_number@ && e.first_name@ == self.first_name@
                        && e.last_name@ == self.last_name@ && e.pay_type == pt && e.pay_rate
                        == lit(self.pay_rate_cents as int, 2) && e.vacation_pay_rate == lit(
                        self.vacation_pay_rate_bp as int,
                        4,
                    ) && e.vacation_balance == lit(self.vacation_balance_cents as int, 2)
                        && e.vacation_balance_days == lit(
                        self.vacation_balance_days_thousandths as int,
                        3,
                    )
                        && e.overtime_multiplier == lit(self.overtime_multiplier_bp as int, 4)
                        && e.ei_exempt == (self.ei_exempt != 0) && e.cpp_exempt == (self.cpp_exempt
                        != 0) && e.is_active == (self.is_active != 0) && e.date_of_birth
                        == self.date_of_birth && e.hire_date == self.hire_date && e.termination_date
                        == self.termination_date && e.dental_benefit == self.dental_benefit
                        && e.created_at == self.created_at && e.sin@ == self.sin@
                        && e.hire_province@ == self.hire_province@
                },
            },
    {
        let pay_type = match PayType::from_str(self.pay_type.as_str()) {
            Some(p) => p,
            None => {
                let mut detail = to_owned_string("unknown type '");
                push_str(&mut detail, self.pay_type.as_str());
                push_str(&mut detail, "' (expected Hourly, Weekly, Monthly, or Annual)");
                return Err(stored_problem_text(&self, "pay_type", detail.as_str()));
            },
        };
        let pay_rate = match cents_to_decimal(self.pay_rate_cents) {
            Ok(d) => d,
            Err(err) => {
                let mut detail = err.message();
                push_str(&mut detail, " (stored as ");
                let c = i64_text(self.pay_rate_cents);
                push_str(&mut detail, c.as_str());
                push_str(&mut detail, " cents)");
                return Err(stored_problem_text(&self, "pay_rate", detail.as_str()));
            },
        };
        let vacation_balance = Dec::new(self.vacation_balance_cents, 2);
        let vacation_balance_days = Dec::new(self.vacation_balance_days_thousandths, 3);
        let vacation_pay_rate = basis_points_to_decimal(self.vacation_pay_rate_bp);
        let overtime_multiplier = basis_points_to_decimal(self.overtime_multiplier_bp);
        Ok(
            Employee {
                id: Some(self.id),
                is_active: self.is_active != 0,
                employee_number: self.employee_number,
                first_name: self.first_name,
                last_name: self.last_name,
                sin: self.sin,
                address: self.address,
                pay_type,
                pay_rate,
                notes: self.notes,
                date_of_birth: self.date_of_birth,
                vacation_pay_rate,
                vacation_balance,
                vacation_balance_days,
                overtime_multiplier,
                ei_exempt: self.ei_exempt != 0,
                cpp_exempt: self.cpp_exempt != 0,
                hire_date: self.hire_date,
                hire_province: self.hire_province,
                termination_date: self.termination_date,
                dental_benefit: self.dental_benefit,
                created_at: self.created_at,
            },
        )
    }
}

} // verus!
