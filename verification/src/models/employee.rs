//! Employees and how they are paid.
use vstd::prelude::*;
use crate::date::{Date, Timestamp, age_between, age_on, date_before, today_local, utc_now};
use crate::decimal::{Dec, dec_lt, dec_le, lit, zero_dec};
use crate::error::{ErrorKind, PayrollError};
use crate::text::{
    all_ascii, ascii_digits, ascii_lower, digits_of, i64_text, int_text, push_str, str_eq,
    text_lowercase, text_trim, to_lowercase, to_owned_string, trim,
};

verus! {

/// How an employee's pay rate is expressed.
#[derive(Debug, Clone, Copy, PartialEq, Eq, Hash, Structural)]
pub enum PayType {
    Hourly,
    Weekly,
    Monthly,
    Annual,
}

pub open spec fn pay_type_text(v: PayType) -> Seq<char> {
    match v {
        PayType::Hourly => "Hourly"@,
        PayType::Weekly => "Weekly"@,
        PayType::Monthly => "Monthly"@,
        PayType::Annual => "Annual"@,
    }
}

/// The variant whose stored text is exactly `s`.
pub open spec fn pay_type_of_text(s: Seq<char>) -> Option<PayType> {
    if s == "hourly"@ {
        Some(PayType::Hourly)
    } else if s == "weekly"@ {
        Some(PayType::Weekly)
    } else if s == "monthly"@ {
        Some(PayType::Monthly)
    } else if s == "annual"@ {
        Some(PayType::Annual)
    } else {
        None
    }
}

pub fn pay_type_of_exact_text(s: &str) -> (r: Option<PayType>)
    ensures
        r == pay_type_of_text(s@),
{
    if str_eq(s, "hourly") {
        Some(PayType::Hourly)
    } else if str_eq(s, "weekly") {
        Some(PayType::Weekly)
    } else if str_eq(s, "monthly") {
        Some(PayType::Monthly)
    } else if str_eq(s, "annual") {
        Some(PayType::Annual)
    } else {
        None
    }
}

impl PayType {
    pub fn as_str(&self) -> (r: &'static str)
        ensures
            r@ == pay_type_text(*self),
    {
        match self {
            PayType::Hourly => "Hourly",
            PayType::Weekly => "Weekly",
            PayType::Monthly => "Monthly",
            PayType::Annual => "Annual",
        }
    }

    pub fn from_str(s: &str) -> (r: Option<PayType>)
        ensures
            r == pay_type_of_text(text_lowercase(s@)),
            all_ascii(s@) ==> r == pay_type_of_text(s@.map_values(|c: char| ascii_lower(c))),
    {
        let lower = to_lowercase(s);
        pay_type_of_exact_text(lower.as_str())
    }
}

proof fn lemma_pay_type_letters()
    ensures
        "Annual"@ =~= seq!['A', 'n', 'n', 'u', 'a', 'l'],
        "Hourly"@ =~= seq!['H', 'o', 'u', 'r', 'l', 'y'],
        "Monthly"@ =~= seq!['M', 'o', 'n', 't', 'h', 'l', 'y'],
        "Weekly"@ =~= seq!['W', 'e', 'e', 'k', 'l', 'y'],
        "annual"@ =~= seq!['a', 'n', 'n', 'u', 'a', 'l'],
        "hourly"@ =~= seq!['h', 'o', 'u', 'r', 'l', 'y'],
        "monthly"@ =~= seq!['m', 'o', 'n', 't', 'h', 'l', 'y'],
        "weekly"@ =~= seq!['w', 'e', 'e', 'k', 'l', 'y'],
{
    reveal_strlit("Annual");
    reveal_strlit("Hourly");
    reveal_strlit("Monthly");
    reveal_strlit("Weekly");
    reveal_strlit("annual");
    reveal_strlit("hourly");
    reveal_strlit("monthly");
    reveal_strlit("weekly");
}

/// Every variant's stored text is read back as that variant.
pub proof fn lemma_pay_type_roundtrip(v: PayType)
    ensures
        all_ascii(pay_type_text(v)),
        pay_type_of_text(pay_type_text(v).map_values(|c: char| ascii_lower(c))) == Some(v),
{
    lemma_pay_type_letters();
    match v {
        PayType::Hourly => {
            let s = "Hourly"@;
            assert(all_ascii(s));
            let l = s.map_values(|c: char| ascii_lower(c));
            assert(l =~= seq!['h', 'o', 'u', 'r', 'l', 'y']);
            assert(l =~= "hourly"@);
        },
        PayType::Weekly => {
            let s = "Weekly"@;
            assert(all_ascii(s));
            let l = s.map_values(|c: char| ascii_lower(c));
            assert(l =~= seq!['w', 'e', 'e', 'k', 'l', 'y']);
            assert("weekly"@[0] != "hourly"@[0]);
            assert(l =~= "weekly"@);
        },
        PayType::Monthly => {
            let s = "Monthly"@;
            assert(all_ascii(s));
            let l = s.map_values(|c: char| ascii_lower(c));
            assert(l =~= seq!['m', 'o', 'n', 't', 'h', 'l', 'y']);
            assert("monthly"@.len() != "hourly"@.len());
            assert("monthly"@.len() != "weekly"@.len());
            assert(l =~= "monthly"@);
        },
        PayType::Annual => {
            let s = "Annual"@;
            assert(all_ascii(s));
            let l = s.map_values(|c: char| ascii_lower(c));
            assert(l =~= seq!['a', 'n', 'n', 'u', 'a', 'l']);
            assert("annual"@[0] != "hourly"@[0]);
            assert("annual"@[0] != "weekly"@[0]);
            assert("annual"@.len() != "monthly"@.len());
            assert(l =~= "annual"@);
        },
    }
}

/// Whether an autofill value is an earning or a deduction.
#[derive(Debug, Clone, Copy, PartialEq, Eq, Hash, Structural)]
pub enum AutofillType {
    Earning,
    Deduction,
}

pub open spec fn autofill_type_text(v: AutofillType) -> Seq<char> {
    match v {
        AutofillType::Earning => "earning"@,
        AutofillType::Deduction => "deduction"@,
    }
}

/// The variant whose stored text is exactly `s`.
pub open spec fn autofill_type_of_text(s: Seq<char>) -> Option<AutofillType> {
    if s == "earning"@ {
        Some(AutofillType::Earning)
    } else if s == "deduction"@ {
        Some(AutofillType::Deduction)
    } else {
        None
    }
}

pub fn autofill_type_of_exact_text(s: &str) -> (r: Option<AutofillType>)
    ensures
        r == autofill_type_of_text(s@),
{
    if str_eq(s, "earning") {
        Some(AutofillType::Earning)
    } else if str_eq(s, "deduction") {
        Some(AutofillType::Deduction)
    } else {
        None
    }
}

impl AutofillType {
    pub fn as_str(&self) -> (r: &'static str)
        ensures
            r@ == autofill_type_text(*self),
    {
        match self {
            AutofillType::Earning => "earning",
            AutofillType::Deduction => "deduction",
        }
    }

    pub fn from_str(s: &str) -> (r: Option<AutofillType>)
        ensures
            r == autofill_type_of_text(text_lowercase(s@)),
            all_ascii(s@) ==> r == autofill_type_of_text(s@.map_values(|c: char| ascii_lower(c))),
    {
        let lower = to_lowercase(s);
        autofill_type_of_exact_text(lower.as_str())
    }
}

proof fn lemma_autofill_type_letters()
    ensures
        "deduction"@ =~= seq!['d', 'e', 'd', 'u', 'c', 't', 'i', 'o', 'n'],
        "earning"@ =~= seq!['e', 'a', 'r', 'n', 'i', 'n', 'g'],
{
    reveal_strlit("deduction");
    reveal_strlit("earning");
}

/// Every variant's stored text is read back as that variant.
pub proof fn lemma_autofill_type_roundtrip(v: AutofillType)
    ensures
        all_ascii(autofill_type_text(v)),
        autofill_type_of_text(autofill_type_text(v).map_values(|c: char| ascii_lower(c))) == Some(v),
{
    lemma_autofill_type_letters();
    match v {
        AutofillType::Earning => {
            let s = "earning"@;
            assert(all_ascii(s));
            let l = s.map_values(|c: char| ascii_lower(c));
            assert(l =~= seq!['e', 'a', 'r', 'n', 'i', 'n', 'g']);
            assert(l =~= "earning"@);
        },
        AutofillType::Deduction => {
            let s = "deduction"@;
            assert(all_ascii(s));
            let l = s.map_values(|c: char| ascii_lower(c));
            assert(l =~= seq!['d', 'e', 'd', 'u', 'c', 't', 'i', 'o', 'n']);
            assert("deduction"@.len() != "earning"@.len());
            assert(l =~= "deduction"@);
        },
    }
}

/// A postal address.
#[derive(Debug, Clone)]
pub struct Address {
    pub street: String,
    pub city: String,
    pub province: String,
    pub postal_code: String,
}

/// An employee and the terms of their pay.
#[derive(Debug, Clone)]
pub struct Employee {
    pub id: Option<i64>,
    pub is_active: bool,
    pub employee_number: String,
    pub first_name: String,
    pub last_name: String,
    /// Social Insurance Number.
    pub sin: String,
    pub address: Address,
    pub pay_type: PayType,
    pub pay_rate: Dec,
    pub notes: Option<String>,
    pub date_of_birth: Date,
    /// Vacation pay rate, e.g. 0.04 for 4%.
    pub vacation_pay_rate: Dec,
    /// Vacation balance in dollars.
    pub vacation_balance: Dec,
    /// Vacation balance in days.
    pub vacation_balance_days: Dec,
    /// Overtime multiplier, e.g. 1.5.
    pub overtime_multiplier: Dec,
    pub ei_exempt: bool,
    pub cpp_exempt: bool,
    pub hire_date: Date,
    /// Province of employment for tax purposes.
    pub hire_province: String,
    pub termination_date: Option<Date>,
    /// Dental benefit code for T4 box 45 (1 none, 2 basic, 3 comprehensive).
    pub dental_benefit: i32,
    pub created_at: Timestamp,
}

impl Employee {
    pub open spec fn wf(self) -> bool {
        &&& self.pay_rate.wf()
        &&& self.vacation_pay_rate.wf()
        &&& self.vacation_balance.wf()
        &&& self.vacation_balance_days.wf()
        &&& self.overtime_multiplier.wf()
        &&& self.date_of_birth.valid()
        &&& self.hire_date.valid()
        &&& (self.termination_date is Some ==> self.termination_date->0.valid())
    }

    /// What `validate` refuses on day `today`, in the order it checks.
    pub open spec fn issue_on(self, today: Date) -> Option<(ErrorKind, Seq<char>)> {
        let age = age_between(self.date_of_birth, today);
        if digits_of(self.sin@).len() != 9 {
            Some((ErrorKind::InvalidSin, "SIN must be 9 digits"@))
        } else if self.pay_rate.units() <= 0 {
            Some((ErrorKind::InvalidPayAmount, "Pay rate must be positive"@))
        } else if self.termination_date is Some && date_before(
            self.termination_date->0,
            self.hire_date,
        ) {
            Some((ErrorKind::InvalidDateRange, "Termination date cannot be before hire date"@))
        } else if !date_before(self.date_of_birth, today) {
            Some((ErrorKind::InvalidDateRange, "Date of birth must be in the past"@))
        } else if age < 15 || age > 100 {
            Some(
                (
                    ErrorKind::InvalidDateRange,
                    "Employee age ("@ + int_text(age) + ") must be between 15 and 100"@,
                ),
            )
        } else if self.vacation_pay_rate.units() < 0 || lit(20, 2).units()
            < self.vacation_pay_rate.units() {
            Some((ErrorKind::InvalidPayAmount, "Vacation pay rate must be between 0% and 20%"@))
        } else if self.overtime_multiplier.units() < lit(10, 1).units() || lit(30, 1).units()
            < self.overtime_multiplier.units() {
            Some((ErrorKind::InvalidPayAmount, "Overtime multiplier must be between 1.0 and 3.0"@))
        } else if text_trim(self.address.province@).len() == 0 {
            Some((ErrorKind::InvalidPayAmount, "Address province is required"@))
        } else {
            None
        }
    }

    /// First and last name separated by a space.
    pub fn full_name(&self) -> (r: String)
        ensures
            r@ == self.first_name@ + " "@ + self.last_name@,
    {
        let mut out = to_owned_string(self.first_name.as_str());
        push_str(&mut out, " ");
        push_str(&mut out, self.last_name.as_str());
        out
    }

    /// Whole years of age on `date`.
    pub fn age_on_date(&self, date: Date) -> (r: i32)
        requires
            self.date_of_birth.valid(),
            date.valid(),
        ensures
            r == age_between(self.date_of_birth, date),
    {
        age_on(self.date_of_birth, date)
    }

    /// CPP applies from age 18 to age 70.
    pub fn is_cpp_eligible(&self, date: Date) -> (r: bool)
        requires
            self.date_of_birth.valid(),
            date.valid(),
        ensures
            r == (18 <= age_between(self.date_of_birth, date) <= 70),
    {
        let age = self.age_on_date(date);
        age >= 18 && age <= 70
    }

    /// Checks the employee record as of `today`: a nine-digit SIN, a
    /// positive pay rate, dates in order, an age from 15 to 100, a
    /// vacation rate from 0 to 20%, an overtime multiplier from 1.0 to 3.0
    /// and an address province.
    pub fn validate_on(&self, today: Date) -> (r: Result<(), PayrollError>)
        requires
            self.wf(),
            today.valid(),
        ensures
            match self.issue_on(today) {
                None => r is Ok,
                Some(x) => r is Err && r->Err_0.is(x.0, x.1),
            },
    {
        let sin_digits = ascii_digits(self.sin.as_str());
        if sin_digits.unicode_len() != 9 {
            return Err(PayrollError::InvalidSin(to_owned_string("SIN must be 9 digits")));
        }
        if dec_le(self.pay_rate, Dec::zero()) {
            return Err(PayrollError::InvalidPayAmount(to_owned_string("Pay rate must be positive")));
        }
        if let Some(term_date) = self.termination_date {
            if term_date.before(&self.hire_date) {
                return Err(
                    PayrollError::InvalidDateRange(
                        to_owned_string("Termination date cannot be before hire date"),
                    ),
                );
            }
        }
        if !self.date_of_birth.before(&today) {
            return Err(
                PayrollError::InvalidDateRange(to_owned_string("Date of birth must be in the past")),
            );
        }
        let age = self.age_on_date(today);
        if age < 15 || age > 100 {
            let mut msg = to_owned_string("Employee age (");
            let age_text = i64_text(age as i64);
            push_str(&mut msg, age_text.as_str());
            push_str(&mut msg, ") must be between 15 and 100");
            return Err(PayrollError::InvalidDateRange(msg));
        }
        if dec_lt(self.vacation_pay_rate, Dec::zero()) || dec_lt(
            Dec::new(20, 2),
            self.vacation_pay_rate,
        ) {
            return Err(
                PayrollError::InvalidPayAmount(
                    to_owned_string("Vacation pay rate must be between 0% and 20%"),
                ),
            );
        }
        if dec_lt(self.overtime_multiplier, Dec::new(10, 1)) || dec_lt(
            Dec::new(30, 1),
            self.overtime_multiplier,
        ) {
            return Err(
                PayrollError::InvalidPayAmount(
                    to_owned_string("Overtime multiplier must be between 1.0 and 3.0"),
                ),
            );
        }
        let province_code = trim(self.address.province.as_str());
        if province_code.unicode_len() == 0 {
            return Err(
                PayrollError::InvalidPayAmount(to_owned_string("Address province is required")),
            );
        }
        Ok(())
    }

    /// Checks the employee record as of today's local date.  The outcome
    /// is that of `validate_on` for the day the clock gives.
    pub fn validate(&self) -> (r: Result<(), PayrollError>)
        requires
            self.wf(),
        ensures
            exists|today: Date|
                today.valid() && match #[trigger] self.issue_on(today) {
                    None => r is Ok,
                    Some(x) => r is Err && r->Err_0.is(x.0, x.1),
                },
    {
        let today = today_local();
        let r = self.validate_on(today);
        assert(today.valid() && match self.issue_on(today) {
            None => r is Ok,
            Some(x) => r is Err && r->Err_0.is(x.0, x.1),
        });
        r
    }
}

/// Default earnings and deductions that fill a new payroll.
#[derive(Debug, Clone)]
pub struct EmployeeAutofill {
    pub id: Option<i64>,
    pub employee_id: i64,
    pub autofill_type: AutofillType,
    pub item_name: String,
    pub amount: Dec,
    pub is_active: bool,
    pub created_at: Option<Timestamp>,
}

impl EmployeeAutofill {
    /// An active autofill value, stamped with the current time.
    pub fn new(employee_id: i64, autofill_type: AutofillType, item_name: String, amount: Dec) -> (r:
        EmployeeAutofill)
        ensures
            r.id is None,
            r.employee_id == employee_id,
            r.autofill_type == autofill_type,
            r.item_name@ == item_name@,
            r.amount == amount,
            r.is_active,
            r.created_at is Some,
    {
        EmployeeAutofill {
            id: None,
            employee_id,
            autofill_type,
            item_name,
            amount,
            is_active: true,
            created_at: Some(utc_now()),
        }
    }

    pub open spec fn issue(self) -> Option<(ErrorKind, Seq<char>)> {
        if text_trim(self.item_name@).len() == 0 {
            Some((ErrorKind::InvalidPayAmount, "Type name cannot be empty"@))
        } else if self.amount.units() < 0 {
            Some((ErrorKind::InvalidPayAmount, "Amount cannot be negative"@))
        } else {
            None
        }
    }

    /// A name that is not blank and an amount that is not negative.
    pub fn validate(&self) -> (r: Result<(), PayrollError>)
        requires
            self.amount.wf(),
        ensures
            match self.issue() {
                None => r is Ok,
                Some(x) => r is Err && r->Err_0.is(x.0, x.1),
            },
    {
        let name = trim(self.item_name.as_str());
        if name.unicode_len() == 0 {
            return Err(PayrollError::InvalidPayAmount(to_owned_string("Type name cannot be empty")));
        }
        if dec_lt(self.amount, Dec::zero()) {
            return Err(PayrollError::InvalidPayAmount(to_owned_string("Amount cannot be negative")));
        }
        Ok(())
    }
}

} // verus!
