//! Vacation accrual and time off.
use vstd::prelude::*;
use crate::date::{Date, Timestamp, date_before, days_from_ce, num_days_from_ce, utc_now};
use crate::decimal::{Dec, checked_div, checked_mul, dec_le, int_dec, lemma_units_sign, zero_dec};
use crate::error::{ErrorKind, PayrollError};
use crate::text::{all_ascii, str_eq, to_owned_string};

verus! {

/// Kinds of vacation balance changes.
#[derive(Debug, Clone, Copy, PartialEq, Eq, Hash, Structural)]
pub enum VacationTransactionType {
    Accrue,
    Payout,
    Adjust,
    Timeoff,
}

pub open spec fn vacation_transaction_type_text(v: VacationTransactionType) -> Seq<char> {
    match v {
        VacationTransactionType::Accrue => "accrue"@,
        VacationTransactionType::Payout => "payout"@,
        VacationTransactionType::Adjust => "adjust"@,
        VacationTransactionType::Timeoff => "timeoff"@,
    }
}

/// The variant whose stored text is exactly `s`.
pub open spec fn vacation_transaction_type_of_text(s: Seq<char>) -> Option<VacationTransactionType> {
    if s == "accrue"@ {
        Some(VacationTransactionType::Accrue)
    } else if s == "payout"@ {
        Some(VacationTransactionType::Payout)
    } else if s == "adjust"@ {
        Some(VacationTransactionType::Adjust)
    } else if s == "timeoff"@ {
        Some(VacationTransactionType::Timeoff)
    } else {
        None
    }
}

pub fn vacation_transaction_type_of_exact_text(s: &str) -> (r: Option<VacationTransactionType>)
    ensures
        r == vacation_transaction_type_of_text(s@),
{
    if str_eq(s, "accrue") {
        Some(VacationTransactionType::Accrue)
    } else if str_eq(s, "payout") {
        Some(VacationTransactionType::Payout)
    } else if str_eq(s, "adjust") {
        Some(VacationTransactionType::Adjust)
    } else if str_eq(s, "timeoff") {
        Some(VacationTransactionType::Timeoff)
    } else {
        None
    }
}

impl VacationTransactionType {
    pub fn as_str(&self) -> (r: &'static str)
        ensures
            r@ == vacation_transaction_type_text(*self),
    {
        match self {
            VacationTransactionType::Accrue => "accrue",
            VacationTransactionType::Payout => "payout",
            VacationTransactionType::Adjust => "adjust",
            VacationTransactionType::Timeoff => "timeoff",
        }
    }

    pub fn from_str(s: &str) -> (r: Option<VacationTransactionType>)
        ensures
            r == vacation_transaction_type_of_text(s@),
    {
        vacation_transaction_type_of_exact_text(s)
    }
}

proof fn lemma_vacation_transaction_type_letters()
    ensures
        "accrue"@ =~= seq!['a', 'c', 'c', 'r', 'u', 'e'],
        "adjust"@ =~= seq!['a', 'd', 'j', 'u', 's', 't'],
        "payout"@ =~= seq!['p', 'a', 'y', 'o', 'u', 't'],
        "timeoff"@ =~= seq!['t', 'i', 'm', 'e', 'o', 'f', 'f'],
{
    reveal_strlit("accrue");
    reveal_strlit("adjust");
    reveal_strlit("payout");
    reveal_strlit("timeoff");
}

/// Every variant's stored text is read back as that variant.
pub proof fn lemma_vacation_transaction_type_roundtrip(v: VacationTransactionType)
    ensures
        all_ascii(vacation_transaction_type_text(v)),
        vacation_transaction_type_of_text(vacation_transaction_type_text(v)) == Some(v),
{
    lemma_vacation_transaction_type_letters();
    match v {
        VacationTransactionType::Accrue => {
            let s = "accrue"@;
            assert(all_ascii(s));
            assert(s =~= "accrue"@);
        },
        VacationTransactionType::Payout => {
            let s = "payout"@;
            assert(all_ascii(s));
            assert("payout"@[0] != "accrue"@[0]);
            assert(s =~= "payout"@);
        },
        VacationTransactionType::Adjust => {
            let s = "adjust"@;
            assert(all_ascii(s));
            assert("adjust"@[1] != "accrue"@[1]);
            assert("adjust"@[0] != "payout"@[0]);
            assert(s =~= "adjust"@);
        },
        VacationTransactionType::Timeoff => {
            let s = "timeoff"@;
            assert(all_ascii(s));
            assert("timeoff"@.len() != "accrue"@.len());
            assert("timeoff"@.len() != "payout"@.len());
            assert("timeoff"@.len() != "adjust"@.len());
            assert(s =~= "timeoff"@);
        },
    }
}

/// Whether time off is paid.
#[derive(Debug, Clone, Copy, PartialEq, Eq, Hash, Structural)]
pub enum VacationPayType {
    Paid,
    Unpaid,
}

pub open spec fn vacation_pay_type_text(v: VacationPayType) -> Seq<char> {
    match v {
        VacationPayType::Paid => "paid"@,
        VacationPayType::Unpaid => "unpaid"@,
    }
}

/// The variant whose stored text is exactly `s`.
pub open spec fn vacation_pay_type_of_text(s: Seq<char>) -> Option<VacationPayType> {
    if s == "paid"@ {
        Some(VacationPayType::Paid)
    } else if s == "unpaid"@ {
        Some(VacationPayType::Unpaid)
    } else {
        None
    }
}

pub fn vacation_pay_type_of_exact_text(s: &str) -> (r: Option<VacationPayType>)
    ensures
        r == vacation_pay_type_of_text(s@),
{
    if str_eq(s, "paid") {
        Some(VacationPayType::Paid)
    } else if str_eq(s, "unpaid") {
        Some(VacationPayType::Unpaid)
    } else {
        None
    }
}

impl VacationPayType {
    pub fn as_str(&self) -> (r: &'static str)
        ensures
            r@ == vacation_pay_type_text(*self),
    {
        match self {
            VacationPayType::Paid => "paid",
            VacationPayType::Unpaid => "unpaid",
        }
    }

    pub fn from_str(s: &str) -> (r: Option<VacationPayType>)
        ensures
            r == vacation_pay_type_of_text(s@),
    {
        vacation_pay_type_of_exact_text(s)
    }
}

proof fn lemma_vacation_pay_type_letters()
    ensures
        "paid"@ =~= seq!['p', 'a', 'i', 'd'],
        "unpaid"@ =~= seq!['u', 'n', 'p', 'a', 'i', 'd'],
{
    reveal_strlit("paid");
    reveal_strlit("unpaid");
}

/// Every variant's stored text is read back as that variant.
pub proof fn lemma_vacation_pay_type_roundtrip(v: VacationPayType)
    ensures
        all_ascii(vacation_pay_type_text(v)),
        vacation_pay_type_of_text(vacation_pay_type_text(v)) == Some(v),
{
    lemma_vacation_pay_type_letters();
    match v {
        VacationPayType::Paid => {
            let s = "paid"@;
            assert(all_ascii(s));
            assert(s =~= "paid"@);
        },
        VacationPayType::Unpaid => {
            let s = "unpaid"@;
            assert(all_ascii(s));
            assert("unpaid"@.len() != "paid"@.len());
            assert(s =~= "unpaid"@);
        },
    }
}

/// One change of an employee's vacation balance.
#[derive(Debug, Clone)]
pub struct VacationAccrual {
    pub id: Option<i64>,
    pub employee_id: i64,
    pub accrual_date: Date,
    pub payroll_id: Option<i64>,
    pub transaction_type: VacationTransactionType,
    /// Dollar change (+ adds, - deducts).
    pub amount: Dec,
    /// Dollar balance after the change.
    pub balance_after: Dec,
    /// Change in days (+ adds, - deducts).
    pub amount_days: Dec,
    /// Day balance after the change.
    pub balance_after_days: Dec,
    pub notes: Option<String>,
    pub created_at: Timestamp,
}

impl VacationAccrual {
    /// A dollar-only change, stamped with the current time.
    pub fn new(
        employee_id: i64,
        accrual_date: Date,
        transaction_type: VacationTransactionType,
        amount: Dec,
        balance_after: Dec,
    ) -> (r: VacationAccrual)
        ensures
            r.id is None && r.payroll_id is None && r.notes is None,
            r.employee_id == employee_id,
            r.accrual_date == accrual_date,
            r.transaction_type == transaction_type,
            r.amount == amount,
            r.balance_after == balance_after,
            r.amount_days == zero_dec(),
            r.balance_after_days == zero_dec(),
    {
        VacationAccrual {
            id: None,
            employee_id,
            accrual_date,
            payroll_id: None,
            transaction_type,
            amount,
            balance_after,
            amount_days: Dec::zero(),
            balance_after_days: Dec::zero(),
            notes: None,
            created_at: utc_now(),
        }
    }

    /// A change in dollars and in days, stamped with the current time.
    pub fn new_dual(
        employee_id: i64,
        accrual_date: Date,
        transaction_type: VacationTransactionType,
        amount: Dec,
        balance_after: Dec,
        amount_days: Dec,
        balance_after_days: Dec,
    ) -> (r: VacationAccrual)
        ensures
            r.id is None && r.payroll_id is None && r.notes is None,
            r.employee_id == employee_id,
            r.accrual_date == accrual_date,
            r.transaction_type == transaction_type,
            r.amount == amount,
            r.balance_after == balance_after,
            r.amount_days == amount_days,
            r.balance_after_days == balance_after_days,
    {
        VacationAccrual {
            id: None,
            employee_id,
            accrual_date,
            payroll_id: None,
            transaction_type,
            amount,
            balance_after,
            amount_days,
            balance_after_days,
            notes: None,
            created_at: utc_now(),
        }
    }

    /// A change must move the balance in dollars or in days.
    pub fn validate(&self) -> (r: Result<(), PayrollError>)
        requires
            self.amount.wf(),
            self.amount_days.wf(),
        ensures
            (self.amount.units() == 0 && self.amount_days.units() == 0) ==> r is Err
                && r->Err_0.is(
                ErrorKind::ValidationError,
                "Transaction amount cannot be zero (both dollar and day amounts are zero)"@,
            ),
            !(self.amount.units() == 0 && self.amount_days.units() == 0) ==> r is Ok,
    {
        proof {
            lemma_units_sign(self.amount);
            lemma_units_sign(self.amount_days);
        }
        if self.amount.is_zero() && self.amount_days.is_zero() {
            return Err(
                PayrollError::ValidationError(
                    to_owned_string(
                        "Transaction amount cannot be zero (both dollar and day amounts are zero)",
                    ),
                ),
            );
        }
        Ok(())
    }
}

/// Vacation taken.
#[derive(Debug, Clone)]
pub struct VacationTimeOff {
    pub id: Option<i64>,
    pub employee_id: i64,
    /// The accrual entry that paid it, if paid.
    pub vacation_accrual_id: Option<i64>,
    pub start_date: Date,
    pub end_date: Date,
    pub pay_type: VacationPayType,
    /// Estimated payout (kept for reference).
    pub estimated_payout: Dec,
    /// Payout amount (editable).
    pub payout_amount: Dec,
    /// Weekdays taken, for employees who are not paid by the hour.
    pub days_taken: Option<Dec>,
    pub notes: Option<String>,
    pub created_at: Timestamp,
}

impl VacationTimeOff {
    /// A time off, stamped with the current time.
    pub fn new(
        employee_id: i64,
        start_date: Date,
        end_date: Date,
        pay_type: VacationPayType,
        estimated_payout: Dec,
        payout_amount: Dec,
    ) -> (r: VacationTimeOff)
        ensures
            r.id is None && r.vacation_accrual_id is None && r.days_taken is None
                && r.notes is None,
            r.employee_id == employee_id,
            r.start_date == start_date,
            r.end_date == end_date,
            r.pay_type == pay_type,
            r.estimated_payout == estimated_payout,
            r.payout_amount == payout_amount,
    {
        VacationTimeOff {
            id: None,
            employee_id,
            vacation_accrual_id: None,
            start_date,
            end_date,
            pay_type,
            estimated_payout,
            payout_amount,
            days_taken: None,
            notes: None,
            created_at: utc_now(),
        }
    }

    /// The end date must not come before the start date.
    pub fn validate(&self) -> (r: Result<(), PayrollError>)
        ensures
            date_before(self.end_date, self.start_date) ==> r is Err && r->Err_0.is(
                ErrorKind::ValidationError,
                "End date cannot be before start date"@,
            ),
            !date_before(self.end_date, self.start_date) ==> r is Ok,
    {
        if self.end_date.before(&self.start_date) {
            return Err(
                PayrollError::ValidationError(to_owned_string("End date cannot be before start date")),
            );
        }
        Ok(())
    }
}

/// Working days in a year (260 less 10 days of base vacation); a vacation
/// rate times this gives vacation days per year.
pub const WORK_DAYS_PER_YEAR: i32 = 250;

/// Vacation pay accrued on a gross pay: `gross_pay × vacation_pay_rate`,
/// or zero when either is not positive.  `None` on overflow.
pub fn calculate_vacation_accrual(gross_pay: Dec, vacation_pay_rate: Dec) -> (r: Option<Dec>)
    requires
        gross_pay.wf(),
        vacation_pay_rate.wf(),
    ensures
        (vacation_pay_rate.units() <= 0 || gross_pay.units() <= 0) ==> r == Some(zero_dec()),
        !(vacation_pay_rate.units() <= 0 || gross_pay.units() <= 0) ==> r
            == crate::decimal::dec_checked_mul(gross_pay, vacation_pay_rate),
        r is Some ==> r->0.wf() && r->0.units() >= 0,
{
    if dec_le(vacation_pay_rate, Dec::zero()) || dec_le(gross_pay, Dec::zero()) {
        return Some(Dec::zero());
    }
    proof {
        lemma_units_sign(gross_pay);
        lemma_units_sign(vacation_pay_rate);
    }
    let r = checked_mul(gross_pay, vacation_pay_rate);
    proof {
        if r is Some {
            lemma_units_sign(r->0);
        }
    }
    r
}

/// Vacation days accrued per pay period by an employee not paid by the
/// hour: `vacation_pay_rate × 250 / total_pay_periods`, or zero when the
/// rate or the number of periods is not positive.  `None` on overflow.
pub fn calculate_vacation_accrual_days(vacation_pay_rate: Dec, total_pay_periods: i32) -> (r: Option<Dec>)
    requires
        vacation_pay_rate.wf(),
    ensures
        (vacation_pay_rate.units() <= 0 || total_pay_periods <= 0) ==> r == Some(zero_dec()),
        !(vacation_pay_rate.units() <= 0 || total_pay_periods <= 0) ==> r == crate::decimal::odiv(
            crate::decimal::dec_checked_mul(vacation_pay_rate, int_dec(250)),
            Some(int_dec(total_pay_periods as int)),
        ),
        r is Some ==> r->0.wf() && r->0.units() >= 0,
{
    if dec_le(vacation_pay_rate, Dec::zero()) || total_pay_periods <= 0 {
        return Some(Dec::zero());
    }
    proof {
        lemma_units_sign(vacation_pay_rate);
    }
    let work_days = Dec::from_int(WORK_DAYS_PER_YEAR as i64);
    let periods = Dec::from_int(total_pay_periods as i64);
    let yearly = checked_mul(vacation_pay_rate, work_days)?;
    let r = checked_div(yearly, periods);
    proof {
        if r is Some {
            lemma_units_sign(r->0);
        }
    }
    r
}

/// A number of weekdays as a decimal number of days.
pub fn weekdays_to_days(weekdays: i64) -> (r: Dec)
    ensures
        r == int_dec(weekdays as int),
        r.wf(),
{
    Dec::from_int(weekdays)
}

/// Day `n` (counted from January 1 of year 1, a Monday, as day 1) falls
/// on Monday to Friday.
pub open spec fn is_weekday_number(n: int) -> bool {
    (n + 6) % 7 < 5
}

/// The weekdays among days `lo` to `hi`.
pub open spec fn weekdays_in(lo: int, hi: int) -> int
    decreases hi - lo + 1,
{
    if hi < lo {
        0
    } else {
        weekdays_in(lo, hi - 1) + if is_weekday_number(hi) {
            1int
        } else {
            0int
        }
    }
}

proof fn lemma_weekdays_in_bounds(lo: int, hi: int)
    ensures
        0 <= weekdays_in(lo, hi),
        hi >= lo ==> weekdays_in(lo, hi) <= hi - lo + 1,
    decreases hi - lo + 1,
{
    if hi >= lo {
        lemma_weekdays_in_bounds(lo, hi - 1);
    }
}

/// Monday-to-Friday days from `start_date` to `end_date`, both included;
/// zero when the end comes first.
pub fn count_weekdays(start_date: Date, end_date: Date) -> (r: i64)
    requires
        start_date.valid(),
        end_date.valid(),
    ensures
        date_before(end_date, start_date) ==> r == 0,
        !date_before(end_date, start_date) ==> r == weekdays_in(
            days_from_ce(start_date),
            days_from_ce(end_date),
        ),
{
    if end_date.before(&start_date) {
        return 0;
    }
    let lo = num_days_from_ce(start_date);
    let hi = num_days_from_ce(end_date);
    let mut count: i64 = 0;
    let mut n: i64 = lo as i64;
    while n <= hi as i64
        invariant
            lo as i64 <= n <= hi as i64 + 1 || (n == lo as i64 && hi < lo),
            count == weekdays_in(lo as int, n - 1),
            0 <= count <= n - lo,
        decreases hi as i64 + 1 - n,
    {
        proof {
            lemma_weekdays_in_bounds(lo as int, n as int);
        }
        let rem = (n + 6) % 7;
        let weekday = if rem < 0 {
            rem + 7
        } else {
            rem
        };
        assert(weekday == ((n + 6) as int) % 7);
        if weekday < 5 {
            count = count + 1;
        }
        n = n + 1;
    }
    proof {
        lemma_weekdays_in_bounds(lo as int, hi as int);
    }
    count
}

} // verus!
