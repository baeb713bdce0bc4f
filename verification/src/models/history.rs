//! Histories of pay rates and of employment periods.
use vstd::prelude::*;
use crate::date::{Date, Timestamp, date_before, days_from_ce, num_days_from_ce, today_utc, utc_now};
use crate::decimal::Dec;
use crate::models::employee::PayType;

verus! {

/// A pay rate and the period it applied.
#[derive(Debug, Clone)]
pub struct PayRateHistory {
    pub id: Option<i64>,
    pub employee_id: i64,
    pub pay_rate: Dec,
    pub pay_type: PayType,
    pub effective_date: Date,
    pub end_date: Option<Date>,
    pub reason: Option<String>,
    pub created_at: Timestamp,
}

impl PayRateHistory {
    /// A rate in effect from `effective_date`, with no end yet.
    pub fn new(
        employee_id: i64,
        pay_rate: Dec,
        pay_type: PayType,
        effective_date: Date,
        reason: Option<String>,
    ) -> (r: PayRateHistory)
        ensures
            r.id is None,
            r.employee_id == employee_id,
            r.pay_rate == pay_rate,
            r.pay_type == pay_type,
            r.effective_date == effective_date,
            r.end_date is None,
            r.reason == reason,
    {
        PayRateHistory {
            id: None,
            employee_id,
            pay_rate,
            pay_type,
            effective_date,
            end_date: None,
            reason,
            created_at: utc_now(),
        }
    }

    /// The rate has no end date.
    pub fn is_active(&self) -> (r: bool)
        ensures
            r == self.end_date is None,
    {
        self.end_date.is_none()
    }

    /// The rate applied on `date`: on or after its start, and on or
    /// before its end if it has one.
    pub fn is_active_on(&self, date: &Date) -> (r: bool)
        ensures
            r == (!date_before(*date, self.effective_date) && (self.end_date is None
                || !date_before(self.end_date->0, *date))),
    {
        self.effective_date.on_or_before(date) && match self.end_date {
            Some(end) => date.on_or_before(&end),
            None => true,
        }
    }
}

/// A period of employment.
#[derive(Debug, Clone)]
pub struct EmploymentHistory {
    pub id: Option<i64>,
    pub employee_id: i64,
    pub hire_date: Date,
    pub termination_date: Option<Date>,
    pub termination_reason: Option<String>,
    pub rehire_eligible: bool,
    pub notes: Option<String>,
    pub created_at: Timestamp,
}

impl EmploymentHistory {
    /// A current employment period from `hire_date`.
    pub fn new(employee_id: i64, hire_date: Date) -> (r: EmploymentHistory)
        ensures
            r.id is None,
            r.employee_id == employee_id,
            r.hire_date == hire_date,
            r.termination_date is None,
            r.termination_reason is None,
            r.rehire_eligible,
            r.notes is None,
    {
        EmploymentHistory {
            id: None,
            employee_id,
            hire_date,
            termination_date: None,
            termination_reason: None,
            rehire_eligible: true,
            notes: None,
            created_at: utc_now(),
        }
    }

    /// The period has not ended.
    pub fn is_current(&self) -> (r: bool)
        ensures
            r == self.termination_date is None,
    {
        self.termination_date.is_none()
    }

    /// Ends the period on `date`.
    pub fn terminate(&mut self, date: Date, reason: Option<String>, eligible_for_rehire: bool)
        ensures
            final(self).termination_date == Some(date),
            final(self).termination_reason == reason,
            final(self).rehire_eligible == eligible_for_rehire,
            final(self).id == old(self).id,
            final(self).employee_id == old(self).employee_id,
            final(self).hire_date == old(self).hire_date,
            final(self).notes == old(self).notes,
            final(self).created_at == old(self).created_at,
    {
        self.termination_date = Some(date);
        self.termination_reason = reason;
        self.rehire_eligible = eligible_for_rehire;
    }

    /// Days from hire to termination, or to `today` if the period has not ended.
    pub fn duration_days_on(&self, today: Date) -> (r: i64)
        requires
            self.hire_date.valid(),
            today.valid(),
            self.termination_date is Some ==> self.termination_date->0.valid(),
        ensures
            r == days_from_ce(
                match self.termination_date {
                    Some(t) => t,
                    None => today,
                },
            ) - days_from_ce(self.hire_date),
    {
        let end = match self.termination_date {
            Some(t) => t,
            None => today,
        };
        num_days_from_ce(end) as i64 - num_days_from_ce(self.hire_date) as i64
    }

    /// Days from hire to termination, or to today (UTC) if the period has
    /// not ended.
    pub fn duration_days(&self) -> (r: i64)
        requires
            self.hire_date.valid(),
            self.termination_date is Some ==> self.termination_date->0.valid(),
        ensures
            self.termination_date is Some ==> r == days_from_ce(self.termination_date->0)
                - days_from_ce(self.hire_date),
    {
        let today = today_utc();
        self.duration_days_on(today)
    }
}

} // verus!
