//! The amounts a pay stub shows beyond those stored with the pay.
use vstd::prelude::*;
use crate::decimal::{Dec, checked_add, checked_mul, dec_checked_mul, oadd};
use crate::models::employee::{Employee, PayType};
use crate::models::payroll_record::{Payroll, YtdTotals};
use crate::reports::register::hours_or_zero;

verus! {

/// The regular and overtime lines of an hourly employee's stub.
#[derive(Debug, Clone, Copy, PartialEq, Eq, Structural)]
pub struct HourlyLines {
    /// The regular hours, zero when none were recorded.
    pub regular_hours: Dec,
    /// Regular hours times the pay rate.
    pub regular_pay: Dec,
    /// The pay rate times the overtime multiplier.
    pub overtime_rate: Dec,
    /// The overtime hours, zero when none were recorded.
    pub overtime_hours: Dec,
    /// Overtime hours times the overtime rate.
    pub overtime_pay: Dec,
}

/// What a stub computes: the hourly lines (for an hourly employee only)
/// and the year-to-date statutory deductions added up.
#[derive(Debug, Clone, Copy, PartialEq, Eq, Structural)]
pub struct StubAmounts {
    pub hourly: Option<HourlyLines>,
    /// Year-to-date CPP, CPP2, EI, federal and provincial tax.
    pub ytd_deductions: Dec,
}

pub open spec fn hourly_lines(p: Payroll, e: Employee) -> Option<HourlyLines> {
    let reg = hours_or_zero(p.regular_hours);
    let ot = hours_or_zero(p.overtime_hours);
    let reg_pay = dec_checked_mul(reg, e.pay_rate);
    let ot_rate = dec_checked_mul(e.pay_rate, e.overtime_multiplier);
    let ot_pay = if ot_rate is Some {
        dec_checked_mul(ot, ot_rate->0)
    } else {
        None
    };
    if reg_pay is Some && ot_rate is Some && ot_pay is Some {
        Some(
            HourlyLines {
                regular_hours: reg,
                regular_pay: reg_pay->0,
                overtime_rate: ot_rate->0,
                overtime_hours: ot,
                overtime_pay: ot_pay->0,
            },
        )
    } else {
        None
    }
}

pub open spec fn ytd_statutory(ytd: YtdTotals) -> Option<Dec> {
    oadd(
        oadd(oadd(oadd(Some(ytd.cpp), Some(ytd.cpp2)), Some(ytd.ei)), Some(ytd.federal_tax)),
        Some(ytd.provincial_tax),
    )
}

pub open spec fn stub_amounts(p: Payroll, e: Employee, ytd: YtdTotals) -> Option<StubAmounts> {
    let hourly = if e.pay_type == PayType::Hourly {
        match hourly_lines(p, e) {
            Some(h) => Some(Some(h)),
            None => None,
        }
    } else {
        Some(None)
    };
    match (hourly, ytd_statutory(ytd)) {
        (Some(h), Some(d)) => Some(StubAmounts { hourly: h, ytd_deductions: d }),
        _ => None,
    }
}

fn hours_of(h: Option<Dec>) -> (r: Dec)
    requires
        h matches Some(v) ==> v.wf(),
    ensures
        r == hours_or_zero(h),
        r.wf(),
{
    match h {
        Some(v) => v,
        None => Dec::zero(),
    }
}

/// The amounts of an employee's pay stub for pay `p`, with the year's
/// totals so far; `None` where a product or sum overflows.
pub fn stub_amounts_of(p: &Payroll, e: &Employee, ytd: &YtdTotals) -> (r: Option<StubAmounts>)
    requires
        p.wf(),
        e.wf(),
        ytd.wf(),
    ensures
        r == stub_amounts(*p, *e, *ytd),
{
    let hourly = match e.pay_type {
        PayType::Hourly => {
            let reg = hours_of(p.regular_hours);
            let ot = hours_of(p.overtime_hours);
            let regular_pay = checked_mul(reg, e.pay_rate)?;
            let overtime_rate = checked_mul(e.pay_rate, e.overtime_multiplier)?;
            let overtime_pay = checked_mul(ot, overtime_rate)?;
            Some(
                HourlyLines {
                    regular_hours: reg,
                    regular_pay,
                    overtime_rate,
                    overtime_hours: ot,
                    overtime_pay,
                },
            )
        },
        _ => None,
    };
    let d1 = checked_add(ytd.cpp, ytd.cpp2)?;
    let d2 = checked_add(d1, ytd.ei)?;
    let d3 = checked_add(d2, ytd.federal_tax)?;
    let ytd_deductions = checked_add(d3, ytd.provincial_tax)?;
    Some(StubAmounts { hourly, ytd_deductions })
}

} // verus!
