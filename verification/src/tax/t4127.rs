//! The CRA T4127 payroll deduction formulas.
//!
//! A `T4127Context` holds the variables of the T4127 glossary under their
//! names there.  The caller sets the inputs, then `calc` computes CPP, EI,
//! federal and provincial tax for the pay period.  Every step does its
//! arithmetic on decimals; where an operation would overflow (or divide by
//! zero) the step returns `None` and leaves the context as it was.
#![allow(non_snake_case)]
use vstd::prelude::*;
use crate::decimal::{
    Dec, lemma_round2_le_whole_cents, lemma_round_nonneg, lemma_units_sign, whole_cents, checked_add, checked_div, checked_mul, checked_sub, dec_le, dec_lt, dec_max, dec_min,
    int_dec, lit, oadd, odiv, omax, omin, omul, oround2, osub, round_dp_away, spec_max,
    spec_min, zero_dec, abs, amount_within, arithmetic_as_stated, dec_checked_mul, dec_checked_sub,
    lemma_exact_sub, lemma_lit_units, lemma_pow10_add, lemma_pow10_high, lemma_pow10_pos,
    lemma_units_at_most_three, max_mantissa, multiplies_as_stated_at, pow10, subtracts_as_stated_at,
};
use crate::date::{Date, age_between};
use crate::models::payroll::{DeductionType, deduction_type_of_text, deduction_variable};
use crate::models::payroll_record::{AdditionalDeduction, YtdTotals, deductions_wf};
use crate::models::province::Province;
use crate::text::{replace_char_spec, str_eq, text_lowercase, to_owned_string};
use crate::tax::{EmployeeInfo, EmployeeProvider, YtdProvider, 
    PayrollDeductions, ProvinceTaxRates, SurtaxTier, TaxBracket, TaxYearConfig, brackets_wf,
    tiers_wf,
};

verus! {

/// The variables of one T4127 calculation.
#[derive(Debug, Clone)]
pub struct T4127Context {
    /// P: pay periods in the year.
    pub P: i32,
    pub cpp_exempt: bool,
    pub ei_exempt: bool,
    /// I: periodic remuneration of the pay period.
    pub I: Dec,
    /// B: non-periodic payment of the pay period.
    pub B: Dec,
    /// B1: non-periodic payments earlier in the year.
    pub B1: Dec,
    /// PI: pensionable earnings of the pay period.
    pub PI: Dec,
    /// IE: insurable earnings of the pay period.
    pub IE: Dec,
    /// TC: federal claim amount.
    pub TC: Dec,
    /// TCP: provincial claim amount.
    pub TCP: Dec,
    /// F: RPP/RRSP deductions of the pay period.
    pub F: Dec,
    /// F1: annual authorized deductions.
    pub F1: Dec,
    /// F2: alimony or maintenance payments of the pay period.
    pub F2: Dec,
    /// F4: RPP/RRSP contributions from earlier non-periodic payments.
    pub F4: Dec,
    /// U1: union dues of the pay period.
    pub U1: Dec,
    /// HD: prescribed-zone deduction.
    pub HD: Dec,
    /// L: additional tax requested.
    pub L: Dec,
    /// D: CPP contributions so far this year.
    pub D: Dec,
    /// DQ: QPP contributions so far this year.
    pub DQ: Dec,
    /// D1: EI premiums so far this year.
    pub D1: Dec,
    /// D2: second additional CPP contributions so far this year.
    pub D2: Dec,
    /// D2Q: second additional QPP contributions so far this year.
    pub D2Q: Dec,
    /// PM: months in which contributions are required.
    pub PM: i32,
    pub employee_age: i32,
    pub province: Province,
    /// E: commission expenses.
    pub E: Dec,
    /// I1: annual remuneration of a commission employee.
    pub I1: Dec,
    /// LCF: federal labour-sponsored funds credit.
    pub LCF: Dec,
    /// LCP: provincial labour-sponsored funds credit.
    pub LCP: Dec,
    /// K3: other federal non-refundable credits.
    pub K3: Dec,
    /// K3P: other provincial non-refundable credits.
    pub K3P: Dec,
    /// F3: RPP/RRSP contributions from the current non-periodic payment.
    pub F3: Dec,
    /// Y: provincial dependants amount.
    pub Y: Dec,
    /// Periodic income earlier in the year.
    pub I_ytd: Dec,
    /// PR: pay periods left in the year, this one included (0: use P).
    pub PR: i32,
    /// F5B of earlier pay periods.
    pub F5B_ytd: Dec,
    /// Rates and limits of the year.
    pub config: TaxYearConfig,
    /// A: annual taxable income.
    pub A: Dec,
    /// C: CPP contribution of the pay period.
    pub C: Dec,
    /// C2: second additional CPP contribution of the pay period.
    pub C2: Dec,
    /// EI premium of the pay period.
    pub EI: Dec,
    /// F5: CPP additional contributions deducted for tax.
    pub F5: Dec,
    /// F5A: the part of F5 from periodic income.
    pub F5A: Dec,
    /// F5B: the part of F5 from the non-periodic payment.
    pub F5B: Dec,
    /// T1: annual federal tax.
    pub T1: Dec,
    /// T2: annual provincial tax.
    pub T2: Dec,
    /// T3: annual basic federal tax.
    pub T3: Dec,
    /// T4: annual basic provincial tax.
    pub T4: Dec,
}

/// An `i32` as a decimal.
pub open spec fn pint(n: i32) -> Dec {
    int_dec(n as int)
}

impl T4127Context {
    pub open spec fn wf(self) -> bool {
        &&& self.config.wf()
        &&& self.I.wf() && self.B.wf() && self.B1.wf() && self.PI.wf() && self.IE.wf()
        &&& self.TC.wf() && self.TCP.wf() && self.F.wf() && self.F1.wf() && self.F2.wf()
        &&& self.F4.wf() && self.U1.wf() && self.HD.wf() && self.L.wf() && self.D.wf()
        &&& self.DQ.wf() && self.D1.wf() && self.D2.wf() && self.D2Q.wf() && self.E.wf()
        &&& self.I1.wf() && self.LCF.wf() && self.LCP.wf() && self.K3.wf() && self.K3P.wf()
        &&& self.F3.wf() && self.Y.wf() && self.I_ytd.wf() && self.F5B_ytd.wf()
        &&& self.A.wf() && self.C.wf() && self.C2.wf() && self.EI.wf() && self.F5.wf()
        &&& self.F5A.wf() && self.F5B.wf() && self.T1.wf() && self.T2.wf() && self.T3.wf()
        &&& self.T4.wf()
    }
}

// ---------------------------------------------------------------------
// CPP
// ---------------------------------------------------------------------

/// Room left under the yearly CPP maximum.
pub open spec fn cpp_remaining(s: T4127Context) -> Option<Dec> {
    osub(Some(s.config.cpp.max_contribution), Some(s.D))
}

/// Room left under the yearly CPP2 maximum.
pub open spec fn cpp2_remaining(s: T4127Context) -> Option<Dec> {
    osub(Some(s.config.cpp2.max_contribution), Some(s.D2))
}

/// Room left under the yearly EI maximum.
pub open spec fn ei_remaining(s: T4127Context) -> Option<Dec> {
    osub(Some(s.config.ei.max_contribution), Some(s.D1))
}

/// `room` is known, not negative and a whole number of cents.
pub open spec fn cents_room(room: Option<Dec>) -> bool {
    room is Some && room->0.units() >= 0 && whole_cents(room->0)
}

/// C: the pensionable earnings above the per-period exemption times the
/// employee rate, capped by the room left, floored at zero, rounded to
/// cents.
pub open spec fn cpp_base_of(s: T4127Context) -> Option<Dec> {
    let exemption = odiv(Some(s.config.cpp.basic_exemption), Some(pint(s.P)));
    let pensionable = omax(osub(Some(s.PI), exemption), Some(zero_dec()));
    let this_period = omul(pensionable, Some(s.config.cpp.employee_rate));
    oround2(omax(omin(this_period, cpp_remaining(s)), Some(zero_dec())))
}

/// The pensionable earnings of the period, annualized.
pub open spec fn annual_gross_of(s: T4127Context) -> Option<Dec> {
    omul(Some(s.PI), Some(pint(s.P)))
}

/// Whether the second additional contribution applies: annual earnings
/// above the YMPE once the base contribution has reached the maximum.
pub open spec fn cpp2_applies(s: T4127Context, annual: Dec, remaining: Dec, c: Dec) -> bool {
    &&& s.config.cpp.max_pensionable_earnings.units() < annual.units()
    &&& (remaining.units() <= 0 || remaining.units() <= c.units())
}

/// C2: the annual earnings between the YMPE and the second ceiling times
/// the CPP2 rate, per period, capped by the CPP2 room, floored at zero,
/// rounded to cents.
pub open spec fn cpp2_of(s: T4127Context, c: Dec) -> Option<Dec> {
    let annual = annual_gross_of(s);
    let remaining = cpp_remaining(s);
    if annual is None || remaining is None {
        None
    } else if cpp2_applies(s, annual->0, remaining->0, c) {
        let start = s.config.cpp.max_pensionable_earnings;
        let room = osub(Some(s.config.cpp2.max_earnings), Some(start));
        let tier_annual = omin(osub(annual, Some(start)), room);
        let tier_period = odiv(omul(tier_annual, Some(s.config.cpp2.rate)), Some(pint(s.P)));
        let remaining2 = osub(Some(s.config.cpp2.max_contribution), Some(s.D2));
        oround2(omax(omin(tier_period, remaining2), Some(zero_dec())))
    } else {
        Some(zero_dec())
    }
}

/// F5 with its split between periodic and non-periodic pay.
pub struct F5Parts {
    pub f5: Dec,
    pub f5a: Dec,
    pub f5b: Dec,
}

/// T3 and T1 of a year.
pub struct FederalAnnual {
    pub t3: Dec,
    pub t1: Dec,
}

/// F5, F5A, F5B: the additional contributions and their split between
/// periodic and non-periodic pay.
pub open spec fn f5_of(s: T4127Context, c: Dec, c2: Dec) -> Option<F5Parts> {
    let f5 = oadd(
        omul(
            Some(c),
            odiv(Some(s.config.cpp.first_additional_rate), Some(s.config.cpp.employee_rate)),
        ),
        Some(c2),
    );
    if f5 is None {
        None
    } else if 0 < s.PI.units() {
        let f5a = omul(f5, odiv(osub(Some(s.PI), Some(s.B)), Some(s.PI)));
        let f5b = omul(f5, odiv(Some(s.B), Some(s.PI)));
        if f5a is None || f5b is None {
            None
        } else {
            Some(F5Parts { f5: f5->0, f5a: f5a->0, f5b: f5b->0 })
        }
    } else {
        Some(F5Parts { f5: f5->0, f5a: zero_dec(), f5b: zero_dec() })
    }
}

/// What `cpp` does: the new context and the CPP total `C + C2`.
pub open spec fn cpp_outcome(s: T4127Context) -> Option<(T4127Context, Dec)> {
    if s.cpp_exempt {
        Some(
            (
                T4127Context {
                    C: zero_dec(),
                    C2: zero_dec(),
                    F5: zero_dec(),
                    F5A: zero_dec(),
                    F5B: zero_dec(),
                    ..s
                },
                zero_dec(),
            ),
        )
    } else if s.province == Province::QC || s.employee_age < 18 || s.employee_age > 70 {
        Some((T4127Context { C: zero_dec(), C2: zero_dec(), ..s }, zero_dec()))
    } else {
        let c = cpp_base_of(s);
        if c is None {
            None
        } else {
            let c2 = cpp2_of(s, c->0);
            if c2 is None {
                None
            } else {
                let f = f5_of(s, c->0, c2->0);
                let total = crate::decimal::dec_checked_add(c->0, c2->0);
                if f is None || total is None {
                    None
                } else {
                    Some(
                        (
                            T4127Context {
                                C: c->0,
                                C2: c2->0,
                                F5: f->0.f5,
                                F5A: f->0.f5a,
                                F5B: f->0.f5b,
                                ..s
                            },
                            total->0,
                        ),
                    )
                }
            }
        }
    }
}

// ---------------------------------------------------------------------
// EI
// ---------------------------------------------------------------------

/// What `ei` does: the new context and the EI premium.
pub open spec fn ei_outcome(s: T4127Context) -> Option<(T4127Context, Dec)> {
    if s.ei_exempt || s.province == Province::QC || s.config.ei.max_contribution.units()
        <= s.D1.units() {
        Some((T4127Context { EI: zero_dec(), ..s }, zero_dec()))
    } else {
        let this_period = omul(Some(s.IE), Some(s.config.ei.employee_rate));
        let remaining = osub(Some(s.config.ei.max_contribution), Some(s.D1));
        let ei = oround2(omin(this_period, remaining));
        if ei is None {
            None
        } else {
            Some((T4127Context { EI: ei->0, ..s }, ei->0))
        }
    }
}

// ---------------------------------------------------------------------
// Brackets and credits
// ---------------------------------------------------------------------

/// Rate and constant of the first bracket whose upper limit is at least
/// `a` (or that has no upper limit); the defaults when there is none.
pub open spec fn bracket_for(bs: Seq<TaxBracket>, a: Dec, default_rate: Dec, default_constant: Dec) -> (
    Dec,
    Dec,
)
    decreases bs.len(),
{
    if bs.len() == 0 {
        (default_rate, default_constant)
    } else {
        match bs[0].upper_limit {
            Some(u) => if a.units() <= u.units() {
                (bs[0].rate, bs[0].constant)
            } else {
                bracket_for(bs.drop_first(), a, default_rate, default_constant)
            },
            None => (bs[0].rate, bs[0].constant),
        }
    }
}

/// The rate of the first bracket, or the default.
pub open spec fn lowest_rate(bs: Seq<TaxBracket>, default_rate: Dec) -> Dec {
    if bs.len() > 0 {
        bs[0].rate
    } else {
        default_rate
    }
}

/// The CPP base contributions of the year that earn a credit:
/// `min(P × C × base_rate / employee_rate, max_base_contribution × PM / 12)`.
pub open spec fn cpp_credit_of(s: T4127Context) -> Option<Dec> {
    let max_allowed = omul(
        Some(s.config.cpp.max_base_contribution),
        odiv(Some(pint(s.PM)), Some(lit(12, 0))),
    );
    omin(
        omul(
            omul(Some(pint(s.P)), Some(s.C)),
            odiv(Some(s.config.cpp.base_rate), Some(s.config.cpp.employee_rate)),
        ),
        max_allowed,
    )
}

/// The EI premiums of the year that earn a credit: `min(P × EI, max)`.
pub open spec fn ei_credit_of(s: T4127Context) -> Option<Dec> {
    omin(omul(Some(pint(s.P)), Some(s.EI)), Some(s.config.ei.max_contribution))
}

// ---------------------------------------------------------------------
// Federal tax
// ---------------------------------------------------------------------

/// Pay periods used to annualize periodic income.
pub open spec fn periods_remaining(s: T4127Context) -> Dec {
    if s.PR > 0 {
        pint(s.PR)
    } else {
        pint(s.P)
    }
}

/// A: annual taxable income, the three components each floored at zero.
pub open spec fn annual_income_of(s: T4127Context) -> Option<Dec> {
    let p = Some(pint(s.P));
    let i_a = oadd(Some(s.I_ytd), omul(Some(periods_remaining(s)), Some(s.I)));
    let f_a = omul(p, Some(s.F));
    let f2_a = omul(p, Some(s.F2));
    let f5a_a = omul(p, Some(s.F5A));
    let u1_a = omul(p, Some(s.U1));
    let periodic = omax(
        osub(
            osub(
                osub(osub(osub(osub(osub(i_a, f_a), f2_a), f5a_a), u1_a), Some(s.HD)),
                Some(s.F1),
            ),
            Some(s.E),
        ),
        Some(zero_dec()),
    );
    let bonus = omax(osub(osub(Some(s.B), Some(s.F3)), Some(s.F5B)), Some(zero_dec()));
    let ytd_bonus = omax(osub(osub(Some(s.B1), Some(s.F4)), Some(s.F5B_ytd)), Some(zero_dec()));
    oadd(oadd(periodic, bonus), ytd_bonus)
}

/// T3 and T1 for a positive annual income `a`.
pub open spec fn federal_annual_of(s: T4127Context, a: Dec) -> Option<FederalAnnual> {
    let rk = bracket_for(s.config.federal.brackets@, a, lit(15, 2), zero_dec());
    let lowest = lowest_rate(s.config.federal.brackets@, lit(15, 2));
    let k1 = omul(Some(lowest), Some(s.TC));
    let k2 = omul(Some(lowest), oadd(cpp_credit_of(s), ei_credit_of(s)));
    let k4 = omin(
        omul(Some(lowest), Some(a)),
        omul(Some(lowest), Some(s.config.federal.canada_employment_amount)),
    );
    let t3 = omax(
        osub(osub(osub(osub(osub(omul(Some(rk.0), Some(a)), Some(rk.1)), k1), k2), Some(s.K3)), k4),
        Some(zero_dec()),
    );
    let t1 = omax(osub(t3, omul(Some(pint(s.P)), Some(s.LCF))), Some(zero_dec()));
    if t1 is None {
        None
    } else {
        Some(FederalAnnual { t3: t3->0, t1: t1->0 })
    }
}

/// What `fed_tax` does: the new context and the federal tax of the period.
pub open spec fn federal_outcome(s: T4127Context) -> Option<(T4127Context, Dec)> {
    if s.province == Province::QC {
        Some((T4127Context { T1: zero_dec(), T3: zero_dec(), A: zero_dec(), ..s }, zero_dec()))
    } else {
        let a = annual_income_of(s);
        if a is None {
            None
        } else if a->0.units() <= 0 {
            Some((T4127Context { A: a->0, T1: zero_dec(), T3: zero_dec(), ..s }, s.L))
        } else {
            let t = federal_annual_of(s, a->0);
            if t is None {
                None
            } else {
                let tax = oround2(oadd(odiv(Some(t->0.t1), Some(pint(s.P))), Some(s.L)));
                if tax is None {
                    None
                } else {
                    Some((T4127Context { A: a->0, T3: t->0.t3, T1: t->0.t1, ..s }, tax->0))
                }
            }
        }
    }
}

// ---------------------------------------------------------------------
// Provincial tax
// ---------------------------------------------------------------------

/// Multi-tier surtax: for each tier that `t4` exceeds, the excess times
/// the tier's rate, summed in order.
pub open spec fn surtax_sum(tiers: Seq<SurtaxTier>, t4: Dec) -> Option<Dec>
    decreases tiers.len(),
{
    if tiers.len() == 0 {
        Some(zero_dec())
    } else {
        let prev = surtax_sum(tiers.drop_last(), t4);
        let t = tiers.last();
        if t.threshold.units() < t4.units() {
            oadd(prev, omul(osub(Some(t4), Some(t.threshold)), Some(t.rate)))
        } else {
            prev
        }
    }
}

/// V1: the tiers when there are any, else the single surtax.
pub open spec fn surtax_of(cfg: ProvinceTaxRates, t4: Dec) -> Option<Dec> {
    if cfg.surtax_tiers@.len() > 0 {
        surtax_sum(cfg.surtax_tiers@, t4)
    } else if cfg.surtax is Some && cfg.surtax->0.threshold.units() < t4.units() {
        omul(osub(Some(t4), Some(cfg.surtax->0.threshold)), Some(cfg.surtax->0.rate))
    } else {
        Some(zero_dec())
    }
}

/// V2: the Ontario Health Premium for annual income `a`.
pub open spec fn health_premium_of(a: Dec) -> Dec {
    if a.units() <= lit(20000, 0).units() {
        zero_dec()
    } else if a.units() <= lit(25000, 0).units() {
        zero_dec()
    } else if a.units() <= lit(36000, 0).units() {
        lit(300, 0)
    } else if a.units() <= lit(48000, 0).units() {
        lit(450, 0)
    } else if a.units() <= lit(72000, 0).units() {
        lit(600, 0)
    } else if a.units() <= lit(200000, 0).units() {
        lit(750, 0)
    } else {
        lit(900, 0)
    }
}

/// K5P: Alberta's reduction, `max(K1P + K2P − threshold, 0) × rate`.
pub open spec fn k5p_of(s: T4127Context, cfg: ProvinceTaxRates, k1p: Option<Dec>, k2p: Option<Dec>) -> Option<Dec> {
    if s.province == Province::AB && cfg.k5p_threshold is Some && cfg.k5p_rate is Some {
        omul(
            omax(osub(oadd(k1p, k2p), Some(cfg.k5p_threshold->0)), Some(zero_dec())),
            Some(cfg.k5p_rate->0),
        )
    } else {
        Some(zero_dec())
    }
}

/// S: the Ontario and British Columbia tax reductions.
pub open spec fn reduction_of(s: T4127Context, cfg: ProvinceTaxRates, t4: Dec, v1: Option<Dec>) -> Option<Dec> {
    if s.province == Province::ON {
        let t4_v1 = oadd(Some(t4), v1);
        let s_calc = osub(omul(Some(lit(2, 0)), oadd(Some(cfg.s2_amount), Some(s.Y))), t4_v1);
        omax(omin(t4_v1, s_calc), Some(zero_dec()))
    } else if s.province == Province::BC {
        if s.A.units() <= lit(25570, 0).units() {
            Some(spec_min(t4, cfg.s2_amount))
        } else if s.A.units() <= lit(41722, 0).units() {
            let reduction = osub(
                Some(cfg.s2_amount),
                omul(osub(Some(s.A), Some(lit(25570, 0))), Some(lit(356, 4))),
            );
            omin(Some(t4), omax(reduction, Some(zero_dec())))
        } else {
            Some(zero_dec())
        }
    } else {
        Some(zero_dec())
    }
}

/// T4 of the province whose rates are `cfg`.
pub open spec fn provincial_basic_of(s: T4127Context, cfg: ProvinceTaxRates) -> Option<Dec> {
    let vk = bracket_for(cfg.brackets@, s.A, zero_dec(), zero_dec());
    let lowest = lowest_rate(cfg.brackets@, lit(5, 2));
    let k1p = omul(Some(lowest), Some(s.TCP));
    let k2p = omul(Some(lowest), oadd(cpp_credit_of(s), ei_credit_of(s)));
    let k4p = omul(Some(lowest), Some(spec_min(s.A, cfg.canada_employment_amount)));
    let k5p = k5p_of(s, cfg, k1p, k2p);
    omax(
        osub(
            osub(osub(osub(osub(osub(omul(Some(vk.0), Some(s.A)), Some(vk.1)), k1p), k2p), Some(s.K3P)), k4p),
            k5p,
        ),
        Some(zero_dec()),
    )
}

/// T2 given T4: `max(T4 + V1 + V2 − S − P × LCP, 0)`.
pub open spec fn provincial_annual_of(s: T4127Context, cfg: ProvinceTaxRates, t4: Dec) -> Option<Dec> {
    let v1 = surtax_of(cfg, t4);
    let v2 = if s.province == Province::ON {
        health_premium_of(s.A)
    } else {
        zero_dec()
    };
    let reduction = reduction_of(s, cfg, t4, v1);
    omax(
        osub(
            osub(oadd(oadd(Some(t4), v1), Some(v2)), reduction),
            omul(Some(pint(s.P)), Some(s.LCP)),
        ),
        Some(zero_dec()),
    )
}

/// What `prov_tax` does: the new context and the provincial tax of the period.
pub open spec fn provincial_outcome(s: T4127Context) -> Option<(T4127Context, Dec)> {
    if s.province == Province::QC || s.config.provincial.rates_of(s.province) is None {
        Some((T4127Context { T2: zero_dec(), ..s }, zero_dec()))
    } else {
        let cfg = s.config.provincial.rates_of(s.province)->0;
        let t4 = provincial_basic_of(s, cfg);
        if t4 is None {
            None
        } else {
            let t2 = provincial_annual_of(s, cfg, t4->0);
            let tax = oround2(odiv(t2, Some(pint(s.P))));
            if tax is None {
                None
            } else {
                Some((T4127Context { T4: t4->0, T2: t2->0, ..s }, tax->0))
            }
        }
    }
}

// ---------------------------------------------------------------------
// The whole calculation
// ---------------------------------------------------------------------

/// What `calc` does: CPP, then EI, then federal, then provincial tax.
pub open spec fn calc_outcome(s: T4127Context) -> Option<(T4127Context, PayrollDeductions)> {
    match cpp_outcome(s) {
        None => None,
        Some(o1) => match ei_outcome(o1.0) {
            None => None,
            Some(o2) => match federal_outcome(o2.0) {
                None => None,
                Some(o3) => match provincial_outcome(o3.0) {
                    None => None,
                    Some(o4) => Some(
                        (
                            o4.0,
                            PayrollDeductions {
                                cpp: o4.0.C,
                                cpp2: o4.0.C2,
                                ei: o2.1,
                                federal_tax: o3.1,
                                provincial_tax: o4.1,
                            },
                        ),
                    ),
                },
            },
        },
    }
}

// ---------------------------------------------------------------------
// The executable steps
// ---------------------------------------------------------------------

/// The fields that the steps compute, saved so that a failed calculation
/// can put them back.
#[derive(Clone, Copy)]
struct ComputedFields {
    A: Dec,
    C: Dec,
    C2: Dec,
    EI: Dec,
    F5: Dec,
    F5A: Dec,
    F5B: Dec,
    T1: Dec,
    T2: Dec,
    T3: Dec,
    T4: Dec,
}

/// The first bracket whose upper limit is at least `a`.
fn bracket_in(bs: &Vec<TaxBracket>, a: Dec, default_rate: Dec, default_constant: Dec) -> (r: (
    Dec,
    Dec,
))
    requires
        brackets_wf(bs@),
        a.wf(),
        default_rate.wf(),
        default_constant.wf(),
    ensures
        r == bracket_for(bs@, a, default_rate, default_constant),
        r.0.wf(),
        r.1.wf(),
{
    let n = bs.len();
    let mut i: usize = 0;
    proof {
        assert(bs@.subrange(0, n as int) =~= bs@);
    }
    while i < n
        invariant
            n == bs@.len(),
            i <= n,
            brackets_wf(bs@),
            a.wf(),
            bracket_for(bs@, a, default_rate, default_constant) == bracket_for(
                bs@.subrange(i as int, n as int),
                a,
                default_rate,
                default_constant,
            ),
        decreases n - i,
    {
        let ghost rest = bs@.subrange(i as int, n as int);
        proof {
            assert(rest.drop_first() =~= bs@.subrange(i + 1, n as int));
            assert(rest[0] == bs@[i as int]);
        }
        let b = bs[i];
        assert(b.wf());
        match b.upper_limit {
            Some(u) => {
                if dec_le(a, u) {
                    return (b.rate, b.constant);
                }
            },
            None => {
                return (b.rate, b.constant);
            },
        }
        i = i + 1;
    }
    (default_rate, default_constant)
}

/// The rate of the first bracket, or the default.
fn lowest_rate_in(bs: &Vec<TaxBracket>, default_rate: Dec) -> (r: Dec)
    requires
        brackets_wf(bs@),
        default_rate.wf(),
    ensures
        r == lowest_rate(bs@, default_rate),
        r.wf(),
{
    if bs.len() > 0 {
        assert(bs@[0].wf());
        bs[0].rate
    } else {
        default_rate
    }
}

/// A surtax sum that fails on a prefix fails on the whole.
proof fn lemma_surtax_none_extends(tiers: Seq<SurtaxTier>, t4: Dec, k: int)
    requires
        0 <= k <= tiers.len(),
        surtax_sum(tiers.subrange(0, k), t4) is None,
    ensures
        surtax_sum(tiers, t4) is None,
    decreases tiers.len(),
{
    if k == tiers.len() {
        assert(tiers.subrange(0, k) =~= tiers);
    } else {
        let t = tiers.drop_last();
        assert(t.subrange(0, k) =~= tiers.subrange(0, k));
        lemma_surtax_none_extends(t, t4, k);
    }
}

/// The multi-tier surtax.
fn surtax_sum_in(tiers: &Vec<SurtaxTier>, t4: Dec) -> (r: Option<Dec>)
    requires
        tiers_wf(tiers@),
        t4.wf(),
    ensures
        r == surtax_sum(tiers@, t4),
        r is Some ==> r->0.wf(),
{
    let n = tiers.len();
    let mut v1 = Dec::zero();
    let mut i: usize = 0;
    proof {
        assert(tiers@.subrange(0, 0).len() == 0);
    }
    while i < n
        invariant
            n == tiers@.len(),
            i <= n,
            tiers_wf(tiers@),
            t4.wf(),
            v1.wf(),
            surtax_sum(tiers@.subrange(0, i as int), t4) == Some(v1),
        decreases n - i,
    {
        let t = tiers[i];
        let ghost pre = tiers@.subrange(0, i + 1);
        proof {
            assert(pre.drop_last() =~= tiers@.subrange(0, i as int));
            assert(pre.last() == tiers@[i as int]);
            assert(tiers@[i as int].threshold.wf() && tiers@[i as int].rate.wf());
        }
        if dec_lt(t.threshold, t4) {
            let excess = match checked_sub(t4, t.threshold) {
                Some(x) => x,
                None => {
                    proof {
                        lemma_surtax_none_extends(tiers@, t4, i + 1);
                    }
                    return None;
                },
            };
            let add = match checked_mul(excess, t.rate) {
                Some(x) => x,
                None => {
                    proof {
                        lemma_surtax_none_extends(tiers@, t4, i + 1);
                    }
                    return None;
                },
            };
            v1 = match checked_add(v1, add) {
                Some(x) => x,
                None => {
                    proof {
                        lemma_surtax_none_extends(tiers@, t4, i + 1);
                    }
                    return None;
                },
            };
        }
        i = i + 1;
    }
    proof {
        assert(tiers@.subrange(0, n as int) =~= tiers@);
    }
    Some(v1)
}

impl T4127Context {
    /// The context for a tax year: 12 pay periods, a 30-year-old employee
    /// in Ontario, every amount zero.
    pub fn from_config(config: TaxYearConfig) -> (r: T4127Context)
        requires
            config.wf(),
        ensures
            r.wf(),
            r == T4127Context::default_for(config),
    {
        T4127Context {
            P: 12,
            cpp_exempt: false,
            ei_exempt: false,
            I: Dec::zero(),
            B: Dec::zero(),
            B1: Dec::zero(),
            PI: Dec::zero(),
            IE: Dec::zero(),
            TC: Dec::zero(),
            TCP: Dec::zero(),
            F: Dec::zero(),
            F1: Dec::zero(),
            F2: Dec::zero(),
            F4: Dec::zero(),
            U1: Dec::zero(),
            HD: Dec::zero(),
            L: Dec::zero(),
            D: Dec::zero(),
            DQ: Dec::zero(),
            D1: Dec::zero(),
            D2: Dec::zero(),
            D2Q: Dec::zero(),
            PM: 12,
            employee_age: 30,
            province: Province::ON,
            E: Dec::zero(),
            I1: Dec::zero(),
            LCF: Dec::zero(),
            LCP: Dec::zero(),
            K3: Dec::zero(),
            K3P: Dec::zero(),
            F3: Dec::zero(),
            Y: Dec::zero(),
            I_ytd: Dec::zero(),
            PR: 0,
            F5B_ytd: Dec::zero(),
            config,
            A: Dec::zero(),
            C: Dec::zero(),
            C2: Dec::zero(),
            EI: Dec::zero(),
            F5: Dec::zero(),
            F5A: Dec::zero(),
            F5B: Dec::zero(),
            T1: Dec::zero(),
            T2: Dec::zero(),
            T3: Dec::zero(),
            T4: Dec::zero(),
        }
    }

    /// The context that `from_config` builds.
    pub open spec fn default_for(config: TaxYearConfig) -> T4127Context {
        T4127Context {
            P: 12,
            cpp_exempt: false,
            ei_exempt: false,
            I: zero_dec(),
            B: zero_dec(),
            B1: zero_dec(),
            PI: zero_dec(),
            IE: zero_dec(),
            TC: zero_dec(),
            TCP: zero_dec(),
            F: zero_dec(),
            F1: zero_dec(),
            F2: zero_dec(),
            F4: zero_dec(),
            U1: zero_dec(),
            HD: zero_dec(),
            L: zero_dec(),
            D: zero_dec(),
            DQ: zero_dec(),
            D1: zero_dec(),
            D2: zero_dec(),
            D2Q: zero_dec(),
            PM: 12,
            employee_age: 30,
            province: Province::ON,
            E: zero_dec(),
            I1: zero_dec(),
            LCF: zero_dec(),
            LCP: zero_dec(),
            K3: zero_dec(),
            K3P: zero_dec(),
            F3: zero_dec(),
            Y: zero_dec(),
            I_ytd: zero_dec(),
            PR: 0,
            F5B_ytd: zero_dec(),
            config,
            A: zero_dec(),
            C: zero_dec(),
            C2: zero_dec(),
            EI: zero_dec(),
            F5: zero_dec(),
            F5A: zero_dec(),
            F5B: zero_dec(),
            T1: zero_dec(),
            T2: zero_dec(),
            T3: zero_dec(),
            T4: zero_dec(),
        }
    }

    fn remaining_cpp_room(&self) -> (r: Option<Dec>)
        requires
            self.wf(),
        ensures
            r == cpp_remaining(*self),
            r is Some ==> r->0.wf(),
    {
        checked_sub(self.config.cpp.max_contribution, self.D)
    }

    fn base_contribution(&self) -> (r: Option<Dec>)
        requires
            self.wf(),
        ensures
            r == cpp_base_of(*self),
            r is Some ==> r->0.wf() && r->0.units() >= 0,
            r is Some && cents_room(cpp_remaining(*self)) ==> r->0.units() <= cpp_remaining(
                *self,
            )->0.units(),
    {
        let exemption = checked_div(self.config.cpp.basic_exemption, Dec::from_int(self.P as i64))?;
        let above = checked_sub(self.PI, exemption)?;
        let pensionable = dec_max(above, Dec::zero());
        let this_period = checked_mul(pensionable, self.config.cpp.employee_rate)?;
        let remaining = self.remaining_cpp_room()?;
        let capped = dec_max(dec_min(this_period, remaining), Dec::zero());
        proof {
            lemma_units_sign(capped);
            lemma_round_nonneg(capped, 2);
            if remaining.units() >= 0 && whole_cents(remaining) {
                lemma_round2_le_whole_cents(capped, remaining);
            }
        }
        Some(round_dp_away(capped, 2))
    }

    fn second_contribution(&self, c: Dec) -> (r: Option<Dec>)
        requires
            self.wf(),
            c.wf(),
        ensures
            r == cpp2_of(*self, c),
            r is Some ==> r->0.wf() && r->0.units() >= 0,
            r is Some && cents_room(cpp2_remaining(*self)) ==> r->0.units() <= cpp2_remaining(
                *self,
            )->0.units(),
    {
        let annual = checked_mul(self.PI, Dec::from_int(self.P as i64))?;
        let remaining = self.remaining_cpp_room()?;
        let start = self.config.cpp.max_pensionable_earnings;
        if dec_lt(start, annual) && (dec_le(remaining, Dec::zero()) || dec_le(remaining, c)) {
            let room = checked_sub(self.config.cpp2.max_earnings, start)?;
            let over = checked_sub(annual, start)?;
            let tier_annual = dec_min(over, room);
            let tier_rate = checked_mul(tier_annual, self.config.cpp2.rate)?;
            let tier_period = checked_div(tier_rate, Dec::from_int(self.P as i64))?;
            let remaining2 = checked_sub(self.config.cpp2.max_contribution, self.D2)?;
            let capped = dec_max(dec_min(tier_period, remaining2), Dec::zero());
            proof {
                lemma_units_sign(capped);
                lemma_round_nonneg(capped, 2);
                if remaining2.units() >= 0 && whole_cents(remaining2) {
                    lemma_round2_le_whole_cents(capped, remaining2);
                }
            }
            Some(round_dp_away(capped, 2))
        } else {
            Some(Dec::zero())
        }
    }

    /// F5, F5A and F5B for contributions `c` and `c2`.
    fn calculate_f5(&self, c: Dec, c2: Dec) -> (r: Option<F5Parts>)
        requires
            self.wf(),
            c.wf(),
            c2.wf(),
        ensures
            r == f5_of(*self, c, c2),
            r is Some ==> r->0.f5.wf() && r->0.f5a.wf() && r->0.f5b.wf(),
    {
        let ratio = checked_div(
            self.config.cpp.first_additional_rate,
            self.config.cpp.employee_rate,
        )?;
        let scaled = checked_mul(c, ratio)?;
        let f5 = checked_add(scaled, c2)?;
        if dec_lt(Dec::zero(), self.PI) {
            let periodic = checked_sub(self.PI, self.B)?;
            let periodic_share = checked_div(periodic, self.PI)?;
            let f5a = checked_mul(f5, periodic_share)?;
            let bonus_share = checked_div(self.B, self.PI)?;
            let f5b = checked_mul(f5, bonus_share)?;
            Some(F5Parts { f5, f5a, f5b })
        } else {
            Some(F5Parts { f5, f5a: Dec::zero(), f5b: Dec::zero() })
        }
    }

    /// CPP: sets C, C2 (and F5, F5A, F5B) and returns `C + C2`.  Neither
    /// contribution is negative, and neither exceeds the room left under
    /// its yearly maximum when that room is a whole number of cents.
    pub fn cpp(&mut self) -> (r: Option<Dec>)
        requires
            old(self).wf(),
        ensures
            final(self).wf(),
            r is Some ==> final(self).C.units() >= 0 && final(self).C2.units() >= 0,
            r is Some && cents_room(cpp_remaining(*old(self))) ==> final(self).C.units() <= cpp_remaining(
                *old(self),
            )->0.units(),
            r is Some && cents_room(cpp2_remaining(*old(self))) ==> final(self).C2.units() <= cpp2_remaining(
                *old(self),
            )->0.units(),
            match cpp_outcome(*old(self)) {
                Some(o) => r == Some(o.1) && *final(self) == o.0,
                None => r is None && *final(self) == *old(self),
            },
    {
        if self.cpp_exempt {
            self.C = Dec::zero();
            self.C2 = Dec::zero();
            self.F5 = Dec::zero();
            self.F5A = Dec::zero();
            self.F5B = Dec::zero();
            return Some(Dec::zero());
        }
        if self.province == Province::QC || self.employee_age < 18 || self.employee_age > 70 {
            self.C = Dec::zero();
            self.C2 = Dec::zero();
            return Some(Dec::zero());
        }
        let c = match self.base_contribution() {
            Some(x) => x,
            None => return None,
        };
        let c2 = match self.second_contribution(c) {
            Some(x) => x,
            None => return None,
        };
        let f = match self.calculate_f5(c, c2) {
            Some(x) => x,
            None => return None,
        };
        let total = match checked_add(c, c2) {
            Some(x) => x,
            None => return None,
        };
        self.C = c;
        self.C2 = c2;
        self.F5 = f.f5;
        self.F5A = f.f5a;
        self.F5B = f.f5b;
        Some(total)
    }

    /// EI: sets and returns the premium of the pay period, which does not
    /// exceed the room left under the yearly maximum when that room is a
    /// whole number of cents.
    pub fn ei(&mut self) -> (r: Option<Dec>)
        requires
            old(self).wf(),
        ensures
            final(self).wf(),
            r is Some && cents_room(ei_remaining(*old(self))) ==> final(self).EI.units() <= ei_remaining(
                *old(self),
            )->0.units(),
            match ei_outcome(*old(self)) {
                Some(o) => r == Some(o.1) && *final(self) == o.0,
                None => r is None && *final(self) == *old(self),
            },
    {
        if self.ei_exempt || self.province == Province::QC || dec_le(
            self.config.ei.max_contribution,
            self.D1,
        ) {
            self.EI = Dec::zero();
            return Some(Dec::zero());
        }
        let this_period = match checked_mul(self.IE, self.config.ei.employee_rate) {
            Some(x) => x,
            None => return None,
        };
        let remaining = match checked_sub(self.config.ei.max_contribution, self.D1) {
            Some(x) => x,
            None => return None,
        };
        let capped = dec_min(this_period, remaining);
        proof {
            if remaining.units() >= 0 && whole_cents(remaining) {
                lemma_round2_le_whole_cents(capped, remaining);
            }
        }
        let ei = round_dp_away(capped, 2);
        self.EI = ei;
        Some(ei)
    }
}

impl T4127Context {
    fn cpp_credit(&self) -> (r: Option<Dec>)
        requires
            self.wf(),
        ensures
            r == cpp_credit_of(*self),
            r is Some ==> r->0.wf(),
    {
        let p = Dec::from_int(self.P as i64);
        let months = checked_div(Dec::from_int(self.PM as i64), Dec::new(12, 0))?;
        let max_allowed = checked_mul(self.config.cpp.max_base_contribution, months)?;
        let annual = checked_mul(p, self.C)?;
        let ratio = checked_div(self.config.cpp.base_rate, self.config.cpp.employee_rate)?;
        let credit = checked_mul(annual, ratio)?;
        Some(dec_min(credit, max_allowed))
    }

    fn ei_credit(&self) -> (r: Option<Dec>)
        requires
            self.wf(),
        ensures
            r == ei_credit_of(*self),
            r is Some ==> r->0.wf(),
    {
        let annual = checked_mul(Dec::from_int(self.P as i64), self.EI)?;
        Some(dec_min(annual, self.config.ei.max_contribution))
    }

    fn annual_income(&self) -> (r: Option<Dec>)
        requires
            self.wf(),
        ensures
            r == annual_income_of(*self),
            r is Some ==> r->0.wf(),
    {
        let p = Dec::from_int(self.P as i64);
        let pr = if self.PR > 0 {
            Dec::from_int(self.PR as i64)
        } else {
            p
        };
        let scaled = checked_mul(pr, self.I)?;
        let i_a = checked_add(self.I_ytd, scaled)?;
        let f_a = checked_mul(p, self.F)?;
        let f2_a = checked_mul(p, self.F2)?;
        let f5a_a = checked_mul(p, self.F5A)?;
        let u1_a = checked_mul(p, self.U1)?;
        let x1 = checked_sub(i_a, f_a)?;
        let x2 = checked_sub(x1, f2_a)?;
        let x3 = checked_sub(x2, f5a_a)?;
        let x4 = checked_sub(x3, u1_a)?;
        let x5 = checked_sub(x4, self.HD)?;
        let x6 = checked_sub(x5, self.F1)?;
        let x7 = checked_sub(x6, self.E)?;
        let periodic = dec_max(x7, Dec::zero());
        let b1 = checked_sub(self.B, self.F3)?;
        let b2 = checked_sub(b1, self.F5B)?;
        let bonus = dec_max(b2, Dec::zero());
        let y1 = checked_sub(self.B1, self.F4)?;
        let y2 = checked_sub(y1, self.F5B_ytd)?;
        let ytd_bonus = dec_max(y2, Dec::zero());
        let sum = checked_add(periodic, bonus)?;
        checked_add(sum, ytd_bonus)
    }

    /// Rate and constant of the federal bracket of annual income `a`.
    fn find_federal_bracket(&self, annual_income: Dec) -> (r: (Dec, Dec))
        requires
            self.wf(),
            annual_income.wf(),
        ensures
            r == bracket_for(self.config.federal.brackets@, annual_income, lit(15, 2), zero_dec()),
            r.0.wf(),
            r.1.wf(),
    {
        bracket_in(&self.config.federal.brackets, annual_income, Dec::new(15, 2), Dec::zero())
    }

    fn federal_annual(&self, a: Dec) -> (r: Option<FederalAnnual>)
        requires
            self.wf(),
            a.wf(),
        ensures
            r == federal_annual_of(*self, a),
            r is Some ==> r->0.t3.wf() && r->0.t1.wf() && r->0.t1.units() >= 0,
    {
        let rk = self.find_federal_bracket(a);
        let lowest = lowest_rate_in(&self.config.federal.brackets, Dec::new(15, 2));
        let k1 = checked_mul(lowest, self.TC)?;
        let cpp_credit = self.cpp_credit()?;
        let ei_credit = self.ei_credit()?;
        let credits = checked_add(cpp_credit, ei_credit)?;
        let k2 = checked_mul(lowest, credits)?;
        let on_income = checked_mul(lowest, a)?;
        let on_cea = checked_mul(lowest, self.config.federal.canada_employment_amount)?;
        let k4 = dec_min(on_income, on_cea);
        let ra = checked_mul(rk.0, a)?;
        let x1 = checked_sub(ra, rk.1)?;
        let x2 = checked_sub(x1, k1)?;
        let x3 = checked_sub(x2, k2)?;
        let x4 = checked_sub(x3, self.K3)?;
        let x5 = checked_sub(x4, k4)?;
        let t3 = dec_max(x5, Dec::zero());
        let lcf = checked_mul(Dec::from_int(self.P as i64), self.LCF)?;
        let y = checked_sub(t3, lcf)?;
        let t1 = dec_max(y, Dec::zero());
        Some(FederalAnnual { t3, t1 })
    }

    /// Federal tax: sets A, T3, T1 and returns the tax of the pay period,
    /// which is not negative when there are pay periods and the additional
    /// tax L is not negative.
    fn fed_tax(&mut self) -> (r: Option<Dec>)
        requires
            old(self).wf(),
        ensures
            final(self).wf(),
            r is Some && old(self).P > 0 && old(self).L.units() >= 0 ==> r->0.units() >= 0,
            match federal_outcome(*old(self)) {
                Some(o) => r == Some(o.1) && *final(self) == o.0,
                None => r is None && *final(self) == *old(self),
            },
    {
        if self.province == Province::QC {
            self.T1 = Dec::zero();
            self.T3 = Dec::zero();
            self.A = Dec::zero();
            return Some(Dec::zero());
        }
        let a = match self.annual_income() {
            Some(x) => x,
            None => return None,
        };
        if dec_le(a, Dec::zero()) {
            self.A = a;
            self.T1 = Dec::zero();
            self.T3 = Dec::zero();
            return Some(self.L);
        }
        let t = match self.federal_annual(a) {
            Some(x) => x,
            None => return None,
        };
        let per_period = match checked_div(t.t1, Dec::from_int(self.P as i64)) {
            Some(x) => x,
            None => return None,
        };
        let with_l = match checked_add(per_period, self.L) {
            Some(x) => x,
            None => return None,
        };
        proof {
            lemma_units_sign(t.t1);
            lemma_units_sign(self.L);
            if self.P > 0 && self.L.units() >= 0 {
                assert(per_period.mantissa >= 0);
                assert(with_l.mantissa >= 0);
                lemma_round_nonneg(with_l, 2);
            }
        }
        self.A = a;
        self.T3 = t.t3;
        self.T1 = t.t1;
        Some(round_dp_away(with_l, 2))
    }

    /// Rate and constant of the provincial bracket of annual income `a`.
    fn find_provincial_bracket(&self, annual_income: Dec) -> (r: (Dec, Dec))
        requires
            self.wf(),
            annual_income.wf(),
        ensures
            r == match self.config.provincial.rates_of(self.province) {
                Some(cfg) => bracket_for(cfg.brackets@, annual_income, zero_dec(), zero_dec()),
                None => (zero_dec(), zero_dec()),
            },
            r.0.wf(),
            r.1.wf(),
    {
        match self.config.provincial.get(self.province) {
            Some(cfg) => bracket_in(&cfg.brackets, annual_income, Dec::zero(), Dec::zero()),
            None => (Dec::zero(), Dec::zero()),
        }
    }

    fn k5p_reduction(&self, cfg: &ProvinceTaxRates, k1p: Dec, k2p: Dec) -> (r: Option<Dec>)
        requires
            self.wf(),
            cfg.wf(),
            k1p.wf(),
            k2p.wf(),
        ensures
            r == k5p_of(*self, *cfg, Some(k1p), Some(k2p)),
            r is Some ==> r->0.wf(),
    {
        if self.province == Province::AB {
            match (cfg.k5p_threshold, cfg.k5p_rate) {
                (Some(threshold), Some(rate)) => {
                    let k = checked_add(k1p, k2p)?;
                    let over = checked_sub(k, threshold)?;
                    checked_mul(dec_max(over, Dec::zero()), rate)
                },
                _ => Some(Dec::zero()),
            }
        } else {
            Some(Dec::zero())
        }
    }

    fn provincial_basic(&self, cfg: &ProvinceTaxRates) -> (r: Option<Dec>)
        requires
            self.wf(),
            cfg.wf(),
            self.config.provincial.rates_of(self.province) == Some(*cfg),
        ensures
            r == provincial_basic_of(*self, *cfg),
            r is Some ==> r->0.wf(),
    {
        let vk = self.find_provincial_bracket(self.A);
        let lowest = lowest_rate_in(&cfg.brackets, Dec::new(5, 2));
        let k1p = checked_mul(lowest, self.TCP)?;
        let cpp_credit = self.cpp_credit()?;
        let ei_credit = self.ei_credit()?;
        let credits = checked_add(cpp_credit, ei_credit)?;
        let k2p = checked_mul(lowest, credits)?;
        let k4p = checked_mul(lowest, dec_min(self.A, cfg.canada_employment_amount))?;
        let k5p = self.k5p_reduction(cfg, k1p, k2p)?;
        let va = checked_mul(vk.0, self.A)?;
        let x1 = checked_sub(va, vk.1)?;
        let x2 = checked_sub(x1, k1p)?;
        let x3 = checked_sub(x2, k2p)?;
        let x4 = checked_sub(x3, self.K3P)?;
        let x5 = checked_sub(x4, k4p)?;
        let x6 = checked_sub(x5, k5p)?;
        Some(dec_max(x6, Dec::zero()))
    }

    /// V1: the provincial surtax on basic provincial tax `t4`.
    fn calculate_provincial_surtax(&self, cfg: &ProvinceTaxRates, t4: Dec) -> (r: Option<Dec>)
        requires
            cfg.wf(),
            t4.wf(),
        ensures
            r == surtax_of(*cfg, t4),
            r is Some ==> r->0.wf(),
    {
        if cfg.surtax_tiers.len() > 0 {
            surtax_sum_in(&cfg.surtax_tiers, t4)
        } else {
            match cfg.surtax {
                Some(st) => {
                    if dec_lt(st.threshold, t4) {
                        let over = checked_sub(t4, st.threshold)?;
                        checked_mul(over, st.rate)
                    } else {
                        Some(Dec::zero())
                    }
                },
                None => Some(Dec::zero()),
            }
        }
    }

    /// V2: the Ontario Health Premium.
    fn calculate_ontario_health_premium(&self) -> (r: Dec)
        requires
            self.wf(),
        ensures
            r == health_premium_of(self.A),
            r.wf(),
    {
        if dec_le(self.A, Dec::new(20000, 0)) {
            Dec::zero()
        } else if dec_le(self.A, Dec::new(25000, 0)) {
            Dec::zero()
        } else if dec_le(self.A, Dec::new(36000, 0)) {
            Dec::new(300, 0)
        } else if dec_le(self.A, Dec::new(48000, 0)) {
            Dec::new(450, 0)
        } else if dec_le(self.A, Dec::new(72000, 0)) {
            Dec::new(600, 0)
        } else if dec_le(self.A, Dec::new(200000, 0)) {
            Dec::new(750, 0)
        } else {
            Dec::new(900, 0)
        }
    }

    /// S: the Ontario or British Columbia tax reduction.
    fn tax_reduction(&self, cfg: &ProvinceTaxRates, t4: Dec, v1: Dec) -> (r: Option<Dec>)
        requires
            self.wf(),
            cfg.wf(),
            t4.wf(),
            v1.wf(),
        ensures
            r == reduction_of(*self, *cfg, t4, Some(v1)),
            r is Some ==> r->0.wf(),
    {
        if self.province == Province::ON {
            let t4_v1 = checked_add(t4, v1)?;
            let s2y = checked_add(cfg.s2_amount, self.Y)?;
            let twice = checked_mul(Dec::new(2, 0), s2y)?;
            let s_calc = checked_sub(twice, t4_v1)?;
            Some(dec_max(dec_min(t4_v1, s_calc), Dec::zero()))
        } else if self.province == Province::BC {
            if dec_le(self.A, Dec::new(25570, 0)) {
                Some(dec_min(t4, cfg.s2_amount))
            } else if dec_le(self.A, Dec::new(41722, 0)) {
                let over = checked_sub(self.A, Dec::new(25570, 0))?;
                let phase = checked_mul(over, Dec::new(356, 4))?;
                let reduction = checked_sub(cfg.s2_amount, phase)?;
                Some(dec_min(t4, dec_max(reduction, Dec::zero())))
            } else {
                Some(Dec::zero())
            }
        } else {
            Some(Dec::zero())
        }
    }

    fn provincial_annual(&self, cfg: &ProvinceTaxRates, t4: Dec) -> (r: Option<Dec>)
        requires
            self.wf(),
            cfg.wf(),
            t4.wf(),
        ensures
            r == provincial_annual_of(*self, *cfg, t4),
            r is Some ==> r->0.wf() && r->0.units() >= 0,
    {
        let v1 = self.calculate_provincial_surtax(cfg, t4)?;
        let v2 = if self.province == Province::ON {
            self.calculate_ontario_health_premium()
        } else {
            Dec::zero()
        };
        let s = self.tax_reduction(cfg, t4, v1)?;
        let x1 = checked_add(t4, v1)?;
        let x2 = checked_add(x1, v2)?;
        let x3 = checked_sub(x2, s)?;
        let lcp = checked_mul(Dec::from_int(self.P as i64), self.LCP)?;
        let x4 = checked_sub(x3, lcp)?;
        let t2 = dec_max(x4, Dec::zero());
        Some(t2)
    }

    /// Provincial tax: sets T4, T2 and returns the tax of the pay period,
    /// which is not negative when there are pay periods.
    fn prov_tax(&mut self) -> (r: Option<Dec>)
        requires
            old(self).wf(),
        ensures
            final(self).wf(),
            r is Some && old(self).P > 0 ==> r->0.units() >= 0,
            match provincial_outcome(*old(self)) {
                Some(o) => r == Some(o.1) && *final(self) == o.0,
                None => r is None && *final(self) == *old(self),
            },
    {
        if self.province == Province::QC {
            self.T2 = Dec::zero();
            return Some(Dec::zero());
        }
        let computed = match self.config.provincial.get(self.province) {
            None => None,
            Some(cfg) => {
                match self.provincial_basic(cfg) {
                    None => Some(None),
                    Some(t4) => match self.provincial_annual(cfg, t4) {
                        None => Some(None),
                        Some(t2) => Some(Some((t4, t2))),
                    },
                }
            },
        };
        match computed {
            None => {
                self.T2 = Dec::zero();
                Some(Dec::zero())
            },
            Some(None) => None,
            Some(Some((t4, t2))) => {
                let per_period = match checked_div(t2, Dec::from_int(self.P as i64)) {
                    Some(x) => x,
                    None => return None,
                };
                proof {
                    lemma_units_sign(t2);
                    if self.P > 0 {
                        assert(per_period.mantissa >= 0);
                        lemma_round_nonneg(per_period, 2);
                    }
                }
                self.T4 = t4;
                self.T2 = t2;
                Some(round_dp_away(per_period, 2))
            },
        }
    }

    fn computed_fields(&self) -> (r: ComputedFields)
        ensures
            r == (ComputedFields {
                A: self.A,
                C: self.C,
                C2: self.C2,
                EI: self.EI,
                F5: self.F5,
                F5A: self.F5A,
                F5B: self.F5B,
                T1: self.T1,
                T2: self.T2,
                T3: self.T3,
                T4: self.T4,
            }),
    {
        ComputedFields {
            A: self.A,
            C: self.C,
            C2: self.C2,
            EI: self.EI,
            F5: self.F5,
            F5A: self.F5A,
            F5B: self.F5B,
            T1: self.T1,
            T2: self.T2,
            T3: self.T3,
            T4: self.T4,
        }
    }

    fn restore_fields(&mut self, saved: ComputedFields)
        ensures
            *final(self) == (T4127Context {
                A: saved.A,
                C: saved.C,
                C2: saved.C2,
                EI: saved.EI,
                F5: saved.F5,
                F5A: saved.F5A,
                F5B: saved.F5B,
                T1: saved.T1,
                T2: saved.T2,
                T3: saved.T3,
                T4: saved.T4,
                ..*old(self)
            }),
    {
        self.A = saved.A;
        self.C = saved.C;
        self.C2 = saved.C2;
        self.EI = saved.EI;
        self.F5 = saved.F5;
        self.F5A = saved.F5A;
        self.F5B = saved.F5B;
        self.T1 = saved.T1;
        self.T2 = saved.T2;
        self.T3 = saved.T3;
        self.T4 = saved.T4;
    }

    /// All deductions of the pay period: CPP, EI, federal and provincial
    /// tax, in that order.  `None` where an amount overflows or a divisor
    /// is zero; the context is then left as it was.
    ///
    /// The CPP contributions are not negative; CPP, CPP2 and EI stay
    /// within the room left under their yearly maximums (when that room is
    /// a whole number of cents); with pay periods, provincial tax is not
    /// negative, and neither is federal tax when L is not.
    pub fn calc(&mut self) -> (r: Option<PayrollDeductions>)
        requires
            old(self).wf(),
        ensures
            final(self).wf(),
            r is Some ==> r->0.cpp.units() >= 0 && r->0.cpp2.units() >= 0,
            r is Some && cents_room(cpp_remaining(*old(self))) ==> r->0.cpp.units()
                <= cpp_remaining(*old(self))->0.units(),
            r is Some && cents_room(cpp2_remaining(*old(self))) ==> r->0.cpp2.units()
                <= cpp2_remaining(*old(self))->0.units(),
            r is Some && cents_room(ei_remaining(*old(self))) ==> r->0.ei.units()
                <= ei_remaining(*old(self))->0.units(),
            r is Some && old(self).P > 0 ==> r->0.provincial_tax.units() >= 0,
            r is Some && old(self).P > 0 && old(self).L.units() >= 0 ==> r->0.federal_tax.units()
                >= 0,
            match calc_outcome(*old(self)) {
                Some(o) => r == Some(o.1) && *final(self) == o.0,
                None => r is None && *final(self) == *old(self),
            },
    {
        let saved = self.computed_fields();
        let ghost s0 = *self;
        if self.cpp().is_none() {
            return None;
        }
        let ei = match self.ei() {
            Some(x) => x,
            None => {
                self.restore_fields(saved);
                assert(*self == s0);
                return None;
            },
        };
        let fed = match self.fed_tax() {
            Some(x) => x,
            None => {
                self.restore_fields(saved);
                assert(*self == s0);
                return None;
            },
        };
        let prov = match self.prov_tax() {
            Some(x) => x,
            None => {
                self.restore_fields(saved);
                assert(*self == s0);
                return None;
            },
        };
        Some(
            PayrollDeductions {
                cpp: self.C,
                cpp2: self.C2,
                ei,
                federal_tax: fed,
                provincial_tax: prov,
            },
        )
    }
}

// ---------------------------------------------------------------------
// A pay period from an employee's records
// ---------------------------------------------------------------------

/// The T4127 variable (`F`, `U1` or `L`) that a deduction named `name` sets.
pub open spec fn deduction_target(name: Seq<char>) -> Option<Seq<char>> {
    match deduction_type_of_text(replace_char_spec(text_lowercase(name), ' ', "_"@)) {
        Some(dt) => deduction_variable(dt),
        None => None,
    }
}

/// The context with one additional deduction applied.
pub open spec fn apply_deduction(s: T4127Context, d: AdditionalDeduction) -> T4127Context {
    match deduction_target(d.name@) {
        Some(v) => if v == "F"@ {
            T4127Context { F: d.amount, ..s }
        } else if v == "U1"@ {
            T4127Context { U1: d.amount, ..s }
        } else if v == "L"@ {
            T4127Context { L: d.amount, ..s }
        } else {
            s
        },
        None => s,
    }
}

/// The context with the deductions applied in order (a later one wins).
pub open spec fn apply_deductions(s: T4127Context, ds: Seq<AdditionalDeduction>) -> T4127Context
    decreases ds.len(),
{
    if ds.len() == 0 {
        s
    } else {
        apply_deduction(apply_deductions(s, ds.drop_last()), ds.last())
    }
}

/// The context with the inputs of a pay period set.
pub open spec fn with_pay_inputs(
    s: T4127Context,
    periodic_income: Dec,
    non_periodic_income: Dec,
    gross_pay: Dec,
    pay_periods_per_year: i32,
    age: i32,
    ytd: YtdTotals,
    info: EmployeeInfo,
) -> T4127Context {
    T4127Context {
        P: pay_periods_per_year,
        I: periodic_income,
        B: non_periodic_income,
        B1: zero_dec(),
        PI: gross_pay,
        IE: gross_pay,
        TC: info.federal_personal_amount,
        TCP: info.provincial_personal_amount,
        D: ytd.cpp,
        D2: ytd.cpp2,
        D1: ytd.ei,
        employee_age: age,
        province: info.province,
        cpp_exempt: info.cpp_exempt,
        ei_exempt: info.ei_exempt,
        ..s
    }
}

/// What a pay period's calculation gives: the context it leaves and the
/// deductions.  The gross pay is the periodic plus the non-periodic income
/// (nothing is set when that sum overflows); the inputs are set from the
/// pay, the year-to-date totals and the employee information, then the
/// additional deductions, then `calc` runs (`None` where it overflows).
pub open spec fn deductions_outcome(
    s: T4127Context,
    periodic_income: Dec,
    non_periodic_income: Dec,
    pay_periods_per_year: i32,
    pay_date: Date,
    ytd: YtdTotals,
    info: EmployeeInfo,
    ds: Seq<AdditionalDeduction>,
) -> (T4127Context, Option<PayrollDeductions>) {
    match crate::decimal::dec_checked_add(periodic_income, non_periodic_income) {
        None => (s, None),
        Some(gross) => {
            let s1 = apply_deductions(
                with_pay_inputs(
                    s,
                    periodic_income,
                    non_periodic_income,
                    gross,
                    pay_periods_per_year,
                    age_between(info.date_of_birth, pay_date) as i32,
                    ytd,
                    info,
                ),
                ds,
            );
            match calc_outcome(s1) {
                Some(o) => (o.0, Some(o.1)),
                None => (s1, None),
            }
        },
    }
}

impl T4127Context {
    fn apply_additional_deductions(&mut self, additional_deductions: &Vec<AdditionalDeduction>)
        requires
            old(self).wf(),
            deductions_wf(additional_deductions@),
        ensures
            final(self).wf(),
            *final(self) == apply_deductions(*old(self), additional_deductions@),
    {
        let n = additional_deductions.len();
        let mut i: usize = 0;
        proof {
            assert(additional_deductions@.subrange(0, 0).len() == 0);
        }
        while i < n
            invariant
                n == additional_deductions@.len(),
                i <= n,
                self.wf(),
                deductions_wf(additional_deductions@),
                *self == apply_deductions(
                    *old(self),
                    additional_deductions@.subrange(0, i as int),
                ),
            decreases n - i,
        {
            let ghost pre = additional_deductions@.subrange(0, i + 1);
            proof {
                assert(pre.drop_last() =~= additional_deductions@.subrange(0, i as int));
                assert(pre.last() == additional_deductions@[i as int]);
            }
            let deduction = &additional_deductions[i];
            if let Some(deduction_type) = DeductionType::from_str(deduction.name.as_str()) {
                if let Some(var) = deduction_type.t4127_variable() {
                    if str_eq(var, "F") {
                        self.F = deduction.amount;
                    } else if str_eq(var, "U1") {
                        self.U1 = deduction.amount;
                    } else if str_eq(var, "L") {
                        self.L = deduction.amount;
                    }
                }
            }
            i = i + 1;
        }
        proof {
            assert(additional_deductions@.subrange(0, n as int) =~= additional_deductions@);
        }
    }

    /// All deductions of a pay period, from the employee's year-to-date
    /// totals and information and the pay's additional deductions, which
    /// set F, U1 and L (see `deductions_outcome`).  `None` where an amount
    /// overflows; the inputs are then set or, if the gross pay itself
    /// overflows, nothing is.
    pub fn deductions_with(
        &mut self,
        periodic_income: Dec,
        non_periodic_income: Dec,
        pay_periods_per_year: i32,
        pay_date: Date,
        ytd: &YtdTotals,
        employee_info: &EmployeeInfo,
        additional_deductions: &Vec<AdditionalDeduction>,
    ) -> (r: Option<PayrollDeductions>)
        requires
            old(self).wf(),
            periodic_income.wf(),
            non_periodic_income.wf(),
            pay_date.valid(),
            ytd.wf(),
            employee_info.wf(),
            deductions_wf(additional_deductions@),
        ensures
            final(self).wf(),
            (*final(self), r) == deductions_outcome(
                *old(self),
                periodic_income,
                non_periodic_income,
                pay_periods_per_year,
                pay_date,
                *ytd,
                *employee_info,
                additional_deductions@,
            ),
    {
        let employee_age = employee_info.age_as_of(pay_date);
        let gross_pay = match checked_add(periodic_income, non_periodic_income) {
            Some(g) => g,
            None => return None,
        };
        self.P = pay_periods_per_year;
        self.I = periodic_income;
        self.B = non_periodic_income;
        self.B1 = Dec::zero();
        self.PI = gross_pay;
        self.IE = gross_pay;
        self.TC = employee_info.federal_personal_amount;
        self.TCP = employee_info.provincial_personal_amount;
        self.D = ytd.cpp;
        self.D2 = ytd.cpp2;
        self.D1 = ytd.ei;
        self.employee_age = employee_age;
        self.province = employee_info.province;
        self.cpp_exempt = employee_info.cpp_exempt;
        self.ei_exempt = employee_info.ei_exempt;
        self.apply_additional_deductions(additional_deductions);
        self.calc()
    }

    /// All deductions of a pay period, with the employee's year-to-date
    /// totals and information taken from the two providers, each asked for
    /// `employee_id` and the pay date's year, the totals first.  The first
    /// provider's error is passed on without asking the second, then the
    /// second provider's error; then totals that are not valid, then
    /// information that is not valid, give an error; the context is then
    /// left as it was.  Otherwise the result is what `deductions_outcome`
    /// gives of what the providers returned: `Ok(None)` where an amount
    /// overflows.
    pub fn calculate_all_deductions<Y: YtdProvider, E: EmployeeProvider>(
        &mut self,
        employee_id: i64,
        periodic_income: Dec,
        non_periodic_income: Dec,
        pay_periods_per_year: i32,
        pay_date: Date,
        ytd_provider: &Y,
        employee_provider: &E,
        additional_deductions: &Vec<AdditionalDeduction>,
    ) -> (r: Result<Option<PayrollDeductions>, String>)
        requires
            old(self).wf(),
            periodic_income.wf(),
            non_periodic_income.wf(),
            pay_date.valid(),
            deductions_wf(additional_deductions@),
        ensures
            final(self).wf(),
            r is Err ==> *final(self) == *old(self),
            r matches Ok(d) ==> exists|y: YtdTotals, e: EmployeeInfo|
                call_ensures(
                    Y::get_ytd_totals,
                    (ytd_provider, employee_id, pay_date.year),
                    Ok::<YtdTotals, String>(y),
                ) && call_ensures(
                    E::get_employee_info,
                    (employee_provider, employee_id, pay_date.year),
                    Ok::<EmployeeInfo, String>(e),
                ) && y.wf() && e.wf() && #[trigger] deductions_outcome(
                    *old(self),
                    periodic_income,
                    non_periodic_income,
                    pay_periods_per_year,
                    pay_date,
                    y,
                    e,
                    additional_deductions@,
                ) == (*final(self), d),
            r matches Err(m) ==> {
                ||| call_ensures(
                    Y::get_ytd_totals,
                    (ytd_provider, employee_id, pay_date.year),
                    Err::<YtdTotals, String>(m),
                )
                ||| exists|y: YtdTotals|
                    #[trigger] call_ensures(
                        Y::get_ytd_totals,
                        (ytd_provider, employee_id, pay_date.year),
                        Ok::<YtdTotals, String>(y),
                    ) && {
                        ||| call_ensures(
                            E::get_employee_info,
                            (employee_provider, employee_id, pay_date.year),
                            Err::<EmployeeInfo, String>(m),
                        )
                        ||| exists|e: EmployeeInfo|
                            #[trigger] call_ensures(
                                E::get_employee_info,
                                (employee_provider, employee_id, pay_date.year),
                                Ok::<EmployeeInfo, String>(e),
                            ) && {
                                ||| !y.wf() && m@ == "Invalid year-to-date totals"@
                                ||| y.wf() && !e.wf() && m@ == "Invalid employee information"@
                            }
                    }
            },
    {
        let year = pay_date.year;
        let ytd = match ytd_provider.get_ytd_totals(employee_id, year) {
            Ok(y) => y,
            Err(m) => return Err(m),
        };
        let employee_info = match employee_provider.get_employee_info(employee_id, year) {
            Ok(e) => e,
            Err(m) => return Err(m),
        };
        if !ytd.is_valid() {
            return Err(to_owned_string("Invalid year-to-date totals"));
        }
        if !employee_info.is_valid() {
            return Err(to_owned_string("Invalid employee information"));
        }
        let ghost s0 = *self;
        let d = self.deductions_with(
            periodic_income,
            non_periodic_income,
            pay_periods_per_year,
            pay_date,
            &ytd,
            &employee_info,
            additional_deductions,
        );
        proof {
            assert(deductions_outcome(
                s0,
                periodic_income,
                non_periodic_income,
                pay_periods_per_year,
                pay_date,
                ytd,
                employee_info,
                additional_deductions@,
            ) == (*self, d));
        }
        Ok(d)
    }
}

// ---------------------------------------------------------------------
// Laws of the calculation
// ---------------------------------------------------------------------

/// The deductions of a calculation that has no amounts.
pub open spec fn no_deductions() -> PayrollDeductions {
    PayrollDeductions {
        cpp: zero_dec(),
        cpp2: zero_dec(),
        ei: zero_dec(),
        federal_tax: zero_dec(),
        provincial_tax: zero_dec(),
    }
}

/// Quebec is outside these formulas: a calculation for Quebec always
/// succeeds and deducts nothing.
pub proof fn law_quebec_deducts_nothing(s: T4127Context)
    requires
        s.wf(),
        s.province == Province::QC,
    ensures
        calc_outcome(s) is Some,
        calc_outcome(s) matches Some(o) && o.1 == no_deductions(),
{
}

/// A CPP-exempt employee contributes neither CPP nor CPP2.
pub proof fn law_cpp_exempt_contributes_nothing(s: T4127Context)
    requires
        s.wf(),
        s.cpp_exempt,
    ensures
        calc_outcome(s) matches Some(o) ==> o.1.cpp == zero_dec() && o.1.cpp2 == zero_dec(),
{
}

/// An employee younger than 18 or older than 70 contributes no CPP.
pub proof fn law_cpp_age_limits(s: T4127Context)
    requires
        s.wf(),
        s.employee_age < 18 || s.employee_age > 70,
    ensures
        calc_outcome(s) matches Some(o) ==> o.1.cpp == zero_dec() && o.1.cpp2 == zero_dec(),
{
}

/// An EI-exempt employee pays no EI premium.
pub proof fn law_ei_exempt_pays_nothing(s: T4127Context)
    requires
        s.wf(),
        s.ei_exempt,
    ensures
        calc_outcome(s) matches Some(o) ==> o.1.ei == zero_dec(),
{
}

/// Once the year's premiums reach the maximum, no EI premium is taken.
pub proof fn law_ei_stops_at_maximum(s: T4127Context)
    requires
        s.wf(),
        s.config.ei.max_contribution.units() <= s.D1.units(),
    ensures
        calc_outcome(s) matches Some(o) ==> o.1.ei == zero_dec(),
{
}


/// The CPP step does not read the fields that the later steps write, and
/// writes again what it wrote before.
proof fn lemma_cpp_again(s: T4127Context, t: T4127Context)
    requires
        cpp_outcome(s) is Some,
        t == (T4127Context {
            EI: t.EI,
            A: t.A,
            T1: t.T1,
            T2: t.T2,
            T3: t.T3,
            T4: t.T4,
            ..cpp_outcome(s).unwrap().0
        }),
    ensures
        cpp_outcome(t) == Some((t, cpp_outcome(s).unwrap().1)),
{
}

/// The EI step does not read the fields that the tax steps write.
proof fn lemma_ei_again(s: T4127Context, t: T4127Context)
    requires
        ei_outcome(s) is Some,
        t == (T4127Context { A: t.A, T1: t.T1, T2: t.T2, T3: t.T3, T4: t.T4, ..ei_outcome(s).unwrap().0 }),
    ensures
        ei_outcome(t) == Some((t, ei_outcome(s).unwrap().1)),
{
}

/// The federal step does not read the fields that the provincial step writes.
proof fn lemma_federal_again(s: T4127Context, t: T4127Context)
    requires
        federal_outcome(s) is Some,
        t == (T4127Context { T2: t.T2, T4: t.T4, ..federal_outcome(s).unwrap().0 }),
    ensures
        federal_outcome(t) == Some((t, federal_outcome(s).unwrap().1)),
{
}

/// The provincial step writes again what it wrote before.
proof fn lemma_provincial_again(s: T4127Context)
    requires
        provincial_outcome(s) is Some,
    ensures
        provincial_outcome(provincial_outcome(s).unwrap().0) == Some(provincial_outcome(s).unwrap()),
{
}

/// Running the calculation again on the context that it leaves gives the
/// same deductions and leaves the context as it was.
#[verifier::rlimit(100)]
pub proof fn law_calc_repeatable(s: T4127Context)
    requires
        s.wf(),
        calc_outcome(s) is Some,
    ensures
        calc_outcome(calc_outcome(s).unwrap().0) == calc_outcome(s),
{
    let o1 = cpp_outcome(s).unwrap();
    let o2 = ei_outcome(o1.0).unwrap();
    let o3 = federal_outcome(o2.0).unwrap();
    let o4 = provincial_outcome(o3.0).unwrap();
    let t = o4.0;
    lemma_cpp_again(s, t);
    lemma_ei_again(o1.0, t);
    lemma_federal_again(o2.0, t);
    lemma_provincial_again(o3.0);
}

/// British Columbia's tax reduction for an annual taxable income `A` above
/// $25,570 and at most $41,722 is the basic reduction (`s2_amount`) less
/// 3.56% of the income above $25,570, at least zero and at most T4. So it
/// never exceeds the basic reduction (nor zero, where that is negative),
/// never exceeds T4, and does not grow as the income grows. This holds
/// where rust_decimal computes as `checked_sub` and `checked_mul` state,
/// for an income with at most three decimals and a basic reduction of at
/// most three decimals and 10^17 dollars.
pub proof fn law_bc_tax_reduction(s: T4127Context, cfg: ProvinceTaxRates, t4: Dec, v1: Option<Dec>)
    requires
        arithmetic_as_stated(),
        s.province == Province::BC,
        amount_within(s.A, 1000000000000000000000000000000000int),
        lit(25570, 0).units() < s.A.units() <= lit(41722, 0).units(),
        amount_within(cfg.s2_amount, 1000000000000000000000000000000000000000000000int),
        t4.wf(),
    ensures
        reduction_of(s, cfg, t4, v1) is Some,
        ({
            let r = reduction_of(s, cfg, t4, v1)->0;
            let left = 10000 * cfg.s2_amount.units() - 356 * (s.A.units() - lit(25570, 0).units());
            let floored = if left > 0 {
                left
            } else {
                0
            };
            &&& 10000 * r.units() == (if 10000 * t4.units() < floored {
                10000 * t4.units()
            } else {
                floored
            })
            &&& r.units() <= t4.units()
            &&& r.units() <= (if cfg.s2_amount.units() > 0 {
                cfg.s2_amount.units()
            } else {
                0
            })
        }),
{
    lemma_bc_reduction_value(s, cfg, t4, v1);
}

/// Within the band of British Columbia's phase-out, the tax reduction of a
/// larger income is no larger (same rates and T4).
pub proof fn law_bc_tax_reduction_falls(
    s: T4127Context,
    u: T4127Context,
    cfg: ProvinceTaxRates,
    t4: Dec,
    v1: Option<Dec>,
)
    requires
        arithmetic_as_stated(),
        s.province == Province::BC,
        u.province == Province::BC,
        amount_within(s.A, 1000000000000000000000000000000000int),
        amount_within(u.A, 1000000000000000000000000000000000int),
        lit(25570, 0).units() < s.A.units() <= u.A.units() <= lit(41722, 0).units(),
        amount_within(cfg.s2_amount, 1000000000000000000000000000000000000000000000int),
        t4.wf(),
    ensures
        reduction_of(s, cfg, t4, v1) is Some,
        reduction_of(u, cfg, t4, v1) is Some,
        reduction_of(u, cfg, t4, v1)->0.units() <= reduction_of(s, cfg, t4, v1)->0.units(),
{
    lemma_bc_reduction_value(s, cfg, t4, v1);
    lemma_bc_reduction_value(u, cfg, t4, v1);
}

proof fn lemma_bc_reduction_value(s: T4127Context, cfg: ProvinceTaxRates, t4: Dec, v1: Option<Dec>)
    requires
        arithmetic_as_stated(),
        s.province == Province::BC,
        amount_within(s.A, 1000000000000000000000000000000000int),
        lit(25570, 0).units() < s.A.units() <= lit(41722, 0).units(),
        amount_within(cfg.s2_amount, 1000000000000000000000000000000000000000000000int),
        t4.wf(),
    ensures
        reduction_of(s, cfg, t4, v1) is Some,
        ({
            let r = reduction_of(s, cfg, t4, v1)->0;
            let left = 10000 * cfg.s2_amount.units() - 356 * (s.A.units() - lit(25570, 0).units());
            let floored = if left > 0 {
                left
            } else {
                0
            };
            &&& 10000 * r.units() == (if 10000 * t4.units() < floored {
                10000 * t4.units()
            } else {
                floored
            })
            &&& r.units() <= t4.units()
            &&& r.units() <= (if cfg.s2_amount.units() > 0 {
                cfg.s2_amount.units()
            } else {
                0
            })
        }),
{
    lemma_pow10_high();
    let k = lit(25570, 0);
    lemma_lit_units(25570, 0);
    lemma_lit_units(41722, 0);
    let f = lit(356, 4);
    lemma_lit_units(356, 4);
    let big: int = 1000000000000000000000000000000000int;
    assert(amount_within(k, big));
    lemma_exact_sub(s.A, k, big, big);
    let over = dec_checked_sub(s.A, k)->0;
    let os = over.scale as nat;
    lemma_units_sign(over);
    lemma_units_at_most_three(over);
    assert(0 < over.units() <= 16152 * pow10(28));
    assert(0 < over.mantissa <= 16152000) by (nonlinear_arith)
        requires
            0 < over.units() <= 161520000000000000000000000000000,
            os <= 3,
            os == 0 ==> over.units() == over.mantissa * 10000000000000000000000000000,
            os == 1 ==> over.units() == over.mantissa * 1000000000000000000000000000,
            os == 2 ==> over.units() == over.mantissa * 100000000000000000000000000,
            os == 3 ==> over.units() == over.mantissa * 10000000000000000000000000,
    ;
    assert(multiplies_as_stated_at(over, f));
    assert(abs(over.mantissa * 356) <= max_mantissa()) by (nonlinear_arith)
        requires
            0 < over.mantissa <= 16152000,
    ;
    let phase = dec_checked_mul(over, f)->0;
    assert(phase.mantissa == over.mantissa * 356 && phase.scale == over.scale + 4);
    // 10^4 × phase = 356 × over, in units
    lemma_pow10_add((24 - os) as nat, 4);
    assert(((24 - os) as nat + 4) as nat == (28 - os) as nat);
    lemma_pow10_add(0, 4);
    assert(pow10(4) == 10000) by {
        reveal_with_fuel(pow10, 5);
    }
    assert((28 - phase.scale) as nat == (24 - os) as nat);
    assert(10000 * phase.units() == 356 * over.units()) by (nonlinear_arith)
        requires
            phase.units() == over.mantissa * 356 * pow10((24 - os) as nat),
            over.units() == over.mantissa * pow10((28 - os) as nat),
            pow10((28 - os) as nat) == pow10((24 - os) as nat) * 10000,
    ;
    assert(phase.mantissa != 0);
    // the reduction before flooring
    let s2 = cfg.s2_amount;
    assert(subtracts_as_stated_at(s2, phase));
    let red = dec_checked_sub(s2, phase)->0;
    if s2.mantissa == 0 {
        lemma_units_sign(s2);
        assert(red.units() == -phase.units()) by (nonlinear_arith)
            requires
                red.mantissa == -phase.mantissa,
                red.scale == phase.scale,
                red.units() == red.mantissa * pow10((28 - red.scale) as nat),
                phase.units() == phase.mantissa * pow10((28 - phase.scale) as nat),
        ;
    } else {
        let l = if s2.scale >= phase.scale {
            s2.scale
        } else {
            phase.scale
        };
        assert(l <= 7);
        lemma_pow10_add(21, (7 - l) as nat);
        assert((21 + (7 - l) as nat) as nat == (28 - l) as nat);
        lemma_pow10_add(21, 4);
        lemma_pow10_pos((7 - l) as nat);
        assert(pow10(21) == 1000000000000000000000);
        assert(pow10((28 - l) as nat) >= 1000000000000000000000) by (nonlinear_arith)
            requires
                pow10((28 - l) as nat) == pow10(21) * pow10((7 - l) as nat),
                pow10((7 - l) as nat) >= 1,
                pow10(21) == 1000000000000000000000,
        ;
        assert(max_mantissa() * pow10((28 - l) as nat) >= 1000000000000000000000000000000000000000000000000int) by (nonlinear_arith)
            requires
                pow10((28 - l) as nat) >= 1000000000000000000000,
                max_mantissa() == 79228162514264337593543950335,
        ;
        assert(abs(phase.units()) <= 1000000000000000000000000000000000int);
    }
    assert(10000 * red.units() == 10000 * s2.units() - 356 * (s.A.units() - k.units()));
}

} // verus!
