//! Tax-year configuration, employee information and deduction totals.
use vstd::prelude::*;
use crate::date::{Date, age_between, age_on};
use crate::decimal::{Dec, checked_add, dec_checked_add};
use crate::models::province::Province;
use crate::models::payroll_record::YtdTotals;

pub mod t4127;
pub mod config;

verus! {

/// Information about an employee that a payroll run needs.
#[derive(Debug, Clone)]
pub struct EmployeeInfo {
    pub date_of_birth: Date,
    pub province: Province,
    pub cpp_exempt: bool,
    pub ei_exempt: bool,
    pub federal_personal_amount: Dec,
    pub provincial_personal_amount: Dec,
}

impl EmployeeInfo {
    /// Whole years of age on `date`.
    pub fn age_as_of(&self, date: Date) -> (r: i32)
        requires
            self.date_of_birth.valid(),
            date.valid(),
        ensures
            r == age_between(self.date_of_birth, date),
    {
        age_on(self.date_of_birth, date)
    }
}

impl EmployeeInfo {
    /// A calendar birth date and valid personal amounts.
    pub open spec fn wf(self) -> bool {
        &&& self.date_of_birth.valid()
        &&& self.federal_personal_amount.wf()
        &&& self.provincial_personal_amount.wf()
    }

    /// Whether the information is usable (see `wf`).
    pub fn is_valid(&self) -> (r: bool)
        ensures
            r == self.wf(),
    {
        let d = self.date_of_birth;
        Date::from_ymd_opt(d.year, d.month, d.day).is_some() && self.federal_personal_amount.is_valid()
            && self.provincial_personal_amount.is_valid()
    }
}

/// Where a payroll run gets an employee's year-to-date totals from; users
/// of the library implement it over their own storage.
pub trait YtdProvider {
    /// The employee's totals of the year, or the text of what went wrong.
    fn get_ytd_totals(&self, employee_id: i64, year: i32) -> Result<YtdTotals, String>;
}

/// Where a payroll run gets an employee's information from; users of the
/// library implement it over their own storage.
pub trait EmployeeProvider {
    /// The employee's information for the year (its personal amounts), or
    /// the text of what went wrong.
    fn get_employee_info(&self, employee_id: i64, year: i32) -> Result<EmployeeInfo, String>;
}

/// Rates and limits of one tax year.
#[derive(Debug, Clone)]
pub struct TaxYearConfig {
    pub year: i32,
    pub cpp: CppConfig,
    pub cpp2: Cpp2Config,
    pub ei: EiConfig,
    pub federal: FederalTaxConfig,
    pub provincial: ProvincialTaxConfig,
}

#[derive(Debug, Clone, Copy)]
pub struct CppConfig {
    pub basic_exemption: Dec,
    pub max_pensionable_earnings: Dec,
    pub base_rate: Dec,
    pub first_additional_rate: Dec,
    pub employee_rate: Dec,
    pub max_contribution: Dec,
    pub max_base_contribution: Dec,
}

#[derive(Debug, Clone, Copy)]
pub struct Cpp2Config {
    pub rate: Dec,
    pub max_earnings: Dec,
    pub max_contribution: Dec,
}

#[derive(Debug, Clone, Copy)]
pub struct EiConfig {
    pub max_insurable_earnings: Dec,
    pub employee_rate: Dec,
    pub qc_employee_rate: Dec,
    pub max_contribution: Dec,
    pub qc_max_contribution: Dec,
}

#[derive(Debug, Clone)]
pub struct FederalTaxConfig {
    pub basic_personal_amount: Dec,
    pub canada_employment_amount: Dec,
    pub brackets: Vec<TaxBracket>,
}

/// The rates of each province, at most one entry per province.
#[derive(Debug, Clone)]
pub struct ProvincialTaxConfig {
    pub province_configs: Vec<(Province, ProvinceTaxRates)>,
}

#[derive(Debug, Clone)]
pub struct ProvinceTaxRates {
    pub basic_personal_amount: Dec,
    pub canada_employment_amount: Dec,
    pub brackets: Vec<TaxBracket>,
    pub surtax: Option<Surtax>,
    pub surtax_tiers: Vec<SurtaxTier>,
    /// Alberta's K5P reduction threshold.
    pub k5p_threshold: Option<Dec>,
    /// Alberta's K5P reduction rate.
    pub k5p_rate: Option<Dec>,
    /// S2 amount of the provincial tax reduction.
    pub s2_amount: Dec,
}

/// One bracket: income up to `upper_limit` (none for the top bracket) is
/// taxed at `rate`, less the constant `constant`.
#[derive(Debug, Clone, Copy)]
pub struct TaxBracket {
    pub lower_limit: Dec,
    pub upper_limit: Option<Dec>,
    pub rate: Dec,
    pub constant: Dec,
}

#[derive(Debug, Clone, Copy)]
pub struct Surtax {
    pub threshold: Dec,
    pub rate: Dec,
}

#[derive(Debug, Clone, Copy)]
pub struct SurtaxTier {
    pub threshold: Dec,
    pub rate: Dec,
}

/// The deductions of one pay period.
#[derive(Debug, Clone, Copy)]
pub struct PayrollDeductions {
    pub cpp: Dec,
    pub cpp2: Dec,
    pub ei: Dec,
    pub federal_tax: Dec,
    pub provincial_tax: Dec,
}

// ---------------------------------------------------------------------
// Well-formedness: every amount is a valid decimal, provinces are unique
// ---------------------------------------------------------------------

pub open spec fn opt_wf(d: Option<Dec>) -> bool {
    d is Some ==> d->0.wf()
}

impl TaxBracket {
    pub open spec fn wf(self) -> bool {
        &&& self.lower_limit.wf()
        &&& opt_wf(self.upper_limit)
        &&& self.rate.wf()
        &&& self.constant.wf()
    }
}

pub open spec fn brackets_wf(bs: Seq<TaxBracket>) -> bool {
    forall|i: int| 0 <= i < bs.len() ==> (#[trigger] bs[i]).wf()
}

pub open spec fn tiers_wf(ts: Seq<SurtaxTier>) -> bool {
    forall|i: int| 0 <= i < ts.len() ==> (#[trigger] ts[i]).threshold.wf() && ts[i].rate.wf()
}

impl CppConfig {
    pub open spec fn wf(self) -> bool {
        &&& self.basic_exemption.wf()
        &&& self.max_pensionable_earnings.wf()
        &&& self.base_rate.wf()
        &&& self.first_additional_rate.wf()
        &&& self.employee_rate.wf()
        &&& self.max_contribution.wf()
        &&& self.max_base_contribution.wf()
    }
}

impl Cpp2Config {
    pub open spec fn wf(self) -> bool {
        &&& self.rate.wf()
        &&& self.max_earnings.wf()
        &&& self.max_contribution.wf()
    }
}

impl EiConfig {
    pub open spec fn wf(self) -> bool {
        &&& self.max_insurable_earnings.wf()
        &&& self.employee_rate.wf()
        &&& self.qc_employee_rate.wf()
        &&& self.max_contribution.wf()
        &&& self.qc_max_contribution.wf()
    }
}

impl FederalTaxConfig {
    pub open spec fn wf(self) -> bool {
        &&& self.basic_personal_amount.wf()
        &&& self.canada_employment_amount.wf()
        &&& brackets_wf(self.brackets@)
    }
}

impl ProvinceTaxRates {
    pub open spec fn wf(self) -> bool {
        &&& self.basic_personal_amount.wf()
        &&& self.canada_employment_amount.wf()
        &&& brackets_wf(self.brackets@)
        &&& (self.surtax is Some ==> self.surtax->0.threshold.wf() && self.surtax->0.rate.wf())
        &&& tiers_wf(self.surtax_tiers@)
        &&& opt_wf(self.k5p_threshold)
        &&& opt_wf(self.k5p_rate)
        &&& self.s2_amount.wf()
    }
}

/// The rates stored for province `p`: the first entry with that key.
pub open spec fn find_rates(s: Seq<(Province, ProvinceTaxRates)>, p: Province) -> Option<
    ProvinceTaxRates,
>
    decreases s.len(),
{
    if s.len() == 0 {
        None
    } else if s[0].0 == p {
        Some(s[0].1)
    } else {
        find_rates(s.drop_first(), p)
    }
}

pub open spec fn keys_unique(s: Seq<(Province, ProvinceTaxRates)>) -> bool {
    forall|i: int, j: int| 0 <= i < j < s.len() ==> (#[trigger] s[i]).0 != (#[trigger] s[j]).0
}

impl ProvincialTaxConfig {
    pub open spec fn wf(self) -> bool {
        &&& keys_unique(self.province_configs@)
        &&& forall|i: int|
            0 <= i < self.province_configs@.len() ==> (#[trigger] self.province_configs@[i]).1.wf()
    }

    /// The rates of a province, as a map lookup sees them.
    pub open spec fn rates_of(self, p: Province) -> Option<ProvinceTaxRates> {
        find_rates(self.province_configs@, p)
    }

    /// An empty table.
    pub fn new() -> (r: ProvincialTaxConfig)
        ensures
            r.wf(),
            r.province_configs@.len() == 0,
            forall|p: Province| r.rates_of(p) is None,
    {
        ProvincialTaxConfig { province_configs: Vec::new() }
    }

    /// The rates of province `p`, if any.
    pub fn get(&self, p: Province) -> (r: Option<&ProvinceTaxRates>)
        requires
            self.wf(),
        ensures
            r is Some <==> self.rates_of(p) is Some,
            r is Some ==> *r->0 == self.rates_of(p)->0,
            r is Some ==> r->0.wf(),
    {
        let n = self.province_configs.len();
        let mut i: usize = 0;
        proof {
            assert(self.province_configs@.subrange(0, n as int) =~= self.province_configs@);
        }
        while i < n
            invariant
                n == self.province_configs@.len(),
                i <= n,
                self.wf(),
                find_rates(self.province_configs@, p) == find_rates(
                    self.province_configs@.subrange(i as int, n as int),
                    p,
                ),
            decreases n - i,
        {
            let ghost rest = self.province_configs@.subrange(i as int, n as int);
            proof {
                assert(rest.drop_first() =~= self.province_configs@.subrange(i + 1, n as int));
                assert(rest[0] == self.province_configs@[i as int]);
            }
            if self.province_configs[i].0 == p {
                return Some(&self.province_configs[i].1);
            }
            i = i + 1;
        }
        proof {
            assert(self.province_configs@.subrange(n as int, n as int).len() == 0);
        }
        None
    }

    /// Stores the rates of province `p`, replacing those it had.
    pub fn insert(&mut self, p: Province, rates: ProvinceTaxRates)
        requires
            old(self).wf(),
            rates.wf(),
        ensures
            final(self).wf(),
            final(self).rates_of(p) == Some(rates),
            forall|q: Province| q != p ==> final(self).rates_of(q) == old(self).rates_of(q),
    {
        let n = self.province_configs.len();
        let mut i: usize = 0;
        while i < n
            invariant
                n == self.province_configs@.len(),
                i <= n,
                self.wf(),
                forall|j: int| 0 <= j < i ==> (#[trigger] self.province_configs@[j]).0 != p,
                self == old(self),
                rates.wf(),
            decreases n - i,
        {
            if self.province_configs[i].0 == p {
                let ghost before = self.province_configs@;
                self.province_configs.set(i, (p, rates));
                proof {
                    lemma_find_rates_update(before, i as int, p, rates);
                    assert forall|j: int| 0 <= j < self.province_configs@.len() implies (
                    #[trigger] self.province_configs@[j]).1.wf() by {
                        if j != i {
                            assert(self.province_configs@[j] == before[j]);
                        }
                    }
                }
                return;
            }
            i = i + 1;
        }
        let ghost before = self.province_configs@;
        self.province_configs.push((p, rates));
        proof {
            lemma_find_rates_push(before, p, rates);
            assert forall|j: int| 0 <= j < self.province_configs@.len() implies (
            #[trigger] self.province_configs@[j]).1.wf() by {
                if j < before.len() {
                    assert(self.province_configs@[j] == before[j]);
                }
            }
        }
    }
}

/// Looking up a key that sits at index `i` finds the entry at `i`.
pub proof fn lemma_find_rates_at(s: Seq<(Province, ProvinceTaxRates)>, i: int)
    requires
        keys_unique(s),
        0 <= i < s.len(),
    ensures
        find_rates(s, s[i].0) == Some(s[i].1),
    decreases s.len(),
{
    if i > 0 {
        assert(s[0].0 != s[i].0);
        let t = s.drop_first();
        assert forall|a: int, b: int| 0 <= a < b < t.len() implies (#[trigger] t[a]).0 != (
        #[trigger] t[b]).0 by {
            assert(t[a] == s[a + 1]);
            assert(t[b] == s[b + 1]);
        }
        assert(t[i - 1] == s[i]);
        lemma_find_rates_at(t, i - 1);
    }
}

/// A key that no entry has is not found.
pub proof fn lemma_find_rates_absent(s: Seq<(Province, ProvinceTaxRates)>, p: Province)
    requires
        forall|j: int| 0 <= j < s.len() ==> (#[trigger] s[j]).0 != p,
    ensures
        find_rates(s, p) is None,
    decreases s.len(),
{
    if s.len() > 0 {
        let t = s.drop_first();
        assert forall|j: int| 0 <= j < t.len() implies (#[trigger] t[j]).0 != p by {
            assert(t[j] == s[j + 1]);
        }
        lemma_find_rates_absent(t, p);
    }
}

/// Finding `q` in a table where `q` is found at `j`, or absent.
proof fn lemma_find_rates_total(s: Seq<(Province, ProvinceTaxRates)>, q: Province)
    requires
        keys_unique(s),
    ensures
        (exists|j: int| 0 <= j < s.len() && (#[trigger] s[j]).0 == q) ==> (find_rates(s, q)
            == Some(s[choose|j: int| 0 <= j < s.len() && (#[trigger] s[j]).0 == q].1)),
        (forall|j: int| 0 <= j < s.len() ==> (#[trigger] s[j]).0 != q) ==> find_rates(s, q)
            is None,
{
    if exists|j: int| 0 <= j < s.len() && (#[trigger] s[j]).0 == q {
        let j = choose|j: int| 0 <= j < s.len() && (#[trigger] s[j]).0 == q;
        lemma_find_rates_at(s, j);
    } else {
        lemma_find_rates_absent(s, q);
    }
}

proof fn lemma_find_rates_update(
    s: Seq<(Province, ProvinceTaxRates)>,
    i: int,
    p: Province,
    rates: ProvinceTaxRates,
)
    requires
        keys_unique(s),
        0 <= i < s.len(),
        s[i].0 == p,
    ensures
        keys_unique(s.update(i, (p, rates))),
        find_rates(s.update(i, (p, rates)), p) == Some(rates),
        forall|q: Province| q != p ==> find_rates(s.update(i, (p, rates)), q) == find_rates(s, q),
{
    let t = s.update(i, (p, rates));
    assert forall|a: int, b: int| 0 <= a < b < t.len() implies (#[trigger] t[a]).0 != (
    #[trigger] t[b]).0 by {
        assert(s[a].0 != s[b].0);
    }
    lemma_find_rates_at(t, i);
    assert forall|q: Province| q != p implies find_rates(t, q) == find_rates(s, q) by {
        lemma_find_rates_total(s, q);
        lemma_find_rates_total(t, q);
        if exists|j: int| 0 <= j < s.len() && (#[trigger] s[j]).0 == q {
            let j = choose|j: int| 0 <= j < s.len() && (#[trigger] s[j]).0 == q;
            assert(t[j].0 == q);
            let k = choose|k: int| 0 <= k < t.len() && (#[trigger] t[k]).0 == q;
            if k != j {
                assert(t[k] == s[k]);
            }
        } else {
            assert forall|j: int| 0 <= j < t.len() implies (#[trigger] t[j]).0 != q by {
                if j != i {
                    assert(t[j] == s[j]);
                }
            }
        }
    }
}

proof fn lemma_find_rates_push(s: Seq<(Province, ProvinceTaxRates)>, p: Province, rates: ProvinceTaxRates)
    requires
        keys_unique(s),
        forall|j: int| 0 <= j < s.len() ==> (#[trigger] s[j]).0 != p,
    ensures
        keys_unique(s.push((p, rates))),
        find_rates(s.push((p, rates)), p) == Some(rates),
        forall|q: Province| q != p ==> find_rates(s.push((p, rates)), q) == find_rates(s, q),
{
    let t = s.push((p, rates));
    assert forall|a: int, b: int| 0 <= a < b < t.len() implies (#[trigger] t[a]).0 != (
    #[trigger] t[b]).0 by {
        if b < s.len() {
            assert(s[a].0 != s[b].0);
        } else {
            assert(t[a] == s[a]);
        }
    }
    lemma_find_rates_at(t, s.len() as int);
    assert forall|q: Province| q != p implies find_rates(t, q) == find_rates(s, q) by {
        lemma_find_rates_total(s, q);
        lemma_find_rates_total(t, q);
        if exists|j: int| 0 <= j < s.len() && (#[trigger] s[j]).0 == q {
            let j = choose|j: int| 0 <= j < s.len() && (#[trigger] s[j]).0 == q;
            assert(t[j] == s[j]);
            let k = choose|k: int| 0 <= k < t.len() && (#[trigger] t[k]).0 == q;
            if k != j {
                assert(k < s.len());
                assert(t[k] == s[k]);
            }
        } else {
            assert forall|j: int| 0 <= j < t.len() implies (#[trigger] t[j]).0 != q by {
                if j < s.len() {
                    assert(t[j] == s[j]);
                }
            }
        }
    }
}

impl TaxYearConfig {
    pub open spec fn wf(self) -> bool {
        &&& self.cpp.wf()
        &&& self.cpp2.wf()
        &&& self.ei.wf()
        &&& self.federal.wf()
        &&& self.provincial.wf()
    }
}

impl PayrollDeductions {
    pub open spec fn wf(self) -> bool {
        &&& self.cpp.wf()
        &&& self.cpp2.wf()
        &&& self.ei.wf()
        &&& self.federal_tax.wf()
        &&& self.provincial_tax.wf()
    }

    /// `cpp + cpp2 + ei + federal_tax + provincial_tax`, added left to right.
    pub open spec fn total_spec(self) -> Option<Dec> {
        crate::decimal::oadd(
            crate::decimal::oadd(
                crate::decimal::oadd(
                    crate::decimal::oadd(Some(self.cpp), Some(self.cpp2)),
                    Some(self.ei),
                ),
                Some(self.federal_tax),
            ),
            Some(self.provincial_tax),
        )
    }

    /// The sum of the five deductions; `None` where the sum overflows.
    pub fn total(&self) -> (r: Option<Dec>)
        requires
            self.wf(),
        ensures
            r == self.total_spec(),
            r is Some ==> r->0.wf(),
    {
        let a = checked_add(self.cpp, self.cpp2)?;
        let b = checked_add(a, self.ei)?;
        let c = checked_add(b, self.federal_tax)?;
        checked_add(c, self.provincial_tax)
    }
}

} // verus!
