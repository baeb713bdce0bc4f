use cpr::date::Date;
use cpr::decimal::Dec;
use cpr::models::payroll_record::{AdditionalDeduction, YtdTotals};
use cpr::models::province::Province;
use cpr::tax::t4127::T4127Context;
use cpr::tax::{
    Cpp2Config, CppConfig, EiConfig, EmployeeInfo, FederalTaxConfig, PayrollDeductions,
    ProvinceTaxRates, ProvincialTaxConfig, SurtaxTier, TaxBracket, TaxYearConfig,
};
use cpr::tax::{EmployeeProvider, YtdProvider};

fn d(m: i128, s: u32) -> Dec {
    Dec { mantissa: m, scale: s }
}

fn cents(c: i128) -> Dec {
    d(c, 2)
}

fn value_eq(a: Dec, b: Dec) -> bool {
    cpr::decimal::dec_eq(a, b)
}

fn bracket(lower: Dec, upper: Option<Dec>, rate: Dec, constant: Dec) -> TaxBracket {
    TaxBracket { lower_limit: lower, upper_limit: upper, rate, constant }
}

fn ontario() -> ProvinceTaxRates {
    ProvinceTaxRates {
        basic_personal_amount: d(12989, 0),
        canada_employment_amount: d(0, 0),
        brackets: vec![
            bracket(d(0, 0), Some(d(53891, 0)), d(505, 4), d(0, 0)),
            bracket(d(53891, 0), Some(d(107785, 0)), d(915, 4), d(220953, 2)),
            bracket(d(107785, 0), Some(d(150000, 0)), d(1116, 4), d(437601, 2)),
            bracket(d(150000, 0), Some(d(220000, 0)), d(1216, 4), d(587601, 2)),
            bracket(d(220000, 0), None, d(1316, 4), d(807601, 2)),
        ],
        surtax: None,
        surtax_tiers: vec![
            SurtaxTier { threshold: d(5818, 0), rate: d(20, 2) },
            SurtaxTier { threshold: d(7446, 0), rate: d(36, 2) },
        ],
        k5p_threshold: None,
        k5p_rate: None,
        s2_amount: d(300, 0),
    }
}

fn config() -> TaxYearConfig {
    let mut provincial = ProvincialTaxConfig::new();
    provincial.insert(Province::ON, ontario());
    TaxYearConfig {
        year: 2026,
        cpp: CppConfig {
            basic_exemption: d(3500, 0),
            max_pensionable_earnings: d(74600, 0),
            base_rate: d(495, 4),
            first_additional_rate: d(1, 2),
            employee_rate: d(595, 4),
            max_contribution: cents(423045),
            max_base_contribution: cents(351945),
        },
        cpp2: Cpp2Config { rate: d(4, 2), max_earnings: d(85000, 0), max_contribution: cents(41600) },
        ei: EiConfig {
            max_insurable_earnings: d(68900, 0),
            employee_rate: d(163, 4),
            qc_employee_rate: d(130, 4),
            max_contribution: cents(112307),
            qc_max_contribution: cents(89570),
        },
        federal: FederalTaxConfig {
            basic_personal_amount: d(16452, 0),
            canada_employment_amount: d(1501, 0),
            brackets: vec![
                bracket(d(0, 0), Some(d(57375, 0)), d(14, 2), d(0, 0)),
                bracket(d(57375, 0), Some(d(114750, 0)), d(205, 3), d(372938, 2)),
                bracket(d(114750, 0), Some(d(177882, 0)), d(26, 2), d(1004063, 2)),
                bracket(d(177882, 0), Some(d(253414, 0)), d(29, 2), d(1537709, 2)),
                bracket(d(253414, 0), None, d(33, 2), d(2551365, 2)),
            ],
        },
        provincial,
    }
}

fn monthly_context(pay: Dec, age: i32) -> T4127Context {
    let mut c = T4127Context::from_config(config());
    c.P = 12;
    c.I = pay;
    c.B = d(0, 0);
    c.PI = pay;
    c.IE = pay;
    c.TC = d(16452, 0);
    c.TCP = d(12989, 0);
    c.employee_age = age;
    c.province = Province::ON;
    c
}

fn check(r: &PayrollDeductions, cpp: Dec, cpp2: Dec, ei: Dec, fed: Dec, prov: Dec) {
    assert!(value_eq(r.cpp, cpp), "cpp {:?}", r.cpp);
    assert!(value_eq(r.cpp2, cpp2), "cpp2 {:?}", r.cpp2);
    assert!(value_eq(r.ei, ei), "ei {:?}", r.ei);
    assert!(value_eq(r.federal_tax, fed), "federal {:?}", r.federal_tax);
    assert!(value_eq(r.provincial_tax, prov), "provincial {:?}", r.provincial_tax);
}

#[test]
fn from_config_defaults() {
    let c = T4127Context::from_config(config());
    assert_eq!(c.P, 12);
    assert_eq!(c.PM, 12);
    assert_eq!(c.PR, 0);
    assert_eq!(c.employee_age, 30);
    assert_eq!(c.province, Province::ON);
    assert!(!c.cpp_exempt && !c.ei_exempt);
    assert!(c.I.is_zero() && c.L.is_zero() && c.C.is_zero());
}

#[test]
fn monthly_ontario_pay() {
    let mut c = monthly_context(d(6000, 0), 35);
    let r = c.calc().unwrap();
    check(&r, cents(33965), d(0, 0), cents(9780), cents(64540), cents(33599));
    let total = r.total().unwrap();
    assert!(value_eq(total, cents(33965 + 9780 + 64540 + 33599)));
}

#[test]
fn monthly_ontario_high_pay() {
    let mut c = monthly_context(d(10000, 0), 45);
    let r = c.calc().unwrap();
    check(&r, cents(57765), d(0, 0), cents(16300), cents(147442), cents(78158));
}

#[test]
fn contributions_capped_near_yearly_maximum() {
    let mut c = monthly_context(d(3000, 0), 40);
    c.P = 26;
    c.D = cents(420000);
    c.D1 = cents(110000);
    let r = c.calc().unwrap();
    // CPP stops at the room left (4230.45 - 4200.00), CPP2 starts, EI stops at 1123.07 - 1100.00.
    check(&r, cents(3045), cents(523), cents(2307), cents(36599), cents(18974));
}

#[test]
fn bonus_is_split_from_periodic_pay() {
    let mut c = monthly_context(d(5000, 0), 30);
    c.B = d(2000, 0);
    c.PI = d(7000, 0);
    c.IE = d(7000, 0);
    let r = c.calc().unwrap();
    check(&r, cents(39915), d(0, 0), cents(11410), cents(47462), cents(25989));
}

#[test]
fn quebec_deducts_nothing() {
    let mut c = monthly_context(d(6000, 0), 35);
    c.province = Province::QC;
    let r = c.calc().unwrap();
    check(&r, d(0, 0), d(0, 0), d(0, 0), d(0, 0), d(0, 0));
}

#[test]
fn cpp_exempt_employee() {
    let mut c = monthly_context(d(6000, 0), 35);
    c.cpp_exempt = true;
    let r = c.calc().unwrap();
    assert!(r.cpp.is_zero() && r.cpp2.is_zero());
    assert!(value_eq(r.ei, cents(9780)));
}

#[test]
fn cpp_age_limits() {
    let mut young = monthly_context(d(6000, 0), 17);
    let r = young.calc().unwrap();
    assert!(r.cpp.is_zero() && r.cpp2.is_zero());
    let mut old = monthly_context(d(6000, 0), 71);
    let r = old.calc().unwrap();
    assert!(r.cpp.is_zero());
    let mut at_limit = monthly_context(d(6000, 0), 70);
    let r = at_limit.calc().unwrap();
    assert!(value_eq(r.cpp, cents(33965)));
}

#[test]
fn ei_exempt_and_ei_maximum() {
    let mut c = monthly_context(d(6000, 0), 35);
    c.ei_exempt = true;
    assert!(c.calc().unwrap().ei.is_zero());
    let mut c = monthly_context(d(6000, 0), 35);
    c.D1 = cents(112307);
    assert!(c.calc().unwrap().ei.is_zero());
}

#[test]
fn cpp_stops_at_maximum() {
    let mut c = monthly_context(d(6000, 0), 35);
    c.D = cents(423045);
    let r = c.calc().unwrap();
    assert!(r.cpp.is_zero());
}

#[test]
fn no_income_leaves_additional_tax_only() {
    let mut c = monthly_context(d(0, 0), 35);
    c.L = d(25, 0);
    let r = c.calc().unwrap();
    assert!(r.cpp.is_zero());
    assert!(value_eq(r.federal_tax, d(25, 0)));
    assert!(r.provincial_tax.is_zero());
}

#[test]
fn province_without_rates_has_no_provincial_tax() {
    let mut c = monthly_context(d(6000, 0), 35);
    c.province = Province::MB;
    let r = c.calc().unwrap();
    assert!(r.provincial_tax.is_zero());
    assert!(value_eq(r.federal_tax, cents(64540)));
}

#[test]
fn zero_pay_periods_overflow_is_reported() {
    let mut c = monthly_context(d(6000, 0), 35);
    c.P = 0;
    assert!(c.calc().is_none());
    // the context is left as it was
    assert!(c.C.is_zero());
}

fn employee_info() -> EmployeeInfo {
    EmployeeInfo {
        date_of_birth: Date { year: 1996, month: 3, day: 15 },
        province: Province::ON,
        cpp_exempt: false,
        ei_exempt: false,
        federal_personal_amount: d(16452, 0),
        provincial_personal_amount: d(12989, 0),
    }
}

fn mapped_deductions() -> Vec<AdditionalDeduction> {
    vec![
        AdditionalDeduction { name: "Pension RRSP".to_string(), amount: d(100, 0) },
        AdditionalDeduction { name: "union_dues".to_string(), amount: d(20, 0) },
        AdditionalDeduction { name: "Addon Tax".to_string(), amount: d(50, 0) },
        AdditionalDeduction { name: "group_insurance".to_string(), amount: d(15, 0) },
    ]
}

struct Totals(Result<YtdTotals, String>);

impl YtdProvider for Totals {
    fn get_ytd_totals(&self, employee_id: i64, year: i32) -> Result<YtdTotals, String> {
        assert_eq!((employee_id, year), (7, 2026));
        self.0.clone()
    }
}

struct Infos(Result<EmployeeInfo, String>);

impl EmployeeProvider for Infos {
    fn get_employee_info(&self, employee_id: i64, year: i32) -> Result<EmployeeInfo, String> {
        assert_eq!((employee_id, year), (7, 2026));
        self.0.clone()
    }
}

#[test]
fn calculate_all_deductions_maps_additional_deductions() {
    let mut c = T4127Context::from_config(config());
    let ytd = YtdTotals::new(7, 2026);
    let info = employee_info();
    let deductions = mapped_deductions();
    let r = c
        .deductions_with(d(2500, 0), d(0, 0), 26, Date { year: 2026, month: 6, day: 12 }, &ytd, &info, &deductions)
        .unwrap();
    assert!(value_eq(c.F, d(100, 0)));
    assert!(value_eq(c.U1, d(20, 0)));
    assert!(value_eq(c.L, d(50, 0)));
    assert_eq!(c.employee_age, 30);
    check(&r, cents(14074), d(0, 0), cents(4075), cents(27085), cents(12050));
    let mut p = T4127Context::from_config(config());
    let r2 = p
        .calculate_all_deductions(
            7,
            d(2500, 0),
            d(0, 0),
            26,
            Date { year: 2026, month: 6, day: 12 },
            &Totals(Ok(YtdTotals::new(7, 2026))),
            &Infos(Ok(employee_info())),
            &deductions,
        )
        .unwrap()
        .unwrap();
    check(&r2, cents(14074), d(0, 0), cents(4075), cents(27085), cents(12050));
}

#[test]
fn calculate_all_deductions_passes_provider_errors_on() {
    let mut c = T4127Context::from_config(config());
    let pay_date = Date { year: 2026, month: 6, day: 12 };
    let r = c.calculate_all_deductions(
        7,
        d(2500, 0),
        d(0, 0),
        26,
        pay_date,
        &Totals(Err("no totals".to_string())),
        &Infos(Ok(employee_info())),
        &vec![],
    );
    assert!(matches!(r, Err(ref m) if m == "no totals"));
    assert_eq!(c.P, 12);
    let mut bad = employee_info();
    bad.date_of_birth = Date { year: 2026, month: 2, day: 30 };
    let r = c.calculate_all_deductions(
        7,
        d(2500, 0),
        d(0, 0),
        26,
        pay_date,
        &Totals(Ok(YtdTotals::new(7, 2026))),
        &Infos(Ok(bad)),
        &vec![],
    );
    assert_eq!(r.err(), Some("Invalid employee information".to_string()));
}

#[test]
fn calc_again_gives_the_same_deductions() {
    let mut c = monthly_context(d(7000, 0), 40);
    c.B = d(1500, 0);
    c.PI = d(8500, 0);
    c.IE = d(8500, 0);
    let first = c.calc().unwrap();
    let a = c.A;
    let second = c.calc().unwrap();
    check(&second, first.cpp, first.cpp2, first.ei, first.federal_tax, first.provincial_tax);
    assert!(value_eq(c.A, a));
    let mut young = monthly_context(d(4000, 0), 16);
    let r1 = young.calc().unwrap();
    let r2 = young.calc().unwrap();
    check(&r2, r1.cpp, r1.cpp2, r1.ei, r1.federal_tax, r1.provincial_tax);
}
