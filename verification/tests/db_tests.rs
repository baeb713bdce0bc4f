use cpr::db::records::{amounts_to_cents, amounts_to_signed_cents, deduction_row, earning_row, employee_columns, stored_hours, StoredEmployee};
use cpr::models::employee::{Address, Employee, PayType};
use cpr::models::payroll_record::{AdditionalDeduction, AdditionalEarning};
use cpr::db::password::check_recovery_key;
use cpr::reports::t4::dental_benefit_label;
use cpr::date::{date_text, Date};
use cpr::db::history::{count_query, list_query, PayrollHistoryFilter, COUNT_PREFIX, LIST_PREFIX};
use cpr::db::t4::{next_slip_version, T4SlipRecord};
use cpr::db::personal_amount::{after_configs, after_lookups, AmountLookup};
use cpr::date::Timestamp;
use cpr::db::currency::{
    cents_to_decimal, cents_to_decimal_signed, convert_cents, convert_cents_signed,
    decimal_to_cents, decimal_to_cents_signed, format_currency, try_cents, validate_currency,
    CurrencyError,
};
use cpr::db::error::DbError;
use cpr::db::password::{check_database_access, generate_hash, verify_hash};
use cpr::db::personal_amount::index_personal_amounts;
use cpr::db::t4::{
    adjusted_box_value, status_after_adjustment, t4_box_calculations, t4_cents_to_decimal, t4_decimal_to_cents, T4BoxValue,
    T4SlipStatus,
};
use cpr::db::utils::{
    basis_points_to_decimal, decimal_to_basis_points, decimal_to_days_thousandths,
    decimal_to_thousandths, thousandths_to_decimal,
};
use cpr::db::vacation::{deleted_balance_change, edited_balance_change};
use cpr::decimal::Dec;
use cpr::models::payroll_record::YtdTotals;
use cpr::models::personal_amount::PersonalAmount;
use cpr::models::province::Province;
use cpr::tax::{
    Cpp2Config, CppConfig, EiConfig, FederalTaxConfig, ProvinceTaxRates, ProvincialTaxConfig,
    TaxYearConfig,
};

fn d(m: i128, s: u32) -> Dec {
    Dec { mantissa: m, scale: s }
}

fn same(a: Dec, b: Dec) -> bool {
    cpr::decimal::dec_eq(a, b)
}

// ------------------------------------------------------------ currency

#[test]
fn currency_validation_errors() {
    assert!(validate_currency(&d(1050, 2)).is_ok());
    assert!(validate_currency(&d(0, 0)).is_ok());
    assert_eq!(validate_currency(&d(-1, 2)), Err(CurrencyError::Negative(d(-1, 2))));
    assert_eq!(validate_currency(&d(5, 3)), Err(CurrencyError::Overflow(d(5, 3))));
    assert_eq!(
        validate_currency(&d(1000000001, 2)),
        Err(CurrencyError::Overflow(d(1000000001, 2)))
    );
    assert!(validate_currency(&d(1000000000, 2)).is_ok());
    assert_eq!(validate_currency(&d(1234, 3)), Err(CurrencyError::InvalidScale));
}

#[test]
fn currency_error_messages() {
    assert_eq!(CurrencyError::Negative(d(-500, 2)).message(), "Negative currency value: -5.00");
    assert_eq!(
        CurrencyError::Overflow(d(5, 3)).message(),
        "Value too large for i64 cents representation: 0.005"
    );
    assert_eq!(
        CurrencyError::InvalidScale.message(),
        "Invalid currency scale (must have 2 or fewer decimal places)"
    );
}

#[test]
fn decimal_to_cents_rounds_half_to_even() {
    assert_eq!(decimal_to_cents(&d(1234, 2)), Ok(1234));
    assert_eq!(decimal_to_cents(&d(12, 0)), Ok(1200));
    assert_eq!(decimal_to_cents(&d(125, 1)), Ok(1250));
    assert_eq!(decimal_to_cents(&d(10005, 3)), Ok(1000));
    assert_eq!(decimal_to_cents(&d(10015, 3)), Ok(1002));
    assert_eq!(decimal_to_cents(&d(0, 2)), Ok(0));
    assert_eq!(decimal_to_cents(&d(-100, 2)), Err(CurrencyError::Negative(d(-100, 2))));
    // A fraction of a cent rounds to zero cents and is accepted.
    assert_eq!(decimal_to_cents(&d(4, 3)), Ok(0));
    assert!(matches!(decimal_to_cents(&d(100000000001, 2)), Err(CurrencyError::Overflow(_))));
}

#[test]
fn decimal_to_cents_signed_accepts_negatives() {
    assert_eq!(decimal_to_cents_signed(&d(-1234, 2)), Ok(-1234));
    assert_eq!(decimal_to_cents_signed(&d(-125, 1)), Ok(-1250));
    assert_eq!(decimal_to_cents_signed(&d(-10025, 3)), Ok(-1002));
    assert_eq!(decimal_to_cents_signed(&d(7, 0)), Ok(700));
    assert!(matches!(
        decimal_to_cents_signed(&d(9223372036854775807, 0)),
        Err(CurrencyError::Overflow(_))
    ));
}

#[test]
fn cents_back_to_decimal() {
    assert_eq!(cents_to_decimal(1234), Ok(d(1234, 2)));
    assert_eq!(cents_to_decimal(-5), Err(CurrencyError::Negative(d(-5, 2))));
    assert_eq!(cents_to_decimal_signed(-5), Ok(d(-5, 2)));
    assert_eq!(t4_cents_to_decimal(-250), d(-250, 2));
}

#[test]
fn cents_roundtrip_values() {
    for c in [0i64, 1, 99, 100, 123456, 1000000000] {
        let dec = cents_to_decimal(c).unwrap();
        assert_eq!(decimal_to_cents(&dec), Ok(c));
    }
    for c in [-123456i64, -1, 0, 77, i64::MAX, i64::MIN] {
        let dec = cents_to_decimal_signed(c).unwrap();
        assert_eq!(decimal_to_cents_signed(&dec), Ok(c));
    }
}

#[test]
fn currency_formatting() {
    assert_eq!(format_currency(&d(12345, 2)), "$123.45");
    assert_eq!(format_currency(&d(5, 0)), "$5.00");
    assert_eq!(format_currency(&d(1005, 3)), "$1.00");
}

#[test]
fn stored_cents_conversion_messages() {
    assert_eq!(convert_cents(150, "gross_pay"), Ok(d(150, 2)));
    assert_eq!(
        convert_cents(-150, "gross_pay"),
        Err("Data error: 'gross_pay' has an invalid value \u{2014} Negative currency value: -1.50 (stored as -150 cents)"
            .to_string())
    );
    assert_eq!(convert_cents_signed(-150, "adjustment"), Ok(d(-150, 2)));
    assert_eq!(try_cents(42), Ok(d(42, 2)));
    assert_eq!(
        try_cents(-42),
        Err("Data error: Negative currency value: -0.42 (stored as -42 cents)".to_string())
    );
}

// ------------------------------------------------------------ utils

#[test]
fn basis_points_and_thousandths() {
    assert_eq!(decimal_to_basis_points(&d(4, 2)), Some(400));
    let rate = d(425, 4);
    let back = basis_points_to_decimal(decimal_to_basis_points(&rate).unwrap());
    assert_eq!(back, rate);
    assert_eq!(decimal_to_basis_points(&d(12345, 6)), Some(123));
    assert_eq!(basis_points_to_decimal(400), d(400, 4));
    assert_eq!(decimal_to_thousandths(&d(405, 1)), Some(40500));
    assert_eq!(thousandths_to_decimal(40500), d(40500, 3));
    assert_eq!(decimal_to_days_thousandths(&d(3846, 4)), Some(385));
    assert_eq!(decimal_to_days_thousandths(&d(5, 4)), Some(0));
    assert_eq!(decimal_to_days_thousandths(&d(15, 4)), Some(2));
    for bp in [-30000i64, 0, 1, 400, 9999] {
        assert_eq!(decimal_to_basis_points(&basis_points_to_decimal(bp)), Some(bp));
    }
    for th in [-5i64, 0, 40500, 123] {
        assert_eq!(decimal_to_thousandths(&thousandths_to_decimal(th)), Some(th));
    }
}

#[test]
fn vacation_days_are_stored_and_read_back() {
    for (m, s) in [(15i128, 1u32), (0, 0), (-2, 0), (1234, 3), (5, 2)] {
        let days = d(m, s);
        let th = decimal_to_days_thousandths(&days).unwrap();
        assert!(same(thousandths_to_decimal(th), days));
    }
    assert_eq!(decimal_to_days_thousandths(&d(15, 1)), Some(1500));
    assert_eq!(thousandths_to_decimal(1500), d(1500, 3));
}

#[test]
fn thousandths_that_do_not_fit_are_zero() {
    assert_eq!(decimal_to_thousandths(&d(100000000000000000, 0)), Some(0));
}

// ------------------------------------------------------------ password

#[test]
fn password_hash_verifies() {
    let h = generate_hash("s3cret").unwrap();
    assert!(h.starts_with("$argon2"));
    assert_eq!(verify_hash(&h, "s3cret").ok(), Some(true));
    assert_eq!(verify_hash(&h, "wrong").ok(), Some(false));
}

#[test]
fn password_bad_stored_hash() {
    assert!(matches!(verify_hash("not a hash", "x"), Err(DbError::Password(_))));
}

#[test]
fn database_access_rules() {
    assert!(check_database_access(None, None).is_ok());
    assert!(check_database_access(Some((0, None)), None).is_ok());
    match check_database_access(Some((1, None)), Some("x")) {
        Err(DbError::InvalidData(m)) => {
            assert_eq!(m, "Database is locked but no password hash configured.")
        }
        other => panic!("unexpected {:?}", other),
    }
    let h = generate_hash("pw").unwrap();
    match check_database_access(Some((1, Some(h.clone()))), None) {
        Err(DbError::InvalidData(m)) => {
            assert_eq!(m, "Database is password protected. Password required.")
        }
        other => panic!("unexpected {:?}", other),
    }
    match check_database_access(Some((1, Some(h.clone()))), Some("nope")) {
        Err(DbError::InvalidData(m)) => assert_eq!(m, "Invalid password."),
        other => panic!("unexpected {:?}", other),
    }
    assert!(check_database_access(Some((1, Some(h))), Some("pw")).is_ok());
}

// ------------------------------------------------------------ t4 storage

fn ytd() -> YtdTotals {
    YtdTotals {
        employee_id: 1,
        year: 2025,
        gross_pay: d(6000000, 2),
        cpp: d(300000, 2),
        cpp2: d(0, 2),
        ei: d(98000, 2),
        federal_tax: d(700000, 2),
        provincial_tax: d(300000, 2),
        net_pay: d(4000000, 2),
        rpp_contributions: d(120000, 2),
        pension_adjustment: d(50000, 2),
    }
}

#[test]
fn t4_slip_status_text() {
    for s in [T4SlipStatus::Draft, T4SlipStatus::Calculated, T4SlipStatus::Filed, T4SlipStatus::Locked] {
        assert_eq!(T4SlipStatus::from_str(s.as_str()), Some(s));
    }
    assert_eq!(T4SlipStatus::Filed.as_str(), "filed");
    assert_eq!(T4SlipStatus::from_str("Filed"), None);
}

#[test]
fn adjusting_a_calculated_slip_returns_it_to_draft() {
    assert_eq!(status_after_adjustment(T4SlipStatus::Calculated), T4SlipStatus::Draft);
    assert_eq!(status_after_adjustment(T4SlipStatus::Draft), T4SlipStatus::Draft);
    assert_eq!(status_after_adjustment(T4SlipStatus::Filed), T4SlipStatus::Filed);
    assert_eq!(status_after_adjustment(T4SlipStatus::Locked), T4SlipStatus::Locked);
}

#[test]
fn t4_box_values_from_totals() {
    let v = t4_box_calculations(&ytd()).unwrap();
    let names: Vec<&str> = v.iter().map(|p| p.0).collect();
    assert_eq!(
        names,
        vec!["box_14", "box_16", "box_16a", "box_18", "box_20", "box_22", "box_24", "box_26", "box_52"]
    );
    assert!(same(v[0].1, d(60000, 0)));
    assert!(same(v[5].1, d(10000, 0)));
    assert!(same(v[7].1, d(56500, 0)));
    let mut small = ytd();
    small.gross_pay = d(200000, 2);
    let v = t4_box_calculations(&small).unwrap();
    assert!(same(v[7].1, d(0, 0)));
}

#[test]
fn t4_cents_of_box_amounts() {
    assert_eq!(t4_decimal_to_cents(&d(-1234, 2)).ok(), Some(-1234));
    match t4_decimal_to_cents(&d(100000000000000000000, 0)) {
        Err(DbError::InvalidData(m)) => assert_eq!(m, "Value too large: 100000000000000000000"),
        other => panic!("unexpected {:?}", other),
    }
}

fn box_value(id: i64, name: &str, calc: Dec, adj: Dec) -> T4BoxValue {
    T4BoxValue {
        id: Some(id),
        t4_slip_id: 9,
        box_type: name.to_string(),
        calculated_value: calc,
        adjustment_value: adj,
    }
}

#[test]
fn t4_box_adjustments() {
    let existing = vec![
        box_value(1, "box_14", d(100, 0), d(5, 0)),
        box_value(2, "box_22", d(30, 0), d(0, 0)),
    ];
    assert!(adjusted_box_value(&existing, 9, "box_14", d(0, 2)).unwrap().is_none());
    let b = adjusted_box_value(&existing, 9, "box_14", d(250, 2)).unwrap().unwrap();
    assert_eq!(b.id, Some(1));
    assert!(same(b.calculated_value, d(100, 0)));
    assert!(same(b.adjustment_value, d(750, 2)));
    assert!(same(b.final_value().unwrap(), d(10750, 2)));
    let n = adjusted_box_value(&existing, 9, "box_18", d(-1, 0)).unwrap().unwrap();
    assert_eq!(n.id, None);
    assert_eq!(n.box_type, "box_18");
    assert!(same(n.calculated_value, d(0, 0)));
    assert!(same(n.adjustment_value, d(-1, 0)));
}

// ------------------------------------------------------------ vacation

#[test]
fn vacation_balance_changes() {
    let c = edited_balance_change(d(15000, 2), 12000, d(2500, 3), 2500).unwrap();
    assert!(same(c.dollars, d(30, 0)));
    assert!(same(c.days, d(0, 0)));
    assert!(c.changed);
    let c = edited_balance_change(d(120, 0), 12000, d(25, 1), 2500).unwrap();
    assert!(!c.changed);
    let c = deleted_balance_change(5000, 1500);
    assert!(same(c.dollars, d(-50, 0)));
    assert!(same(c.days, d(-15, 1)));
    assert!(c.changed);
    assert!(!deleted_balance_change(0, 0).changed);
}

// ------------------------------------------------------------ personal amounts

fn year_config(year: i32, federal_bpa: Dec, ontario_bpa: Option<Dec>) -> TaxYearConfig {
    let mut provincial = ProvincialTaxConfig::new();
    if let Some(b) = ontario_bpa {
        provincial.insert(
            Province::ON,
            ProvinceTaxRates {
                basic_personal_amount: b,
                canada_employment_amount: d(0, 0),
                brackets: vec![],
                surtax: None,
                surtax_tiers: vec![],
                k5p_threshold: None,
                k5p_rate: None,
                s2_amount: d(0, 0),
            },
        );
    }
    TaxYearConfig {
        year,
        cpp: CppConfig {
            basic_exemption: d(3500, 0),
            max_pensionable_earnings: d(71300, 0),
            base_rate: d(495, 4),
            first_additional_rate: d(1, 2),
            employee_rate: d(595, 4),
            max_contribution: d(0, 0),
            max_base_contribution: d(0, 0),
        },
        cpp2: Cpp2Config { rate: d(4, 2), max_earnings: d(81200, 0), max_contribution: d(0, 0) },
        ei: EiConfig {
            max_insurable_earnings: d(65700, 0),
            employee_rate: d(164, 4),
            qc_employee_rate: d(131, 4),
            max_contribution: d(0, 0),
            qc_max_contribution: d(0, 0),
        },
        federal: FederalTaxConfig {
            basic_personal_amount: federal_bpa,
            canada_employment_amount: d(0, 0),
            brackets: vec![],
        },
        provincial,
    }
}

fn personal(fed: Dec, prov: Dec) -> PersonalAmount {
    PersonalAmount {
        id: None,
        employee_id: 1,
        province: "ON".to_string(),
        year: 2025,
        federal_amount: fed,
        provincial_amount: prov,
        indexed_at: Timestamp { seconds: 0, nanos: 0 },
    }
}

#[test]
fn personal_amounts_indexed_by_ratio() {
    let src = year_config(2025, d(16000, 0), Some(d(12000, 0)));
    let tgt = year_config(2026, d(16800, 0), Some(d(12600, 0)));
    let (f, p) = index_personal_amounts(&personal(d(16000, 0), d(12000, 0)), "on", &src, &tgt).unwrap();
    assert!(same(f, d(16800, 0)));
    assert!(same(p, d(12600, 0)));
    // A province with no rates keeps the amounts.
    let (f, p) = index_personal_amounts(&personal(d(100, 0), d(200, 0)), "BC", &src, &tgt).unwrap();
    assert!(same(f, d(100, 0)));
    assert!(same(p, d(200, 0)));
    // A source basic amount of zero cannot be divided by.
    let zero = year_config(2025, d(0, 0), Some(d(12000, 0)));
    assert!(index_personal_amounts(&personal(d(1, 0), d(1, 0)), "ON", &zero, &tgt).is_none());
}

// ------------------------------------------------------------ history queries

#[test]
fn iso_dates() {
    assert_eq!(date_text(Date { year: 2026, month: 1, day: 5 }), "2026-01-05");
    assert_eq!(date_text(Date { year: 987, month: 12, day: 31 }), "0987-12-31");
    assert_eq!(date_text(Date { year: 12345, month: 1, day: 1 }), "+12345-01-01");
    assert_eq!(date_text(Date { year: -5, month: 1, day: 1 }), "-0005-01-01");
}

#[test]
fn history_filter_queries() {
    let none = PayrollHistoryFilter::new();
    let q = list_query(&none);
    assert_eq!(q.sql, format!("{} ORDER BY h.pay_date DESC", LIST_PREFIX));
    assert!(q.params.is_empty());
    let mut f = PayrollHistoryFilter::new();
    f.employee_id = Some(7);
    f.pay_date_to = Some(Date { year: 2026, month: 3, day: 31 });
    f.search_term = Some("Doe".to_string());
    f.offset = Some(20);
    let q = list_query(&f);
    assert_eq!(
        q.sql,
        format!(
            "{} AND h.employee_id = ?1 AND h.pay_date <= ?2 AND (e.first_name LIKE ?3 OR e.last_name LIKE ?3 OR e.employee_number LIKE ?3) ORDER BY h.pay_date DESC OFFSET ?4",
            LIST_PREFIX
        )
    );
    assert_eq!(q.params, vec!["7", "2026-03-31", "%Doe%", "20"]);
    f.limit = Some(10);
    let q = list_query(&f);
    assert!(q.sql.ends_with(" LIMIT ?4 OFFSET ?5"));
    assert_eq!(q.params, vec!["7", "2026-03-31", "%Doe%", "10", "20"]);
    f.search_term = Some(String::new());
    let c = count_query(&f);
    assert_eq!(c.sql, format!("{} AND h.employee_id = ?1 AND h.pay_date <= ?2", COUNT_PREFIX));
    assert_eq!(c.params, vec!["7", "2026-03-31"]);
    assert!(COUNT_PREFIX.starts_with("SELECT COUNT(*)"));
}

// ------------------------------------------------------------ slips and personal amount lookups

#[test]
fn new_slips() {
    let s = T4SlipRecord::draft(3, 2025, 2, Timestamp { seconds: 5, nanos: 0 });
    assert_eq!(s.status, T4SlipStatus::Draft);
    assert_eq!(s.slip_version, 2);
    assert!(s.net_pay.is_zero());
    assert_eq!(next_slip_version(0), Some(1));
    assert_eq!(next_slip_version(i32::MAX), None);
}

#[test]
fn personal_amount_lookups() {
    let this_year = personal(d(16000, 0), d(12000, 0));
    match after_lookups(&Some(this_year.clone()), &None, 1, "ON", 2025) {
        AmountLookup::Found(f, p) => assert!(same(f, d(16000, 0)) && same(p, d(12000, 0))),
        other => panic!("unexpected {:?}", other),
    }
    match after_lookups(&None, &Some(this_year.clone()), 1, "ON", 2025) {
        AmountLookup::Found(f, _) => assert!(same(f, d(16000, 0))),
        other => panic!("unexpected {:?}", other),
    }
    match after_lookups(&None, &Some(this_year.clone()), 1, "ON", 2026) {
        AmountLookup::LoadConfigs { source_year, target_year } => {
            assert_eq!((source_year, target_year), (2025, 2026))
        }
        other => panic!("unexpected {:?}", other),
    }
    match after_lookups(&None, &Some(this_year.clone()), 4, "ON", 2024) {
        AmountLookup::Missing(m) => assert!(m.contains("for year 2024 or any previous year")),
        other => panic!("unexpected {:?}", other),
    }
    match after_lookups(&None, &None, 4, "ON", 2026) {
        AmountLookup::Missing(m) => assert_eq!(
            m,
            "No personal amount found for employee 4 in province ON for year 2026 or any previous year. Please configure personal amounts before calculating payroll."
        ),
        other => panic!("unexpected {:?}", other),
    }
    assert_eq!(
        after_configs(&this_year, "ON", 2026, &None),
        Some(Err("Cannot load tax config for year 2025 or 2026. Tax config files are required for personal amount indexing.".to_string()))
    );
    let src = year_config(2025, d(16000, 0), Some(d(12000, 0)));
    let tgt = year_config(2026, d(16800, 0), Some(d(12600, 0)));
    let r = after_configs(&this_year, "ON", 2026, &Some((src, tgt))).unwrap().unwrap();
    assert!(same(r.0, d(16800, 0)) && same(r.1, d(12600, 0)));
}

#[test]
fn recovery_key_checks() {
    match check_recovery_key(None, "k") {
        Err(DbError::InvalidData(m)) => assert_eq!(m, "No recovery key configured"),
        other => panic!("unexpected {:?}", other),
    }
    let h = generate_hash("key-1").unwrap();
    assert!(check_recovery_key(Some(h.as_str()), "key-1").is_ok());
    match check_recovery_key(Some(h.as_str()), "key-2") {
        Err(DbError::InvalidData(m)) => assert_eq!(m, "Invalid recovery key"),
        other => panic!("unexpected {:?}", other),
    }
    assert!(matches!(check_recovery_key(Some("garbage"), "k"), Err(DbError::Password(_))));
}

#[test]
fn year_totals_emptiness_and_dental_codes() {
    let mut t = YtdTotals::new(1, 2025);
    assert!(t.is_empty());
    t.cpp2 = d(5, 0);
    assert!(t.is_empty());
    t.net_pay = d(1, 2);
    assert!(!t.is_empty());
    assert_eq!(dental_benefit_label(2), "2 - Basic dental coverage");
    assert_eq!(dental_benefit_label(3), "3 - Comprehensive dental coverage");
    assert_eq!(dental_benefit_label(7), "1 - No dental benefit");
}

// ------------------------------------------------------------ stored forms

fn stored_employee() -> StoredEmployee {
    StoredEmployee {
        id: 4,
        employee_number: "E-4".to_string(),
        first_name: "Ann".to_string(),
        last_name: "Lee".to_string(),
        notes: None,
        sin: "123456789".to_string(),
        address: Address {
            street: "1 Main".to_string(),
            city: "Ottawa".to_string(),
            province: "ON".to_string(),
            postal_code: "K1A 0A1".to_string(),
        },
        pay_type: "HOURLY".to_string(),
        pay_rate_cents: 2550,
        date_of_birth: Date { year: 1990, month: 1, day: 2 },
        vacation_pay_rate_bp: 400,
        vacation_balance_cents: -125,
        vacation_balance_days_thousandths: 1500,
        overtime_multiplier_bp: 15000,
        ei_exempt: 0,
        cpp_exempt: 1,
        hire_date: Date { year: 2020, month: 3, day: 4 },
        hire_province: "ON".to_string(),
        termination_date: None,
        dental_benefit: 2,
        is_active: 1,
        created_at: Timestamp { seconds: 0, nanos: 0 },
    }
}

#[test]
fn employees_read_back() {
    let e = stored_employee().decode().unwrap();
    assert_eq!(e.pay_type, PayType::Hourly);
    assert_eq!(e.pay_rate, d(2550, 2));
    assert_eq!(e.vacation_pay_rate, d(400, 4));
    assert_eq!(e.vacation_balance, d(-125, 2));
    assert_eq!(e.vacation_balance_days, d(1500, 3));
    assert_eq!(e.overtime_multiplier, d(15000, 4));
    assert!(!e.ei_exempt && e.cpp_exempt && e.is_active);
    let mut bad = stored_employee();
    bad.pay_type = "Daily".to_string();
    assert_eq!(
        bad.decode().err().unwrap(),
        "Employee #E-4 (Ann Lee): pay_type is invalid \u{2014} unknown type 'Daily' (expected Hourly, Weekly, Monthly, or Annual)"
    );
    let mut neg = stored_employee();
    neg.pay_rate_cents = -5;
    assert_eq!(
        neg.decode().err().unwrap(),
        "Employee #E-4 (Ann Lee): pay_rate is invalid \u{2014} Negative currency value: -0.05 (stored as -5 cents)"
    );
}

#[test]
fn employees_stored() {
    let e: Employee = stored_employee().decode().unwrap();
    let c = employee_columns(&e).unwrap();
    assert_eq!(c.pay_rate, 2550);
    assert_eq!(c.vacation_pay_rate, 400);
    assert_eq!(c.vacation_balance, -125);
    assert_eq!(c.vacation_balance_days, 1500);
    let mut days = e.clone();
    days.vacation_balance_days = d(15, 1);
    assert_eq!(employee_columns(&days).unwrap().vacation_balance_days, 1500);
    assert_eq!(c.overtime_multiplier, 15000);
    assert_eq!(c.date_of_birth, "1990-01-02");
    assert_eq!(c.termination_date, None);
    let mut neg = e.clone();
    neg.pay_rate = d(-1, 0);
    assert!(matches!(employee_columns(&neg), Err(DbError::Currency(CurrencyError::Negative(_)))));
    let mut big = e.clone();
    big.vacation_balance = d(100000000000000000, 0);
    match employee_columns(&big) {
        Err(DbError::InvalidData(m)) => assert_eq!(
            m,
            "Employee #E-4 (Ann Lee): vacation_balance is invalid \u{2014} Value too large for i64 cents representation: 100000000000000000 (value: 100000000000000000)"
        ),
        other => panic!("unexpected {:?}", other),
    }
}

#[test]
fn pay_amounts_stored() {
    assert_eq!(amounts_to_cents(&vec![d(1, 0), d(25, 1)]).ok(), Some(vec![100, 250]));
    match amounts_to_cents(&vec![d(1, 0), d(-2, 0), d(1, 3)]) {
        Err(DbError::InvalidData(m)) => assert_eq!(m, "Negative currency value: -2"),
        other => panic!("unexpected {:?}", other),
    }
    assert_eq!(amounts_to_signed_cents(&vec![d(-2, 0), d(-125, 3)]).ok(), Some(vec![-200, -12]));
    assert_eq!(stored_hours(None).ok(), Some(None));
    assert_eq!(stored_hours(Some(d(405, 1))).ok(), Some(Some(40500)));
    assert_eq!(stored_hours(Some(d(12345, 4))).ok(), Some(Some(1234)));
    let (name, cents) = deduction_row(&AdditionalDeduction { name: "Union DUES".to_string(), amount: d(1234, 2) }).unwrap();
    assert_eq!((name.as_str(), cents), ("union dues", 1234));
    let row = earning_row(&AdditionalEarning {
        id: None,
        payroll_id: 1,
        earning_type: "Bonus".to_string(),
        amount: d(50, 0),
        hours: Some(d(15, 1)),
        is_periodic: false,
    })
    .unwrap();
    assert_eq!(row.earning_type, "bonus");
    assert_eq!(row.amount, 5000);
    assert_eq!(row.hours, Some(1500));
    assert!(!row.is_periodic);
}
