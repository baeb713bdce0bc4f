use cpr::date::{Date, Timestamp};
use cpr::decimal::Dec;
use cpr::error::PayrollError;
use cpr::models::company::{is_valid_business_number, Company};
use cpr::models::employee::{Address, AutofillType, Employee, EmployeeAutofill, PayType};
use cpr::models::history::{EmploymentHistory, PayRateHistory};
use cpr::models::payroll::{DeductionType, EarningType, T4BoxType};
use cpr::models::payroll_record::{
    AdditionalDeduction, AdditionalEarning, Deductions, Payroll, YtdReductionValue, YtdTotals,
};
use cpr::models::province::Province;
use cpr::models::registry::{parse_bool, RegistryEntry, RegistryValue};
use cpr::db::records::{payroll_row_cents, payroll_row_signed_cents};
use cpr::models::vacation::{
    calculate_vacation_accrual, calculate_vacation_accrual_days, count_weekdays, weekdays_to_days,
    VacationAccrual, VacationPayType, VacationTimeOff, VacationTransactionType, WORK_DAYS_PER_YEAR,
};

fn d(m: i128, s: u32) -> Dec {
    Dec { mantissa: m, scale: s }
}

fn same(a: Dec, b: Dec) -> bool {
    cpr::decimal::dec_eq(a, b)
}

fn date(y: i32, m: u32, day: u32) -> Date {
    Date { year: y, month: m, day }
}

fn ts() -> Timestamp {
    Timestamp { seconds: 0, nanos: 0 }
}

// ---------------------------------------------------------------- enums

#[test]
fn province_lists_codes_and_names() {
    let all = Province::all();
    assert_eq!(all.len(), 13);
    assert_eq!(all[0], Province::ON);
    assert_eq!(Province::ON.code(), "ON");
    assert_eq!(Province::QC.name(), "Quebec");
    assert_eq!(Province::from_code("bc"), Some(Province::BC));
    assert_eq!(Province::from_code("NU"), Some(Province::NU));
    assert_eq!(Province::from_code("XX"), None);
    for p in all {
        assert_eq!(Province::from_code(p.code()), Some(p));
    }
}

#[test]
fn pay_and_autofill_types_round_trip() {
    assert_eq!(PayType::from_str("Hourly"), Some(PayType::Hourly));
    assert_eq!(PayType::from_str(PayType::Annual.as_str()), Some(PayType::Annual));
    assert_eq!(PayType::from_str("weekly"), Some(PayType::Weekly));
    assert_eq!(PayType::from_str("daily"), None);
    assert_eq!(AutofillType::from_str("EARNING"), Some(AutofillType::Earning));
    assert_eq!(AutofillType::Deduction.as_str(), "deduction");
    assert_eq!(AutofillType::from_str("other"), None);
}

#[test]
fn earning_types() {
    assert_eq!(EarningType::from_str("Bonus"), Some(EarningType::Bonus));
    assert_eq!(EarningType::from_str("commission"), Some(EarningType::Commission));
    assert_eq!(EarningType::from_str("nothing"), None);
    assert!(EarningType::Allowance.is_periodic());
    assert!(!EarningType::Bonus.is_periodic());
    assert_eq!(EarningType::Vacation.display_name(), "Vacation");
    assert_eq!(EarningType::all_names().len(), 6);
    assert!(AdditionalEarning::is_periodic_earning_type("Benefit"));
    assert!(!AdditionalEarning::is_periodic_earning_type("Commission"));
    assert!(AdditionalEarning::is_periodic_earning_type("mystery"));
}

#[test]
fn deduction_types_and_aliases() {
    assert_eq!(DeductionType::from_str("rpp"), Some(DeductionType::PensionRrsp));
    assert_eq!(DeductionType::from_str("Additional Tax"), Some(DeductionType::AddonTax));
    assert_eq!(DeductionType::from_str("Union Dues"), Some(DeductionType::UnionDues));
    assert_eq!(DeductionType::PensionRrsp.t4127_variable(), Some("F"));
    assert_eq!(DeductionType::UnionDues.t4127_variable(), Some("U1"));
    assert_eq!(DeductionType::AddonTax.t4127_variable(), Some("L"));
    assert_eq!(DeductionType::GroupInsurance.t4127_variable(), None);
    assert_eq!(DeductionType::NetPayAdjust.display_name(), "Net Pay Adjustment");
    assert_eq!(DeductionType::all_names().len(), 5);
}

#[test]
fn t4_box_types() {
    assert_eq!(T4BoxType::from_str("box14"), Some(T4BoxType::Box14));
    assert_eq!(T4BoxType::from_str("Box_16A"), Some(T4BoxType::Box16A));
    assert_eq!(T4BoxType::Box16A.box_number(), 16);
    assert_eq!(T4BoxType::from_box_number(16), Some(T4BoxType::Box16));
    assert_eq!(T4BoxType::from_box_number(52), Some(T4BoxType::Box52));
    assert_eq!(T4BoxType::from_box_number(99), None);
    assert_eq!(T4BoxType::Box22.as_str(), "box_22");
    assert_eq!(T4BoxType::all_names().len(), 10);
    assert_eq!(T4BoxType::Box14.display_name(), "Employment income");
}

#[test]
fn earning_type_text_forms_read_back() {
    for (i, n) in EarningType::all_names().iter().enumerate() {
        let e = EarningType::from_str(n).unwrap();
        assert_eq!(e.as_str(), *n);
        assert_eq!(EarningType::from_str(&n.to_uppercase()), Some(e));
        assert_eq!(EarningType::from_str(e.display_name()), Some(e));
        assert!(EarningType::all_names()[..i].iter().all(|m| m != n));
    }
    assert_eq!(EarningType::all_names(), vec!["allowance", "benefit", "bonus", "commission", "other", "vacation"]);
    assert_eq!(EarningType::from_str("BONUS"), Some(EarningType::Bonus));
    assert_eq!(EarningType::from_str("overtime"), None);
}

#[test]
fn deduction_type_text_forms_read_back() {
    for (i, n) in DeductionType::all_names().iter().enumerate() {
        let d = DeductionType::from_str(n).unwrap();
        assert_eq!(d.as_str(), *n);
        assert_eq!(DeductionType::from_str(&n.to_uppercase()), Some(d));
        assert_eq!(DeductionType::from_str(&n.replace('_', " ")), Some(d));
        assert_eq!(DeductionType::from_str(&n.replace('_', " ").to_uppercase()), Some(d));
        assert!(DeductionType::all_names()[..i].iter().all(|m| m != n));
    }
    assert_eq!(DeductionType::from_str("Group Insurance"), Some(DeductionType::GroupInsurance));
    assert_eq!(DeductionType::from_str("additional_tax"), Some(DeductionType::AddonTax));
    assert_eq!(DeductionType::from_str("health"), None);
    assert_eq!(DeductionType::from_str("Pension/RRSP"), None);
}

#[test]
fn t4_box_type_text_forms_read_back() {
    for (i, n) in T4BoxType::all_names().iter().enumerate() {
        let b = T4BoxType::from_str(n).unwrap();
        assert_eq!(b.as_str(), *n);
        assert_eq!(T4BoxType::from_str(&n.to_uppercase()), Some(b));
        assert_eq!(T4BoxType::from_str(&n.replace('_', "")), Some(b));
        assert_eq!(T4BoxType::from_str(&n.replace('_', "").to_uppercase()), Some(b));
        assert_eq!(T4BoxType::from_str(&n.replace('_', "-")), Some(b));
        assert_eq!(T4BoxType::from_str(&n.replace('_', "-").to_uppercase()), Some(b));
        assert!(T4BoxType::all_names()[..i].iter().all(|m| m != n));
        if b != T4BoxType::Box16A {
            assert_eq!(*n, format!("box_{}", b.box_number()));
            assert_eq!(T4BoxType::from_box_number(b.box_number()), Some(b));
        }
    }
    assert_eq!(T4BoxType::from_str("BOX-16A"), Some(T4BoxType::Box16A));
    assert_eq!(T4BoxType::Box16A.as_str(), "box_16a");
    assert_eq!(T4BoxType::Box45.box_number(), 45);
    assert_eq!(T4BoxType::from_str("box_17"), None);
    assert_eq!(T4BoxType::from_str("14"), None);
    assert_eq!(T4BoxType::from_str("box 14"), None);
}

#[test]
fn vacation_types() {
    assert_eq!(VacationTransactionType::from_str("payout"), Some(VacationTransactionType::Payout));
    assert_eq!(VacationTransactionType::Accrue.as_str(), "accrue");
    assert_eq!(VacationPayType::from_str("unpaid"), Some(VacationPayType::Unpaid));
    assert_eq!(VacationPayType::from_str("Paid"), None);
}

#[test]
fn error_messages() {
    assert_eq!(PayrollError::InvalidSin("bad".to_string()).message(), "Invalid SIN: bad");
    assert_eq!(
        PayrollError::InvalidTaxConfig(2026).message(),
        "Invalid tax configuration for year 2026"
    );
    assert_eq!(PayrollError::EmployeeNotFound(42).message(), "Employee not found: 42");
    assert_eq!(PayrollError::PayrollNotFound(-1).message(), "Payroll record not found: -1");
    assert_eq!(PayrollError::ValidationError("x".to_string()).message(), "Validation error: x");
}

// ---------------------------------------------------------------- payroll

fn earning(kind: &str, amount: Dec, periodic: bool) -> AdditionalEarning {
    AdditionalEarning {
        id: None,
        payroll_id: 1,
        earning_type: kind.to_string(),
        amount,
        hours: None,
        is_periodic: periodic,
    }
}

fn payroll() -> Payroll {
    Payroll {
        id: None,
        employee_id: 1,
        pay_period_start: date(2026, 1, 1),
        pay_period_end: date(2026, 1, 15),
        pay_date: date(2026, 1, 16),
        regular_hours: Some(d(80, 0)),
        overtime_hours: None,
        additional_earnings: vec![
            earning("allowance", d(100, 0), true),
            earning("bonus", d(500, 0), false),
        ],
        insured_earning: d(0, 0),
        gross_pay: d(2000, 0),
        additional_earnings_total: d(0, 0),
        additional_tax_amount: d(0, 0),
        deductions: Deductions {
            cpp: d(11000, 2),
            cpp2: d(0, 0),
            ei: d(3500, 2),
            federal_tax: d(20000, 2),
            provincial_tax: d(9000, 2),
            additional: vec![AdditionalDeduction { name: "union_dues".to_string(), amount: d(25, 0) }],
        },
        net_pay: d(0, 0),
        pay_period_number: Some(1),
        total_pay_periods: 26,
        total_deductions: d(0, 0),
        additional_deductions: d(0, 0),
        federal_personal_amount: d(16452, 0),
        provincial_personal_amount: d(12989, 0),
        province: "ON".to_string(),
        remittance_id: None,
        created_at: ts(),
    }
}

#[test]
fn payroll_gross_insured_and_net() {
    let mut p = payroll();
    assert!(p.calculate_gross_pay());
    assert!(same(p.additional_earnings_total, d(600, 0)));
    assert!(same(p.gross_pay, d(2600, 0)));
    p.calculate_insured_earning();
    assert!(same(p.insured_earning, d(2600, 0)));
    // periodic income: gross less all additional, plus the periodic ones
    assert!(same(p.periodic_income().unwrap(), d(2100, 0)));
    assert!(same(p.non_periodic_income().unwrap(), d(500, 0)));
    assert!(p.calculate_net_pay());
    assert!(same(p.total_deductions, d(46000, 2)));
    assert!(same(p.additional_deductions, d(25, 0)));
    // net pay adds the additional earnings total again, as recorded
    assert!(same(p.net_pay, d(2600 + 600 - 460, 0)));
    assert!(p.validate().is_ok());
}

#[test]
fn deductions_totals() {
    let ded = Deductions::new();
    assert!(same(ded.total().unwrap(), d(0, 0)));
    let p = payroll();
    assert!(same(p.deductions.statutory_total().unwrap(), d(435, 0)));
    assert!(same(p.deductions.total().unwrap(), d(460, 0)));
    let def: Deductions = Default::default();
    assert!(def.additional.is_empty());
}

#[test]
fn payroll_validation_errors() {
    let mut p = payroll();
    p.gross_pay = d(0, 0);
    p.additional_earnings_total = d(0, 0);
    match p.validate() {
        Err(PayrollError::InvalidPayAmount(m)) => {
            assert_eq!(m, "Gross pay or additional earnings must be greater than zero")
        }
        _ => panic!("expected an invalid pay amount"),
    }
    let mut p = payroll();
    p.net_pay = d(-1, 0);
    assert!(matches!(p.validate(), Err(PayrollError::InvalidPayAmount(m)) if m == "Net pay cannot be negative"));
    let mut p = payroll();
    p.overtime_hours = Some(d(-5, 1));
    assert!(matches!(p.validate(), Err(PayrollError::InvalidPayAmount(m)) if m == "Overtime hours cannot be negative"));
    let mut p = payroll();
    p.additional_earnings[1].amount = d(-1, 0);
    assert!(matches!(p.validate(), Err(PayrollError::InvalidPayAmount(m)) if m == "Earning amount cannot be negative: bonus"));
    let mut p = payroll();
    p.pay_period_end = date(2025, 12, 31);
    assert!(matches!(p.validate(), Err(PayrollError::InvalidDateRange(m)) if m == "Pay period end cannot be before start"));
    let mut p = payroll();
    p.pay_date = date(2026, 1, 14);
    assert!(matches!(p.validate(), Err(PayrollError::InvalidDateRange(m)) if m == "Pay date should not be before pay period end"));
}

#[test]
fn ytd_values() {
    let y = YtdTotals::new(3, 2026);
    assert_eq!(y.employee_id, 3);
    assert!(y.gross_pay.is_zero() && y.pension_adjustment.is_zero());
    let v = YtdReductionValue::new(9, "D1".to_string(), d(12, 0));
    assert_eq!(v.payroll_id, 9);
    assert_eq!(v.ytd_type, "D1");
    assert!(v.id.is_none());
}

// ---------------------------------------------------------------- employee

fn employee() -> Employee {
    Employee {
        id: Some(1),
        is_active: true,
        employee_number: "E-001".to_string(),
        first_name: "Jane".to_string(),
        last_name: "Doe".to_string(),
        sin: "123-456-789".to_string(),
        address: Address {
            street: "1 Main St".to_string(),
            city: "Toronto".to_string(),
            province: "ON".to_string(),
            postal_code: "M1M 1M1".to_string(),
        },
        pay_type: PayType::Hourly,
        pay_rate: d(2500, 2),
        notes: None,
        date_of_birth: date(1990, 6, 15),
        vacation_pay_rate: d(4, 2),
        vacation_balance: d(0, 0),
        vacation_balance_days: d(0, 0),
        overtime_multiplier: d(15, 1),
        ei_exempt: false,
        cpp_exempt: false,
        hire_date: date(2020, 1, 6),
        hire_province: "ON".to_string(),
        termination_date: None,
        dental_benefit: 1,
        created_at: ts(),
    }
}

#[test]
fn employee_name_and_age() {
    let e = employee();
    assert_eq!(e.full_name(), "Jane Doe");
    assert_eq!(e.age_on_date(date(2026, 6, 14)), 35);
    assert_eq!(e.age_on_date(date(2026, 6, 15)), 36);
    assert!(e.is_cpp_eligible(date(2026, 1, 1)));
    assert!(!e.is_cpp_eligible(date(2061, 6, 15)));
}

#[test]
fn employee_validation() {
    let today = date(2026, 2, 1);
    assert!(employee().validate_on(today).is_ok());
    assert!(employee().validate().is_ok());
    let mut e = employee();
    e.sin = "12345".to_string();
    assert!(matches!(e.validate_on(today), Err(PayrollError::InvalidSin(m)) if m == "SIN must be 9 digits"));
    let mut e = employee();
    e.pay_rate = d(0, 0);
    assert!(matches!(e.validate_on(today), Err(PayrollError::InvalidPayAmount(m)) if m == "Pay rate must be positive"));
    let mut e = employee();
    e.termination_date = Some(date(2019, 1, 1));
    assert!(matches!(e.validate_on(today), Err(PayrollError::InvalidDateRange(m)) if m == "Termination date cannot be before hire date"));
    let mut e = employee();
    e.date_of_birth = date(2026, 2, 1);
    assert!(matches!(e.validate_on(today), Err(PayrollError::InvalidDateRange(m)) if m == "Date of birth must be in the past"));
    let mut e = employee();
    e.date_of_birth = date(2015, 1, 1);
    assert!(matches!(e.validate_on(today), Err(PayrollError::InvalidDateRange(m)) if m == "Employee age (11) must be between 15 and 100"));
    let mut e = employee();
    e.vacation_pay_rate = d(21, 2);
    assert!(matches!(e.validate_on(today), Err(PayrollError::InvalidPayAmount(m)) if m == "Vacation pay rate must be between 0% and 20%"));
    let mut e = employee();
    e.overtime_multiplier = d(35, 1);
    assert!(matches!(e.validate_on(today), Err(PayrollError::InvalidPayAmount(m)) if m == "Overtime multiplier must be between 1.0 and 3.0"));
    let mut e = employee();
    e.address.province = "   ".to_string();
    assert!(matches!(e.validate_on(today), Err(PayrollError::InvalidPayAmount(m)) if m == "Address province is required"));
}

#[test]
fn autofill_values() {
    let a = EmployeeAutofill::new(4, AutofillType::Earning, "allowance".to_string(), d(50, 0));
    assert!(a.is_active && a.created_at.is_some());
    assert!(a.validate().is_ok());
    let blank = EmployeeAutofill::new(4, AutofillType::Deduction, "  ".to_string(), d(5, 0));
    assert!(matches!(blank.validate(), Err(PayrollError::InvalidPayAmount(m)) if m == "Type name cannot be empty"));
    let negative = EmployeeAutofill::new(4, AutofillType::Deduction, "x".to_string(), d(-5, 0));
    assert!(matches!(negative.validate(), Err(PayrollError::InvalidPayAmount(m)) if m == "Amount cannot be negative"));
}

// ---------------------------------------------------------------- vacation

#[test]
fn vacation_accruals() {
    assert!(same(calculate_vacation_accrual(d(2000, 0), d(4, 2)).unwrap(), d(80, 0)));
    assert!(calculate_vacation_accrual(d(2000, 0), d(0, 0)).unwrap().is_zero());
    assert!(calculate_vacation_accrual(d(-5, 0), d(4, 2)).unwrap().is_zero());
    // 4% of 250 days over 20 periods is half a day
    assert!(same(calculate_vacation_accrual_days(d(4, 2), 20).unwrap(), d(5, 1)));
    assert!(calculate_vacation_accrual_days(d(4, 2), 0).unwrap().is_zero());
    assert_eq!(WORK_DAYS_PER_YEAR, 250);
    assert!(same(weekdays_to_days(3), d(3, 0)));
}

#[test]
fn weekdays_between_dates() {
    // 2024-01-01 is a Monday
    assert_eq!(count_weekdays(date(2024, 1, 1), date(2024, 1, 7)), 5);
    assert_eq!(count_weekdays(date(2024, 1, 6), date(2024, 1, 7)), 0);
    assert_eq!(count_weekdays(date(2024, 1, 5), date(2024, 1, 8)), 2);
    assert_eq!(count_weekdays(date(2024, 2, 1), date(2024, 1, 1)), 0);
    assert_eq!(count_weekdays(date(2024, 1, 1), date(2024, 12, 31)), 262);
}

#[test]
fn vacation_records() {
    let a = VacationAccrual::new(1, date(2026, 1, 1), VacationTransactionType::Accrue, d(40, 0), d(40, 0));
    assert!(a.validate().is_ok());
    let z = VacationAccrual::new_dual(1, date(2026, 1, 1), VacationTransactionType::Adjust, d(0, 2), d(40, 0), d(0, 0), d(1, 0));
    assert!(matches!(z.validate(), Err(PayrollError::ValidationError(m)) if m == "Transaction amount cannot be zero (both dollar and day amounts are zero)"));
    let t = VacationTimeOff::new(1, date(2026, 3, 2), date(2026, 3, 6), VacationPayType::Paid, d(500, 0), d(500, 0));
    assert!(t.validate().is_ok());
    let bad = VacationTimeOff::new(1, date(2026, 3, 6), date(2026, 3, 2), VacationPayType::Unpaid, d(0, 0), d(0, 0));
    assert!(matches!(bad.validate(), Err(PayrollError::ValidationError(m)) if m == "End date cannot be before start date"));
}

// ---------------------------------------------------------------- company, history, registry

#[test]
fn company_business_numbers() {
    let mut c = Company::new("Acme".to_string(), Province::ON);
    assert_eq!(c.id, Some(1));
    assert!(c.validate().is_ok());
    c.business_number = Some("123 456 789".to_string());
    assert!(c.validate().is_ok());
    c.business_number = Some("123456789-RP-0001".to_string());
    assert!(c.validate().is_ok());
    c.business_number = Some("12345678".to_string());
    assert!(matches!(c.validate(), Err(PayrollError::ValidationError(_))));
    c.business_number = Some("1234567891P0001".to_string());
    assert!(c.validate().is_err());
    c.business_number = Some(" - ".to_string());
    assert!(c.validate().is_ok());
    let blank = Company::new(" ".to_string(), Province::BC);
    assert!(matches!(blank.validate(), Err(PayrollError::ValidationError(m)) if m == "Company name cannot be empty"));
    assert!(is_valid_business_number("123456789RC0002"));
    assert!(!is_valid_business_number("123456789R10002"));
}

#[test]
fn pay_rate_and_employment_history() {
    let mut r = PayRateHistory::new(1, d(25, 0), PayType::Hourly, date(2026, 1, 1), None);
    assert!(r.is_active());
    assert!(r.is_active_on(&date(2026, 1, 1)));
    assert!(!r.is_active_on(&date(2025, 12, 31)));
    r.end_date = Some(date(2026, 6, 30));
    assert!(!r.is_active());
    assert!(r.is_active_on(&date(2026, 6, 30)));
    assert!(!r.is_active_on(&date(2026, 7, 1)));
    let mut e = EmploymentHistory::new(1, date(2026, 1, 1));
    assert!(e.is_current());
    assert!(e.rehire_eligible);
    e.terminate(date(2026, 1, 31), Some("moved".to_string()), false);
    assert!(!e.is_current());
    assert!(!e.rehire_eligible);
    assert_eq!(e.duration_days(), 30);
    assert_eq!(e.duration_days_on(date(2030, 1, 1)), 30);
    let open = EmploymentHistory::new(1, date(2024, 1, 1));
    assert_eq!(open.duration_days_on(date(2024, 12, 31)), 365);
}

#[test]
fn registry_values() {
    assert_eq!(RegistryValue::from_string_and_type("hello", "String").unwrap(), RegistryValue::String("hello".to_string()));
    assert_eq!(RegistryValue::from_string_and_type("-42", "Integer").unwrap(), RegistryValue::Integer(-42));
    assert_eq!(RegistryValue::from_string_and_type("true", "Boolean").unwrap(), RegistryValue::Boolean(true));
    let j = RegistryValue::from_string_and_type("{ \"b\": 1, \"a\": [true, null] }", "Json").unwrap();
    assert_eq!(j.to_string_value(), "{\"a\":[true,null],\"b\":1}");
    assert_eq!(j.value_type_name(), "Json");
    assert!(matches!(RegistryValue::from_string_and_type("12x", "Integer"), Err(PayrollError::ValidationError(m)) if m == "Invalid integer value: 12x"));
    assert!(matches!(RegistryValue::from_string_and_type("yes", "Boolean"), Err(PayrollError::ValidationError(m)) if m == "Invalid boolean value: yes"));
    assert!(matches!(RegistryValue::from_string_and_type("{", "Json"), Err(PayrollError::ValidationError(m)) if m.starts_with("Invalid JSON value: ")));
    assert!(matches!(RegistryValue::from_string_and_type("1", "Float"), Err(PayrollError::ValidationError(m)) if m == "Unknown value type: Float"));
    assert_eq!(RegistryValue::Integer(7).to_string_value(), "7");
    assert_eq!(RegistryValue::Boolean(false).to_string_value(), "false");
    assert_eq!(parse_bool("True"), None);
}

#[test]
fn registry_entries() {
    let e = RegistryEntry::new("transmitter/bn15".to_string(), RegistryValue::String("x".to_string()));
    assert!(e.validate().is_ok());
    assert_eq!(e.created_at, e.updated_at);
    let blank = RegistryEntry::new("  ".to_string(), RegistryValue::Integer(1));
    assert!(matches!(blank.validate(), Err(PayrollError::ValidationError(m)) if m == "Key path cannot be empty"));
    let bad = RegistryEntry::new("a b".to_string(), RegistryValue::Integer(1));
    assert!(matches!(bad.validate(), Err(PayrollError::ValidationError(m)) if m.starts_with("Key path can only contain")));
    let unicode = RegistryEntry::new("caf\u{e9}.r\u{e9}glage_1-2".to_string(), RegistryValue::Integer(1));
    assert!(unicode.validate().is_ok());
}

#[test]
fn registry_stored_columns_read_back() {
    let i = RegistryValue::Integer(-9).stored();
    assert_eq!((i.value_type, i.value_string.clone(), i.value_integer), ("Integer", None, Some(-9)));
    assert_eq!(RegistryValue::from_stored(i.value_type, i.value_string, i.value_integer), RegistryValue::Integer(-9));
    let b = RegistryValue::Boolean(false).stored();
    assert_eq!((b.value_type, b.value_string.clone(), b.value_integer), ("Boolean", Some("false".to_string()), None));
    assert_eq!(RegistryValue::from_stored(b.value_type, b.value_string, b.value_integer), RegistryValue::Boolean(false));
    let s = RegistryValue::String("abc".to_string()).stored();
    assert_eq!(RegistryValue::from_stored(s.value_type, s.value_string, s.value_integer), RegistryValue::String("abc".to_string()));
    assert_eq!(RegistryValue::from_stored("Json", Some("{ \"x\" : 1 }".to_string()), None), RegistryValue::Json("{\"x\":1}".to_string()));
    assert_eq!(RegistryValue::from_stored("Json", Some("{".to_string()), None), RegistryValue::Json("null".to_string()));
    let j = RegistryValue::from_string_and_type("{\"b\": [1, 2], \"a\": null}", "Json").unwrap();
    let sj = j.stored();
    assert_eq!(RegistryValue::from_stored(sj.value_type, sj.value_string, sj.value_integer), j);
    assert_eq!(RegistryValue::from_stored("Json", None, None), RegistryValue::Json("{}".to_string()));
    assert_eq!(RegistryValue::from_stored("Integer", None, None), RegistryValue::Integer(0));
    assert_eq!(RegistryValue::from_stored("Boolean", Some("TRUE".to_string()), None), RegistryValue::Boolean(false));
    assert_eq!(RegistryValue::from_stored("Other", None, Some(3)), RegistryValue::String(String::new()));
}

#[test]
fn registry_text_reads_back() {
    for v in [
        RegistryValue::Integer(i64::MIN),
        RegistryValue::Integer(0),
        RegistryValue::Integer(1234567),
        RegistryValue::Boolean(true),
        RegistryValue::Boolean(false),
        RegistryValue::String("a b".to_string()),
    ] {
        let back = RegistryValue::from_string_and_type(&v.to_string_value(), v.value_type_name()).unwrap();
        assert_eq!(back, v);
    }
}

#[test]
fn imported_pay_keeps_negative_amounts() {
    let mut p = payroll();
    p.net_pay = d(-500, 2);
    p.additional_tax_amount = d(0, 0);
    let row = payroll_row_signed_cents(&p).unwrap();
    assert_eq!(row.len(), 13);
    assert_eq!(row[0], 200000);
    assert_eq!(row[10], -500);
    assert!(payroll_row_cents(&p).is_err());
}
