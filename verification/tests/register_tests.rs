use cpr::reports::format::format_decimal;
use cpr::date::{Date, Timestamp};
use cpr::decimal::Dec;
use cpr::models::employee::{Address, Employee, PayType};
use cpr::models::payroll_record::{AdditionalDeduction, AdditionalEarning, Deductions, Payroll, YtdTotals};
use cpr::reports::paystub::stub_amounts_of;
use cpr::reports::register::{
    deduction_column, earning_column, find_employee, government_share_of, payroll_register,
    remittance_register, sort_by_employee_number, DeductionColumn, EarningColumn, EmployeeRow,
};
use cpr::text::contains_text;

fn d(m: i128, s: u32) -> Dec {
    Dec { mantissa: m, scale: s }
}

fn same(a: Dec, b: Dec) -> bool {
    cpr::decimal::dec_eq(a, b)
}

fn date(y: i32, m: u32, day: u32) -> Date {
    Date { year: y, month: m, day }
}

fn employee(id: i64, number: &str, last: &str) -> Employee {
    Employee {
        id: Some(id),
        is_active: true,
        employee_number: number.to_string(),
        first_name: "Pat".to_string(),
        last_name: last.to_string(),
        sin: "123456789".to_string(),
        address: Address {
            street: "1 Main St".to_string(),
            city: "Toronto".to_string(),
            province: "ON".to_string(),
            postal_code: "M1M 1M1".to_string(),
        },
        pay_type: PayType::Hourly,
        pay_rate: d(2500, 2),
        notes: None,
        date_of_birth: date(1990, 6, 15),
        vacation_pay_rate: d(4, 2),
        vacation_balance: d(0, 0),
        vacation_balance_days: d(0, 0),
        overtime_multiplier: d(15, 1),
        ei_exempt: false,
        cpp_exempt: false,
        hire_date: date(2020, 1, 6),
        hire_province: "ON".to_string(),
        termination_date: None,
        dental_benefit: 1,
        created_at: Timestamp { seconds: 0, nanos: 0 },
    }
}

fn earning(t: &str, amount: Dec) -> AdditionalEarning {
    AdditionalEarning { id: None, payroll_id: 0, earning_type: t.to_string(), amount, hours: None, is_periodic: true }
}

fn deduction(n: &str, amount: Dec) -> AdditionalDeduction {
    AdditionalDeduction { name: n.to_string(), amount }
}

fn pay(employee_id: i64, gross: i128, extra: i128, earnings: Vec<AdditionalEarning>, deds: Vec<AdditionalDeduction>) -> Payroll {
    Payroll {
        id: None,
        employee_id,
        pay_period_start: date(2026, 1, 1),
        pay_period_end: date(2026, 1, 15),
        pay_date: date(2026, 1, 16),
        regular_hours: Some(d(80, 0)),
        overtime_hours: Some(d(25, 1)),
        additional_earnings: earnings,
        insured_earning: d(0, 0),
        gross_pay: d(gross, 0),
        additional_earnings_total: d(extra, 0),
        additional_tax_amount: d(0, 0),
        deductions: Deductions {
            cpp: d(100, 0),
            cpp2: d(10, 0),
            ei: d(30, 0),
            federal_tax: d(200, 0),
            provincial_tax: d(90, 0),
            additional: deds,
        },
        net_pay: d(1500, 0),
        pay_period_number: Some(1),
        total_pay_periods: 26,
        total_deductions: d(0, 0),
        additional_deductions: d(0, 0),
        federal_personal_amount: d(16452, 0),
        provincial_personal_amount: d(12989, 0),
        province: "ON".to_string(),
        remittance_id: None,
        created_at: Timestamp { seconds: 0, nanos: 0 },
    }
}

#[test]
fn substring_search() {
    assert!(contains_text("vacation pay", "vacat"));
    assert!(contains_text("abc", ""));
    assert!(contains_text("abc", "abc"));
    assert!(!contains_text("ab", "abc"));
    assert!(!contains_text("group", "grp"));
}

#[test]
fn earning_columns() {
    assert_eq!(earning_column("Vacation Pay"), EarningColumn::Vacation);
    assert_eq!(earning_column("COMMISSION"), EarningColumn::Commission);
    assert_eq!(earning_column("Car allowance"), EarningColumn::Allowance);
    assert_eq!(earning_column("director fee"), EarningColumn::Allowance);
    assert_eq!(earning_column("Lump sum"), EarningColumn::Bonus);
    assert_eq!(earning_column("benefit"), EarningColumn::Benefit);
    assert_eq!(earning_column("tips"), EarningColumn::Other);
    // The first rule that matches wins.
    assert_eq!(earning_column("vacation bonus"), EarningColumn::Vacation);
}

#[test]
fn deduction_columns() {
    assert_eq!(deduction_column("RPP Pension", true), DeductionColumn::Pension);
    assert_eq!(deduction_column("Union dues", true), DeductionColumn::Union);
    assert_eq!(deduction_column("Health plan", false), DeductionColumn::GroupInsurance);
    assert_eq!(deduction_column("Benefits", true), DeductionColumn::GroupInsurance);
    assert_eq!(deduction_column("Benefits", false), DeductionColumn::Other);
    assert_eq!(deduction_column("Parking", true), DeductionColumn::Other);
}

#[test]
fn employee_lookup() {
    let es = vec![employee(3, "10", "A"), employee(5, "20", "B"), employee(5, "30", "C")];
    assert_eq!(find_employee(&es, 5), Some(1));
    assert_eq!(find_employee(&es, 9), None);
}

fn row(num: &str, tag: i32) -> EmployeeRow<i32> {
    EmployeeRow { emp_num: num.to_string(), name: String::new(), data: tag }
}

#[test]
fn stable_number_order() {
    let rows = vec![row("10", 0), row("E-1", 1), row("2", 2), row("x", 3), row("10", 4), row("-1", 5)];
    let sorted = sort_by_employee_number(rows);
    let tags: Vec<i32> = sorted.iter().map(|r| r.data).collect();
    // "E-1" and "x" count as zero and keep their order; "-1" comes first.
    assert_eq!(tags, vec![5, 1, 3, 2, 0, 4]);
}

#[test]
fn government_amounts() {
    let g = government_share_of(d(100, 0), d(10, 0), d(30, 0), d(290, 0)).unwrap();
    assert!(same(g.employer_ei, d(42, 0)));
    assert!(same(g.payable_cpp, d(200, 0)));
    assert!(same(g.payable_cpp2, d(20, 0)));
    assert!(same(g.payable_ei, d(72, 0)));
    assert!(same(g.payable_total, d(582, 0)));
}

fn sample() -> (Vec<Payroll>, Vec<Employee>) {
    let employees = vec![employee(1, "20", "Zed"), employee(2, "7", "Young")];
    let payrolls = vec![
        pay(
            1,
            2000,
            300,
            vec![earning("Vacation", d(100, 0)), earning("Bonus", d(150, 0)), earning("Tips", d(50, 0))],
            vec![deduction("Pension plan", d(80, 0)), deduction("Benefits", d(20, 0))],
        ),
        pay(9, 999, 0, vec![], vec![]),
        pay(2, 1000, 0, vec![], vec![deduction("Union", d(15, 0))]),
    ];
    (payrolls, employees)
}

#[test]
fn payroll_register_rows_and_totals() {
    let (payrolls, employees) = sample();
    let reg = payroll_register(&payrolls, &employees).unwrap();
    assert_eq!(reg.rows.len(), 2);
    assert_eq!(reg.rows[0].emp_num, "7");
    assert_eq!(reg.rows[0].name, "Young, Pat");
    assert_eq!(reg.rows[1].emp_num, "20");
    let z = &reg.rows[1].data;
    assert!(same(z.gross_earning, d(2300, 0)));
    assert!(same(z.vacation, d(100, 0)));
    assert!(same(z.bonus, d(150, 0)));
    assert!(same(z.other_earning, d(50, 0)));
    assert!(same(z.pension, d(80, 0)));
    assert!(same(z.group_insurance, d(20, 0)));
    assert!(same(z.taxable_income, d(2220, 0)));
    assert!(same(z.overtime_hours, d(25, 1)));
    let t = &reg.summary;
    assert!(same(t.totals.gross_earning, d(3300, 0)));
    assert!(same(t.totals.cpp, d(200, 0)));
    assert!(same(t.deductions_total, d(115, 0)));
    assert!(same(t.tax_total, d(580, 0)));
    assert!(same(t.government.employer_ei, d(84, 0)));
    assert!(same(t.government.payable_total, d(400 + 40 + 144 + 580, 0)));
}

#[test]
fn remittance_register_rows_and_totals() {
    let (payrolls, employees) = sample();
    let reg = remittance_register(&payrolls, &employees).unwrap();
    assert_eq!(reg.rows.len(), 2);
    assert_eq!(reg.rows[0].emp_num, "7");
    assert_eq!(reg.rows[0].data.pay_period, "01/01-01/15");
    let z = &reg.rows[1].data;
    // The remittance register uses the pay before additional earnings, and
    // a deduction named "Benefits" is not insurance there.
    assert!(same(z.amounts.gross_earning, d(2000, 0)));
    assert!(same(z.amounts.other_deduction, d(20, 0)));
    assert!(same(z.amounts.taxable_income, d(1920, 0)));
    assert!(same(reg.rows[0].data.union_and_insurance, d(15, 0)));
    assert!(same(reg.summary.totals.gross_earning, d(3000, 0)));
    assert!(same(reg.summary.union_and_insurance, d(15, 0)));
    assert!(same(reg.summary.tax_total, d(580, 0)));
}

fn ytd() -> YtdTotals {
    YtdTotals {
        employee_id: 1,
        year: 2026,
        gross_pay: d(2300, 0),
        cpp: d(100, 0),
        cpp2: d(10, 0),
        ei: d(30, 0),
        federal_tax: d(200, 0),
        provincial_tax: d(90, 0),
        net_pay: d(1500, 0),
        rpp_contributions: d(0, 0),
        pension_adjustment: d(0, 0),
    }
}

#[test]
fn stub_lines() {
    let (payrolls, _) = sample();
    let e = employee(1, "20", "Zed");
    let s = stub_amounts_of(&payrolls[0], &e, &ytd()).unwrap();
    let h = s.hourly.unwrap();
    assert!(same(h.regular_pay, d(2000, 0)));
    assert!(same(h.overtime_rate, d(375, 1)));
    assert!(same(h.overtime_pay, d(9375, 2)));
    assert!(same(s.ytd_deductions, d(430, 0)));
    let mut salaried = e.clone();
    salaried.pay_type = PayType::Annual;
    assert!(stub_amounts_of(&payrolls[0], &salaried, &ytd()).unwrap().hourly.is_none());
}

#[test]
fn government_share_of_cents_amounts() {
    let g = government_share_of(d(10000, 2), d(0, 0), d(5000, 2), d(30000, 2)).unwrap();
    assert_eq!(format_decimal(g.employer_ei), "70.00");
    assert_eq!(format_decimal(g.payable_cpp), "200.00");
    assert_eq!(format_decimal(g.payable_cpp2), "0.00");
    assert_eq!(format_decimal(g.payable_ei), "120.00");
    assert_eq!(format_decimal(g.payable_tax), "300.00");
    assert_eq!(format_decimal(g.payable_total), "620.00");
}
