use cpr::date::{Date, Timestamp};
use cpr::decimal::Dec;
use cpr::models::company::Company;
use cpr::models::employee::{Address, Employee, PayType};
use cpr::models::payroll_record::YtdTotals;
use cpr::models::province::Province;
use cpr::reports::format::{
    field_after_of, first_field_of, format_decimal, format_hours_hhmm, format_sin,
    group_thousands_of, mask_sin, parse_address,
};
use cpr::reports::roe::{PayPeriodType, SeparationReason};
use cpr::reports::t4::{
    decimal_to_cents_string, decimal_to_dollars_string, escape_xml, format_currency,
    t4_csv_header, t4_csv_row, t4_summary_csv_header, t4_summary_csv_row, t4_xml_document,
    total_of, SlipField, T4Data, T4SummaryData, T619Transmitter,
};

fn d(m: i128, s: u32) -> Dec {
    Dec { mantissa: m, scale: s }
}

fn same(a: Dec, b: Dec) -> bool {
    cpr::decimal::dec_eq(a, b)
}

fn date(y: i32, m: u32, day: u32) -> Date {
    Date { year: y, month: m, day }
}

fn employee(number: &str, sin: &str) -> Employee {
    Employee {
        id: Some(1),
        is_active: true,
        employee_number: number.to_string(),
        first_name: "Jane".to_string(),
        last_name: "Doe".to_string(),
        sin: sin.to_string(),
        address: Address {
            street: "1 Main St".to_string(),
            city: "Toronto".to_string(),
            province: "ON".to_string(),
            postal_code: "M1M 1M1".to_string(),
        },
        pay_type: PayType::Annual,
        pay_rate: d(60000, 0),
        notes: None,
        date_of_birth: date(1990, 6, 15),
        vacation_pay_rate: d(4, 2),
        vacation_balance: d(0, 0),
        vacation_balance_days: d(0, 0),
        overtime_multiplier: d(15, 1),
        ei_exempt: false,
        cpp_exempt: false,
        hire_date: date(2020, 1, 6),
        hire_province: "ON".to_string(),
        termination_date: None,
        dental_benefit: 2,
        created_at: Timestamp { seconds: 0, nanos: 0 },
    }
}

fn ytd(gross: i128, cpp: i128, ei: i128, fed: i128, prov: i128) -> YtdTotals {
    YtdTotals {
        employee_id: 1,
        year: 2025,
        gross_pay: d(gross, 2),
        cpp: d(cpp, 2),
        cpp2: d(0, 2),
        ei: d(ei, 2),
        federal_tax: d(fed, 2),
        provincial_tax: d(prov, 2),
        net_pay: d(0, 2),
        rpp_contributions: d(0, 2),
        pension_adjustment: d(0, 2),
    }
}

fn company() -> Company {
    Company {
        id: Some(1),
        name: "Acme & Sons".to_string(),
        business_number: Some("123456789RP0001".to_string()),
        address: "1 Main St, Toronto".to_string(),
        province: Province::ON,
        created_at: Timestamp { seconds: 0, nanos: 0 },
    }
}

// ------------------------------------------------------------ formatting

#[test]
fn decimals_with_thousands_separators() {
    assert_eq!(format_decimal(d(123456789, 2)), "1,234,567.89");
    assert_eq!(format_decimal(d(5, 0)), "5.00");
    assert_eq!(format_decimal(d(100000, 0)), "100,000.00");
    assert_eq!(format_decimal(d(1999, 3)), "1.99");
    // The sign stands in front of the grouped digits.
    assert_eq!(format_decimal(d(-12300, 2)), "-123.00");
    assert_eq!(format_decimal(d(-12345, 2)), "-123.45");
    assert_eq!(format_decimal(d(-12345, 1)), "-1,234.50");
    assert_eq!(format_decimal(d(1234567891, 3)), "1,234,567.89");
    assert_eq!(format_decimal(d(0, 0)), "0.00");
    assert_eq!(group_thousands_of("1234"), "1,234");
    assert_eq!(first_field_of("12.50", '.'), "12");
    assert_eq!(field_after_of("12.50", '.'), Some("50".to_string()));
    assert_eq!(field_after_of("12", '.'), None);
}

#[test]
fn hours_as_hours_and_minutes() {
    assert_eq!(format_hours_hhmm(d(75, 1)), Some("7:30".to_string()));
    assert_eq!(format_hours_hhmm(d(0, 0)), Some("0:00".to_string()));
    assert_eq!(format_hours_hhmm(d(40, 0)), Some("40:00".to_string()));
    assert_eq!(format_hours_hhmm(d(1, 2)), Some("0:01".to_string()));
    // 0.125 h is 7.5 minutes, rounded half to even.
    assert_eq!(format_hours_hhmm(d(125, 3)), Some("0:08".to_string()));
    assert_eq!(format_hours_hhmm(d(-15, 1)), Some("-1:-30".to_string()));
}

#[test]
fn sin_formatting_and_masking() {
    assert_eq!(format_sin("123456789"), "123 456 789");
    assert_eq!(format_sin("123-456-789"), "123 456 789");
    assert_eq!(format_sin("12345"), "12345");
    assert_eq!(mask_sin("123-456-789"), "*** *** 789");
    assert_eq!(mask_sin("12"), "*** *** ***");
}

#[test]
fn address_lines() {
    assert_eq!(parse_address("1 Main St, Toronto, ON"), vec!["1 Main St", "Toronto", "ON"]);
    assert_eq!(parse_address("1 Main St\n\n  Toronto ON  \n"), vec!["1 Main St", "Toronto ON"]);
    assert_eq!(parse_address(" , ,"), Vec::<String>::new());
    assert_eq!(parse_address("a,b\nc"), vec!["a,b", "c"]);
}

// ------------------------------------------------------------ record of employment

#[test]
fn roe_codes() {
    assert_eq!(SeparationReason::Shortage.code(), "A");
    assert_eq!(SeparationReason::Dismissal.code(), "M");
    assert_eq!(SeparationReason::Illness.description(), "Illness or injury");
    assert_eq!(PayPeriodType::Weekly.code(), 1);
    assert_eq!(PayPeriodType::Monthly.code(), 4);
}

// ------------------------------------------------------------ T4

#[test]
fn xml_escaping() {
    assert_eq!(escape_xml("A & B <c> \"d\" 'e'"), "A &amp; B &lt;c&gt; &quot;d&quot; &apos;e&apos;");
    assert_eq!(escape_xml("plain"), "plain");
}

#[test]
fn cents_and_dollars_strings() {
    assert_eq!(decimal_to_cents_string(&d(1234, 2)), Some("1234".to_string()));
    assert_eq!(decimal_to_cents_string(&d(48000, 0)), Some("4800000".to_string()));
    assert_eq!(decimal_to_cents_string(&d(12345, 3)), Some("1234".to_string()));
    assert_eq!(decimal_to_cents_string(&d(12355, 3)), Some("1236".to_string()));
    assert_eq!(decimal_to_dollars_string(&d(48000, 0)), "48000.00");
    assert_eq!(decimal_to_dollars_string(&d(1, 1)), "0.10");
    assert_eq!(format_currency(d(-12345, 1)), "-$1,234.50");
    assert_eq!(format_currency(d(100, 0)), "$100.00");
}

#[test]
fn slip_from_year_totals() {
    let t = T4Data::from_ytd_totals(employee("E-7", "123456789"), ytd(6000000, 300000, 98000, 700000, 300000))
        .unwrap();
    assert_eq!(t.year, 2025);
    assert!(same(t.income_tax_deducted, d(10000, 0)));
    assert!(same(t.cpp_pensionable_earnings, d(56500, 0)));
    assert!(same(t.ei_insurable_earnings, d(60000, 0)));
    assert!(same(t.computed_net_pay, d(4602000, 2)));
    assert_eq!(t.employment_code, Some("E-7".to_string()));
    assert_eq!(t.province_of_employment, "ON");
    assert_eq!(t.dental_benefit, 2);
    let low = T4Data::from_ytd_totals(employee("E-8", "1"), ytd(300000, 0, 0, 0, 0)).unwrap();
    assert!(same(low.cpp_pensionable_earnings, d(0, 0)));
}

fn two_slips() -> Vec<T4Data> {
    vec![
        T4Data::from_ytd_totals(employee("E-1", "123456789"), ytd(6000000, 300000, 100000, 700000, 300000))
            .unwrap(),
        T4Data::from_ytd_totals(employee("E-2", "987654321"), ytd(4000000, 200000, 50000, 400000, 200000))
            .unwrap(),
    ]
}

#[test]
fn summary_totals() {
    let slips = two_slips();
    assert!(same(total_of(&slips, SlipField::EmploymentIncome).unwrap(), d(100000, 0)));
    assert!(same(total_of(&Vec::new(), SlipField::Cpp).unwrap(), d(0, 0)));
    let s = T4SummaryData::calculate(2025, &slips, d(40000, 0)).unwrap();
    assert_eq!(s.total_slips, 2);
    assert!(same(s.total_employee_cpp, d(5000, 0)));
    assert!(same(s.total_employer_cpp, d(5000, 0)));
    assert!(same(s.total_employee_ei, d(1500, 0)));
    assert!(same(s.total_employer_ei, d(2100, 0)));
    assert!(same(s.total_income_tax, d(16000, 0)));
    // 5000 + 0 + 5000 + 0 + 1500 + 2100 + 16000
    assert!(same(s.total_deductions_reported, d(29600, 0)));
    assert!(same(s.difference, d(-10400, 0)));
}

#[test]
fn csv_rows() {
    let header = t4_csv_header();
    assert_eq!(header.len(), 19);
    assert_eq!(header[0], "TaxYear");
    assert_eq!(header[18], "EmploymentCode");
    let slips = two_slips();
    let row = t4_csv_row(2025, &company(), &slips[0]).unwrap();
    assert_eq!(row.len(), 19);
    assert_eq!(row[0], "2025");
    assert_eq!(row[1], "123456789RP0001");
    assert_eq!(row[2], "Acme & Sons");
    assert_eq!(row[3], "123456789");
    assert_eq!(row[8], "6000000");
    assert_eq!(header[11], "Box18_EIPremiums");
    assert_eq!(header[12], "Box20_RPPContributions");
    assert_eq!(row[11], decimal_to_cents_string(&slips[0].ei_premiums).unwrap());
    assert_ne!(row[11], "0");
    assert_eq!(row[12], "0");
    assert_eq!(row[13], "1000000");
    assert_eq!(row[15], "5650000");
    assert_eq!(row[17], "2");
    assert_eq!(row[18], "E-1");
    let sh = t4_summary_csv_header();
    assert_eq!(sh.len(), 10);
    let srow = t4_summary_csv_row(2025, &company(), &slips).unwrap();
    assert_eq!(
        srow,
        vec!["2025", "123456789RP0001", "Acme & Sons", "2", "10000000", "500000", "150000", "1600000", "10000000", "9300000"]
    );
}

#[test]
fn xml_document() {
    let slips = two_slips();
    let mut tr = T619Transmitter::new();
    tr.bn15 = "123456789RP0001".to_string();
    tr.name = "Acme".to_string();
    let xml = t4_xml_document(2025, &company(), &slips, &tr).unwrap();
    assert!(xml.contains("<T4Slip>"));
    assert_eq!(xml.matches("<T4Slip>").count(), 2);
    assert!(xml.contains("<sin>123456789</sin>"));
    assert!(xml.contains("<empt_incamt>60000.00</empt_incamt>"));
    assert!(xml.contains("<slp_cnt>2</slp_cnt>"));
    assert!(xml.contains("<tot_empr_eip_amt>2100.00</tot_empr_eip_amt>"));
    assert!(xml.contains("Acme &amp; Sons"));
    assert!(xml.trim_end().ends_with("</Submission>"));
}

#[test]
fn summary_without_remittances_shows_box_80_as_difference() {
    let slips = two_slips();
    let s = T4SummaryData::calculate(2025, &slips, d(0, 0)).unwrap();
    assert_eq!(format_currency(s.difference), format_currency(s.total_deductions_reported));
    assert_eq!(format_currency(s.total_remittances_paid), "$0.00");
    let none = T4SummaryData::calculate(2025, &vec![], d(0, 0)).unwrap();
    assert_eq!(format_currency(none.difference), "$0.00");
    assert_eq!(format_currency(none.total_deductions_reported), "$0.00");
}
