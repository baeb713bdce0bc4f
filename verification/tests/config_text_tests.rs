use cpr::decimal::{dec_eq, dec_le, dec_lt, dec_max, dec_min, sum_decs, Dec};
use cpr::models::province::Province;
use cpr::tax::config::{
    app_update_available, brackets_from_raw, config_asset_url, config_candidates,
    config_filename, join_path, newer_config_year, provincial_from_raw, resolve_config_path,
    user_config_dir, AppAsset, RawBracket, RawProvinceConfig, RawSurtax,
};
use cpr::text::{
    ascii_digits, char_count, char_range, parse_i32, parse_i64, replace_char, starts_with,
    trim_start_char,
};

fn d(m: i128, s: u32) -> Dec {
    Dec { mantissa: m, scale: s }
}

// ------------------------------------------------------------ decimals

#[test]
fn decimal_helpers() {
    assert!(dec_eq(d(150, 2), d(15, 1)));
    assert!(!dec_eq(d(150, 2), d(16, 1)));
    assert!(dec_lt(d(-1, 0), d(0, 5)));
    assert!(dec_le(d(10, 1), d(1, 0)));
    assert_eq!(dec_max(d(1, 0), d(2, 0)), d(2, 0));
    assert_eq!(dec_min(d(1, 0), d(2, 0)), d(1, 0));
    assert!(dec_eq(sum_decs(&vec![d(1, 1), d(2, 2), d(3, 0)]).unwrap(), d(312, 2)));
    assert!(dec_eq(sum_decs(&vec![]).unwrap(), d(0, 0)));
    assert_eq!(Dec::new(-5, 2), d(-5, 2));
    assert!(Dec::from_int(0).is_zero());
    assert_eq!(Dec::try_from_parts(5, 29), None);
    assert_eq!(Dec::try_from_parts(5, 28), Some(d(5, 28)));
}

// ------------------------------------------------------------ text

#[test]
fn integer_parsing() {
    assert_eq!(parse_i64("0"), Some(0));
    assert_eq!(parse_i64("-42"), Some(-42));
    assert_eq!(parse_i64("+7"), Some(7));
    assert_eq!(parse_i64("9223372036854775807"), Some(i64::MAX));
    assert_eq!(parse_i64("-9223372036854775808"), Some(i64::MIN));
    assert_eq!(parse_i64("9223372036854775808"), None);
    assert_eq!(parse_i64(""), None);
    assert_eq!(parse_i64("-"), None);
    assert_eq!(parse_i64("+"), None);
    assert_eq!(parse_i64("1 2"), None);
    assert_eq!(parse_i64(" 12"), None);
    assert_eq!(parse_i32("2026"), Some(2026));
    assert_eq!(parse_i32("2147483648"), None);
    assert_eq!(parse_i32("-2147483648"), Some(i32::MIN));
}

#[test]
fn text_helpers() {
    assert_eq!(char_count("héllo"), 5);
    assert_eq!(char_range("héllo", 1, 3), "él");
    assert_eq!(ascii_digits("a1-2 3"), "123");
    assert_eq!(replace_char("a&b&", '&', "&amp;"), "a&amp;b&amp;");
    assert!(starts_with("config-2026", "config-"));
    assert!(!starts_with("conf", "config-"));
    assert_eq!(trim_start_char("vv1.2", 'v'), "1.2");
}

// ------------------------------------------------------------ configuration

#[test]
fn brackets_chain_from_zero() {
    let raw = vec![
        RawBracket { limit: Some(d(50000, 0)), rate: d(15, 2), constant: d(0, 0) },
        RawBracket { limit: Some(d(100000, 0)), rate: d(205, 3), constant: d(2750, 0) },
        RawBracket { limit: None, rate: d(26, 2), constant: d(8250, 0) },
    ];
    let b = brackets_from_raw(&raw);
    assert_eq!(b.len(), 3);
    assert!(dec_eq(b[0].lower_limit, d(0, 0)));
    assert_eq!(b[0].upper_limit, Some(d(50000, 0)));
    assert!(dec_eq(b[1].lower_limit, d(50000, 0)));
    assert!(dec_eq(b[2].lower_limit, d(100000, 0)));
    assert_eq!(b[2].upper_limit, None);
    assert!(dec_eq(b[2].rate, d(26, 2)));
}

fn raw_province(bpa: i128, surtax: Vec<RawSurtax>) -> RawProvinceConfig {
    RawProvinceConfig {
        basic_personal_amount: d(bpa, 0),
        canada_employment_amount: None,
        brackets: vec![RawBracket { limit: None, rate: d(5, 2), constant: d(0, 0) }],
        surtax_thresholds: surtax,
        k5p_threshold: None,
        k5p_rate: None,
        s2_amount: None,
    }
}

#[test]
fn province_rates_from_file() {
    let r = raw_province(
        12000,
        vec![
            RawSurtax { threshold: d(5818, 0), rate: d(20, 2) },
            RawSurtax { threshold: d(7446, 0), rate: d(36, 2) },
        ],
    )
    .into_province_rates();
    assert!(dec_eq(r.basic_personal_amount, d(12000, 0)));
    assert!(r.canada_employment_amount.is_zero());
    assert!(r.s2_amount.is_zero());
    let s = r.surtax.unwrap();
    assert!(dec_eq(s.threshold, d(5818, 0)));
    assert_eq!(r.surtax_tiers.len(), 2);
    assert!(dec_eq(r.surtax_tiers[1].rate, d(36, 2)));
    assert!(raw_province(1, vec![]).into_province_rates().surtax.is_none());
}

#[test]
fn provincial_table_last_entry_wins() {
    let t = provincial_from_raw(vec![
        ("ON".to_string(), raw_province(100, vec![])),
        ("XX".to_string(), raw_province(200, vec![])),
        ("BC".to_string(), raw_province(300, vec![])),
        ("ab".to_string(), raw_province(500, vec![])),
        ("ON".to_string(), raw_province(400, vec![])),
    ]);
    assert!(dec_eq(t.get(Province::ON).unwrap().basic_personal_amount, d(400, 0)));
    assert!(dec_eq(t.get(Province::BC).unwrap().basic_personal_amount, d(300, 0)));
    assert!(t.get(Province::AB).is_none());
}

#[test]
fn config_file_locations() {
    assert_eq!(config_filename(2026), "tax_rates_2026.json");
    assert_eq!(join_path("a", "b"), "a/b");
    assert_eq!(join_path("a/", "b"), "a/b");
    assert_eq!(join_path("", "b"), "b");
    assert_eq!(join_path("a", "/abs"), "/abs");
    assert_eq!(user_config_dir("/home/u/.config"), "/home/u/.config/CanadianPayrollSystem");
    assert_eq!(
        config_candidates(2025, Some("/u")),
        vec![
            "/u/tax_rates_2025.json",
            "config/tax_rates_2025.json",
            "../config/tax_rates_2025.json",
            "../../config/tax_rates_2025.json"
        ]
    );
    assert_eq!(config_candidates(2025, None).len(), 3);
    assert_eq!(resolve_config_path(2025, Some("/u"), &vec![false, false, true, true]), "../config/tax_rates_2025.json");
    assert_eq!(resolve_config_path(2025, Some("/u"), &vec![true]), "/u/tax_rates_2025.json");
    assert_eq!(resolve_config_path(2025, None, &vec![]), "config/tax_rates_2025.json");
    assert_eq!(resolve_config_path(2025, None, &vec![false, false, false]), "config/tax_rates_2025.json");
}

#[test]
fn release_checks() {
    let names = vec!["tax_rates_2027.json".to_string(), "notes.txt".to_string()];
    assert_eq!(newer_config_year(2026, Some("config-2027"), &names), Some(2027));
    assert_eq!(newer_config_year(2027, Some("config-2027"), &names), None);
    assert_eq!(newer_config_year(2025, Some("config-2026"), &names), None);
    assert_eq!(newer_config_year(2025, Some("v1.2.0"), &names), None);
    assert_eq!(newer_config_year(2025, Some("config-abc"), &names), None);
    assert_eq!(newer_config_year(2025, None, &names), None);
    let assets = vec![
        AppAsset { name: "a.zip".to_string(), browser_download_url: "u1".to_string(), size: 1 },
        AppAsset { name: "tax_rates_2027.json".to_string(), browser_download_url: "u2".to_string(), size: 2 },
    ];
    assert_eq!(config_asset_url(2027, &assets), Ok("u2".to_string()));
    assert_eq!(
        config_asset_url(2028, &assets),
        Err("Config file tax_rates_2028.json not found in release".to_string())
    );
    assert!(app_update_available("v1.3.0", "1.2.0"));
    assert!(!app_update_available("v1.2.0", "1.2.0"));
    assert!(!app_update_available("1.2.0", "1.2.0"));
}
