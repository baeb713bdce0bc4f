//! Carrying personal claim amounts into a later tax year.
use vstd::prelude::*;
use crate::decimal::{Dec, checked_div, checked_mul, dec_checked_div, dec_checked_mul, omul, odiv};
use crate::models::personal_amount::PersonalAmount;
use crate::models::province::Province;
use crate::tax::TaxYearConfig;
use crate::text::{i64_text, int_text, push_str, to_owned_string};

verus! {

/// The personal amounts of `source` indexed from its year to the target
/// year: each amount times the ratio of the target year's basic personal
/// amount to the source year's (federal, and the province's own when both
/// years have rates for it).  When the province has no rates in either
/// year, the amounts are kept as they are.
pub open spec fn indexed_amounts(
    source: PersonalAmount,
    province: Option<Province>,
    source_config: TaxYearConfig,
    target_config: TaxYearConfig,
) -> Option<(Dec, Dec)> {
    if province is Some && source_config.provincial.rates_of(province->0) is Some
        && target_config.provincial.rates_of(province->0) is Some {
        let p = province->0;
        let federal = omul(
            Some(source.federal_amount),
            dec_checked_div(
                target_config.federal.basic_personal_amount,
                source_config.federal.basic_personal_amount,
            ),
        );
        let provincial = omul(
            Some(source.provincial_amount),
            dec_checked_div(
                target_config.provincial.rates_of(p)->0.basic_personal_amount,
                source_config.provincial.rates_of(p)->0.basic_personal_amount,
            ),
        );
        if federal is Some && provincial is Some {
            Some((federal->0, provincial->0))
        } else {
            None
        }
    } else {
        Some((source.federal_amount, source.provincial_amount))
    }
}

/// The source year's personal amounts indexed to the target year (see
/// `indexed_amounts`); `province` is the province's code.  `None` where a
/// ratio divides by zero or a product overflows.
pub fn index_personal_amounts(
    source: &PersonalAmount,
    province: &str,
    source_config: &TaxYearConfig,
    target_config: &TaxYearConfig,
) -> (r: Option<(Dec, Dec)>)
    requires
        source.federal_amount.wf(),
        source.provincial_amount.wf(),
        source_config.wf(),
        target_config.wf(),
    ensures
        r == indexed_amounts(
            *source,
            crate::models::province::province_of_code(crate::text::text_uppercase(province@)),
            *source_config,
            *target_config,
        ),
{
    let province_code = Province::from_code(province);
    if let Some(p) = province_code {
        let source_rates = source_config.provincial.get(p);
        let target_rates = target_config.provincial.get(p);
        if let (Some(src), Some(tgt)) = (source_rates, target_rates) {
            let federal_ratio = checked_div(
                target_config.federal.basic_personal_amount,
                source_config.federal.basic_personal_amount,
            )?;
            let indexed_federal = checked_mul(source.federal_amount, federal_ratio)?;
            let provincial_ratio = checked_div(tgt.basic_personal_amount, src.basic_personal_amount)?;
            let indexed_provincial = checked_mul(source.provincial_amount, provincial_ratio)?;
            return Some((indexed_federal, indexed_provincial));
        }
    }
    Some((source.federal_amount, source.provincial_amount))
}

/// What the lookups of an employee's personal amounts lead to.
#[derive(Debug, Clone)]
pub enum AmountLookup {
    /// The federal and provincial amounts to use.
    Found(Dec, Dec),
    /// The latest amounts are of another year: the configurations of that
    /// year and of the target year are needed to index them.
    LoadConfigs { source_year: i32, target_year: i32 },
    /// No amounts at all; the message says so.
    Missing(String),
}

pub open spec fn missing_text(employee_id: i64, province: Seq<char>, year: i32) -> Seq<char> {
    "No personal amount found for employee "@ + int_text(employee_id as int) + " in province "@
        + province + " for year "@ + int_text(year as int)
        + " or any previous year. Please configure personal amounts before calculating payroll."@
}

/// After looking up the amounts of the year (`exact`) and the latest ones
/// of the employee in the province before that year (`latest`): the year's
/// own amounts when there are any, else the latest ones when they are of
/// the same year, else, when they are of an earlier year, a request for the
/// two years' configurations, else (none, or only of a later year) a
/// message that none exist.
pub fn after_lookups(
    exact: &Option<PersonalAmount>,
    latest: &Option<PersonalAmount>,
    employee_id: i64,
    province: &str,
    year: i32,
) -> (r: AmountLookup)
    ensures
        match (*exact, *latest) {
            (Some(e), _) => r == AmountLookup::Found(e.federal_amount, e.provincial_amount),
            (None, Some(l)) => if l.year == year {
                r == AmountLookup::Found(l.federal_amount, l.provincial_amount)
            } else if l.year < year {
                r == AmountLookup::LoadConfigs { source_year: l.year, target_year: year }
            } else {
                r matches AmountLookup::Missing(m) && m@ == missing_text(employee_id, province@, year)
            },
            (None, None) => r matches AmountLookup::Missing(m) && m@ == missing_text(
                employee_id,
                province@,
                year,
            ),
        },
{
    if let Some(e) = exact {
        return AmountLookup::Found(e.federal_amount, e.provincial_amount);
    }
    if let Some(l) = latest {
        if l.year == year {
            return AmountLookup::Found(l.federal_amount, l.provincial_amount);
        }
        if l.year < year {
            return AmountLookup::LoadConfigs { source_year: l.year, target_year: year };
        }
    }
    let mut m = to_owned_string("No personal amount found for employee ");
    let id = i64_text(employee_id);
    push_str(&mut m, id.as_str());
    push_str(&mut m, " in province ");
    push_str(&mut m, province);
    push_str(&mut m, " for year ");
    let y = i64_text(year as i64);
    push_str(&mut m, y.as_str());
    push_str(
        &mut m,
        " or any previous year. Please configure personal amounts before calculating payroll.",
    );
    AmountLookup::Missing(m)
}

pub open spec fn no_config_text(source_year: i32, year: i32) -> Seq<char> {
    "Cannot load tax config for year "@ + int_text(source_year as int) + " or "@ + int_text(
        year as int,
    ) + ". Tax config files are required for personal amount indexing."@
}

/// After loading the configurations asked for (`None` when either could
/// not be loaded): the latest amounts indexed to the target year (see
/// `indexed_amounts`), or the message that the configurations are
/// missing.  `None` where indexing divides by zero or overflows.
pub fn after_configs(
    latest: &PersonalAmount,
    province: &str,
    year: i32,
    configs: &Option<(TaxYearConfig, TaxYearConfig)>,
) -> (r: Option<Result<(Dec, Dec), String>>)
    requires
        latest.federal_amount.wf(),
        latest.provincial_amount.wf(),
        configs matches Some(c) ==> c.0.wf() && c.1.wf(),
    ensures
        match *configs {
            None => r matches Some(Err(m)) && m@ == no_config_text(latest.year, year),
            Some(c) => match indexed_amounts(
                *latest,
                crate::models::province::province_of_code(crate::text::text_uppercase(province@)),
                c.0,
                c.1,
            ) {
                None => r is None,
                Some(a) => r == Some(Ok::<(Dec, Dec), String>(a)),
            },
        },
{
    match configs {
        None => {
            let mut m = to_owned_string("Cannot load tax config for year ");
            let s = i64_text(latest.year as i64);
            push_str(&mut m, s.as_str());
            push_str(&mut m, " or ");
            let t = i64_text(year as i64);
            push_str(&mut m, t.as_str());
            push_str(&mut m, ". Tax config files are required for personal amount indexing.");
            Some(Err(m))
        },
        Some(c) => match index_personal_amounts(latest, province, &c.0, &c.1) {
            None => None,
            Some(a) => Some(Ok(a)),
        },
    }
}

} // verus!
