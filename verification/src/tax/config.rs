//! Building the tax configuration from its stored form, finding the
//! configuration file, and deciding on configuration and app updates.
use vstd::prelude::*;
use crate::decimal::{Dec, zero_dec};
use crate::models::province::{Province, province_from_exact_code, province_of_code};
use crate::tax::{
    ProvinceTaxRates, ProvincialTaxConfig, Surtax, SurtaxTier, TaxBracket, brackets_wf, tiers_wf,
};
use crate::text::{
    char_count, char_range, i64_text, int_text, parse_i32, parsed_i32, push_str, starts_with,
    str_eq, strip_leading, to_owned_string, trim_start_char,
};

verus! {

// ---------------------------------------------------------------------
// Brackets and provinces from the configuration file
// ---------------------------------------------------------------------

/// A bracket as the configuration file lists it: its upper limit (none
/// for the top bracket), rate and constant.
#[derive(Debug, Clone, Copy)]
pub struct RawBracket {
    pub limit: Option<Dec>,
    pub rate: Dec,
    pub constant: Dec,
}

/// A surtax threshold as the configuration file lists it.
#[derive(Debug, Clone, Copy)]
pub struct RawSurtax {
    pub threshold: Dec,
    pub rate: Dec,
}

/// A province's rates as the configuration file lists them.
#[derive(Debug, Clone)]
pub struct RawProvinceConfig {
    pub basic_personal_amount: Dec,
    pub canada_employment_amount: Option<Dec>,
    pub brackets: Vec<RawBracket>,
    pub surtax_thresholds: Vec<RawSurtax>,
    pub k5p_threshold: Option<Dec>,
    pub k5p_rate: Option<Dec>,
    pub s2_amount: Option<Dec>,
}

pub open spec fn raw_brackets_wf(raw: Seq<RawBracket>) -> bool {
    forall|i: int|
        0 <= i < raw.len() ==> (#[trigger] raw[i]).rate.wf() && raw[i].constant.wf() && (
        raw[i].limit is Some ==> raw[i].limit->0.wf())
}

pub open spec fn raw_surtax_wf(raw: Seq<RawSurtax>) -> bool {
    forall|i: int| 0 <= i < raw.len() ==> (#[trigger] raw[i]).threshold.wf() && raw[i].rate.wf()
}

impl RawProvinceConfig {
    pub open spec fn wf(self) -> bool {
        &&& self.basic_personal_amount.wf()
        &&& (self.canada_employment_amount is Some ==> self.canada_employment_amount->0.wf())
        &&& raw_brackets_wf(self.brackets@)
        &&& raw_surtax_wf(self.surtax_thresholds@)
        &&& (self.k5p_threshold is Some ==> self.k5p_threshold->0.wf())
        &&& (self.k5p_rate is Some ==> self.k5p_rate->0.wf())
        &&& (self.s2_amount is Some ==> self.s2_amount->0.wf())
    }
}

/// The brackets in order, each starting where the previous one ended
/// (the first at `lower`).
pub open spec fn chain_brackets(raw: Seq<RawBracket>, lower: Dec) -> Seq<TaxBracket>
    decreases raw.len(),
{
    if raw.len() == 0 {
        Seq::empty()
    } else {
        let b = raw[0];
        let next_lower = match b.limit {
            Some(l) => l,
            None => lower,
        };
        seq![TaxBracket { lower_limit: lower, upper_limit: b.limit, rate: b.rate, constant: b.constant }]
            + chain_brackets(raw.drop_first(), next_lower)
    }
}

proof fn lemma_chain_brackets_wf(raw: Seq<RawBracket>, lower: Dec)
    requires
        raw_brackets_wf(raw),
        lower.wf(),
    ensures
        brackets_wf(chain_brackets(raw, lower)),
        chain_brackets(raw, lower).len() == raw.len(),
    decreases raw.len(),
{
    if raw.len() > 0 {
        let t = raw.drop_first();
        assert(raw_brackets_wf(t)) by {
            assert forall|i: int| 0 <= i < t.len() implies (#[trigger] t[i]).rate.wf()
                && t[i].constant.wf() && (t[i].limit is Some ==> t[i].limit->0.wf()) by {
                assert(t[i] == raw[i + 1]);
            }
        }
        let next_lower = match raw[0].limit {
            Some(l) => l,
            None => lower,
        };
        lemma_chain_brackets_wf(t, next_lower);
        let c = chain_brackets(raw, lower);
        let head = TaxBracket {
            lower_limit: lower,
            upper_limit: raw[0].limit,
            rate: raw[0].rate,
            constant: raw[0].constant,
        };
        assert forall|i: int| 0 <= i < c.len() implies (#[trigger] c[i]).wf() by {
            if i == 0 {
                assert(c[0] == head);
            } else {
                assert(c[i] == chain_brackets(t, next_lower)[i - 1]);
            }
        }
    }
}

/// The tax brackets of a list of limits: the first starts at zero and
/// each next one starts at the previous limit.
pub fn brackets_from_raw(raw: &Vec<RawBracket>) -> (r: Vec<TaxBracket>)
    requires
        raw_brackets_wf(raw@),
    ensures
        r@ == chain_brackets(raw@, zero_dec()),
        brackets_wf(r@),
{
    let n = raw.len();
    let mut out: Vec<TaxBracket> = Vec::new();
    let mut lower = Dec::zero();
    let mut i: usize = 0;
    proof {
        assert(raw@.subrange(0, n as int) =~= raw@);
    }
    while i < n
        invariant
            n == raw@.len(),
            i <= n,
            raw_brackets_wf(raw@),
            lower.wf(),
            out@ + chain_brackets(raw@.subrange(i as int, n as int), lower) == chain_brackets(
                raw@,
                zero_dec(),
            ),
        decreases n - i,
    {
        let b = raw[i];
        let ghost rest = raw@.subrange(i as int, n as int);
        proof {
            assert(rest.drop_first() =~= raw@.subrange(i + 1, n as int));
            assert(rest[0] == b);
        }
        let ghost before = out@;
        out.push(TaxBracket { lower_limit: lower, upper_limit: b.limit, rate: b.rate, constant: b.constant });
        let ghost old_lower = lower;
        if let Some(limit) = b.limit {
            lower = limit;
        }
        proof {
            assert(raw@[i as int] == b);
            let head = TaxBracket {
                lower_limit: old_lower,
                upper_limit: b.limit,
                rate: b.rate,
                constant: b.constant,
            };
            assert(chain_brackets(rest, old_lower) == seq![head] + chain_brackets(
                raw@.subrange(i + 1, n as int),
                lower,
            ));
            assert(out@ =~= before.push(head));
            assert(before + (seq![head] + chain_brackets(raw@.subrange(i + 1, n as int), lower))
                =~= before.push(head) + chain_brackets(raw@.subrange(i + 1, n as int), lower));
        }
        i = i + 1;
    }
    proof {
        assert(raw@.subrange(n as int, n as int).len() == 0);
        assert(out@ + Seq::<TaxBracket>::empty() =~= out@);
        lemma_chain_brackets_wf(raw@, zero_dec());
    }
    out
}

/// The surtax tiers of a list of thresholds.
pub open spec fn tiers_of(raw: Seq<RawSurtax>) -> Seq<SurtaxTier> {
    raw.map_values(|s: RawSurtax| SurtaxTier { threshold: s.threshold, rate: s.rate })
}

impl RawProvinceConfig {
    /// The province's rates: brackets chained from zero, the first surtax
    /// threshold as the single surtax and all of them as tiers, and the
    /// Canada employment amount and S2 amount zero when absent.
    pub fn into_province_rates(self) -> (r: ProvinceTaxRates)
        requires
            self.wf(),
        ensures
            r.wf(),
            r.basic_personal_amount == self.basic_personal_amount,
            r.canada_employment_amount == match self.canada_employment_amount {
                Some(v) => v,
                None => zero_dec(),
            },
            r.brackets@ == chain_brackets(self.brackets@, zero_dec()),
            r.surtax == (if self.surtax_thresholds@.len() > 0 {
                Some(
                    Surtax {
                        threshold: self.surtax_thresholds@[0].threshold,
                        rate: self.surtax_thresholds@[0].rate,
                    },
                )
            } else {
                None
            }),
            r.surtax_tiers@ == tiers_of(self.surtax_thresholds@),
            r.k5p_threshold == self.k5p_threshold,
            r.k5p_rate == self.k5p_rate,
            r.s2_amount == match self.s2_amount {
                Some(v) => v,
                None => zero_dec(),
            },
    {
        let brackets = brackets_from_raw(&self.brackets);
        let surtax = if self.surtax_thresholds.len() > 0 {
            let s = self.surtax_thresholds[0];
            Some(Surtax { threshold: s.threshold, rate: s.rate })
        } else {
            None
        };
        let mut tiers: Vec<SurtaxTier> = Vec::new();
        let mut i: usize = 0;
        while i < self.surtax_thresholds.len()
            invariant
                i <= self.surtax_thresholds@.len(),
                raw_surtax_wf(self.surtax_thresholds@),
                tiers@ == tiers_of(self.surtax_thresholds@.subrange(0, i as int)),
            decreases self.surtax_thresholds@.len() - i,
        {
            let s = self.surtax_thresholds[i];
            tiers.push(SurtaxTier { threshold: s.threshold, rate: s.rate });
            proof {
                assert(tiers_of(self.surtax_thresholds@.subrange(0, i + 1)) =~= tiers_of(
                    self.surtax_thresholds@.subrange(0, i as int),
                ).push(SurtaxTier { threshold: s.threshold, rate: s.rate }));
            }
            i = i + 1;
        }
        proof {
            assert(self.surtax_thresholds@.subrange(0, self.surtax_thresholds@.len() as int)
                =~= self.surtax_thresholds@);
            assert(tiers_wf(tiers@)) by {
                assert forall|j: int| 0 <= j < tiers@.len() implies (#[trigger] tiers@[j]).threshold.wf()
                    && tiers@[j].rate.wf() by {
                    assert(tiers@[j].threshold == self.surtax_thresholds@[j].threshold);
                }
            }
        }
        ProvinceTaxRates {
            basic_personal_amount: self.basic_personal_amount,
            canada_employment_amount: match self.canada_employment_amount {
                Some(v) => v,
                None => Dec::zero(),
            },
            brackets,
            surtax,
            surtax_tiers: tiers,
            k5p_threshold: self.k5p_threshold,
            k5p_rate: self.k5p_rate,
            s2_amount: match self.s2_amount {
                Some(v) => v,
                None => Dec::zero(),
            },
        }
    }
}

/// The index of the last entry whose code is exactly province `p`'s code.
pub open spec fn last_entry_for(entries: Seq<(String, RawProvinceConfig)>, p: Province) -> Option<int>
    decreases entries.len(),
{
    if entries.len() == 0 {
        None
    } else if province_of_code(entries.last().0@) == Some(p) {
        Some(entries.len() - 1)
    } else {
        last_entry_for(entries.drop_last(), p)
    }
}

proof fn lemma_last_entry_bounds(entries: Seq<(String, RawProvinceConfig)>, p: Province)
    ensures
        last_entry_for(entries, p) matches Some(i) ==> 0 <= i < entries.len() && province_of_code(
            entries[i].0@,
        ) == Some(p),
    decreases entries.len(),
{
    if entries.len() > 0 && province_of_code(entries.last().0@) != Some(p) {
        lemma_last_entry_bounds(entries.drop_last(), p);
    }
}

/// The provincial table of the configuration file's entries, keyed by
/// province code: entries whose code is not a province are skipped, and a
/// later entry for a province replaces an earlier one.  Each province gets
/// the rates of its last entry.
pub fn provincial_from_raw(entries: Vec<(String, RawProvinceConfig)>) -> (r: ProvincialTaxConfig)
    requires
        forall|i: int| 0 <= i < entries@.len() ==> (#[trigger] entries@[i]).1.wf(),
    ensures
        r.wf(),
        forall|p: Province|
            match #[trigger] last_entry_for(entries@, p) {
                None => r.rates_of(p) is None,
                Some(i) => r.rates_of(p) is Some && r.rates_of(p)->0.brackets@ == chain_brackets(
                    entries@[i].1.brackets@,
                    zero_dec(),
                ) && r.rates_of(p)->0.basic_personal_amount == entries@[i].1.basic_personal_amount
                    && r.rates_of(p)->0.surtax_tiers@ == tiers_of(entries@[i].1.surtax_thresholds@),
            },
{
    let ghost all = entries@;
    let mut table = ProvincialTaxConfig::new();
    let mut rest = entries;
    let n = rest.len();
    let mut i: usize = 0;
    proof {
        assert(all.subrange(0, 0).len() == 0);
        assert(rest@ =~= all.subrange(0, n as int));
    }
    while i < n
        invariant
            n == all.len(),
            i <= n,
            rest@ == all.subrange(i as int, n as int),
            forall|j: int| 0 <= j < all.len() ==> (#[trigger] all[j]).1.wf(),
            table.wf(),
            forall|p: Province|
                match #[trigger] last_entry_for(all.subrange(0, i as int), p) {
                    None => table.rates_of(p) is None,
                    Some(k) => table.rates_of(p) is Some && table.rates_of(p)->0.brackets@
                        == chain_brackets(all[k].1.brackets@, zero_dec())
                        && table.rates_of(p)->0.basic_personal_amount
                        == all[k].1.basic_personal_amount && table.rates_of(p)->0.surtax_tiers@
                        == tiers_of(all[k].1.surtax_thresholds@),
                },
        decreases n - i,
    {
        let entry = rest.remove(0);
        let ghost pre = all.subrange(0, i + 1);
        proof {
            assert(entry == all[i as int]);
            assert(rest@ =~= all.subrange(i + 1, n as int));
            assert(pre.drop_last() =~= all.subrange(0, i as int));
            assert(pre.last() == all[i as int]);
            assert forall|p: Province|
                (#[trigger] last_entry_for(all.subrange(0, i as int), p)) is Some implies 0
                <= last_entry_for(all.subrange(0, i as int), p)->0 < i by {
                lemma_last_entry_bounds(all.subrange(0, i as int), p);
            }
        }
        let (code, raw) = entry;
        match province_from_exact_code(code.as_str()) {
            Some(province) => {
                let rates = raw.into_province_rates();
                table.insert(province, rates);
                proof {
                    assert forall|p: Province| match #[trigger] last_entry_for(pre, p) {
                        None => table.rates_of(p) is None,
                        Some(k) => table.rates_of(p) is Some && table.rates_of(p)->0.brackets@
                            == chain_brackets(all[k].1.brackets@, zero_dec())
                            && table.rates_of(p)->0.basic_personal_amount
                            == all[k].1.basic_personal_amount && table.rates_of(p)->0.surtax_tiers@
                            == tiers_of(all[k].1.surtax_thresholds@),
                    } by {
                        if p == province {
                            assert(province_of_code(pre.last().0@) == Some(province));
                            assert(last_entry_for(pre, p) == Some(i as int));
                        } else {
                            assert(last_entry_for(pre, p) == last_entry_for(all.subrange(0, i as int), p));
                            let k = last_entry_for(all.subrange(0, i as int), p);
                            if k is Some {
                                assert(all.subrange(0, i as int)[k->0] == all[k->0]);
                            }
                        }
                    }
                }
            },
            None => {
                proof {
                    assert forall|p: Province| match #[trigger] last_entry_for(pre, p) {
                        None => table.rates_of(p) is None,
                        Some(k) => table.rates_of(p) is Some && table.rates_of(p)->0.brackets@
                            == chain_brackets(all[k].1.brackets@, zero_dec())
                            && table.rates_of(p)->0.basic_personal_amount
                            == all[k].1.basic_personal_amount && table.rates_of(p)->0.surtax_tiers@
                            == tiers_of(all[k].1.surtax_thresholds@),
                    } by {
                        assert(last_entry_for(pre, p) == last_entry_for(all.subrange(0, i as int), p));
                    }
                }
            },
        }
        i = i + 1;
    }
    proof {
        assert(all.subrange(0, n as int) =~= all);
    }
    table
}

// ---------------------------------------------------------------------
// Where the configuration file is
// ---------------------------------------------------------------------

/// `tax_rates_<year>.json`.
pub open spec fn config_file_name(year: i32) -> Seq<char> {
    "tax_rates_"@ + int_text(year as int) + ".json"@
}

pub fn config_filename(year: i32) -> (r: String)
    ensures
        r@ == config_file_name(year),
{
    let mut out = to_owned_string("tax_rates_");
    let y = i64_text(year as i64);
    push_str(&mut out, y.as_str());
    push_str(&mut out, ".json");
    out
}

/// A path joined with a name, with `/` as separator: an absolute name
/// replaces the path, an empty path gives the name, and no separator is
/// doubled.
pub open spec fn joined_path(base: Seq<char>, name: Seq<char>) -> Seq<char> {
    if name.len() > 0 && name[0] == '/' {
        name
    } else if base.len() == 0 {
        name
    } else if base.last() == '/' {
        base + name
    } else {
        base + "/"@ + name
    }
}

/// `PathBuf::join` on `/`-separated paths.
pub fn join_path(base: &str, name: &str) -> (r: String)
    ensures
        r@ == joined_path(base@, name@),
{
    let nb = char_count(base);
    let nn = char_count(name);
    if nn > 0 && crate::text::char_at(name, 0) == '/' {
        return to_owned_string(name);
    }
    if nb == 0 {
        return to_owned_string(name);
    }
    let mut out = to_owned_string(base);
    if crate::text::char_at(base, nb - 1) != '/' {
        push_str(&mut out, "/");
    }
    push_str(&mut out, name);
    out
}

/// The directory for downloaded configuration files under the user's
/// configuration directory `base`.
pub fn user_config_dir(base: &str) -> (r: String)
    ensures
        r@ == joined_path(base@, "CanadianPayrollSystem"@),
{
    join_path(base, "CanadianPayrollSystem")
}

/// The places to look for the year's file, in order: the user's
/// configuration directory (when there is one), then the bundled
/// `config`, `../config` and `../../config`.
pub open spec fn config_candidates_spec(year: i32, user_dir: Option<Seq<char>>) -> Seq<Seq<char>> {
    let f = config_file_name(year);
    let bundled = seq![
        joined_path("config"@, f),
        joined_path("../config"@, f),
        joined_path("../../config"@, f),
    ];
    match user_dir {
        Some(d) => seq![joined_path(d, f)] + bundled,
        None => bundled,
    }
}

pub open spec fn texts(v: Seq<String>) -> Seq<Seq<char>> {
    v.map_values(|s: String| s@)
}

pub fn config_candidates(year: i32, user_dir: Option<&str>) -> (r: Vec<String>)
    ensures
        texts(r@) == config_candidates_spec(
            year,
            match user_dir {
                Some(d) => Some(d@),
                None => None,
            },
        ),
{
    let f = config_filename(year);
    let mut out: Vec<String> = Vec::new();
    if let Some(d) = user_dir {
        out.push(join_path(d, f.as_str()));
    }
    out.push(join_path("config", f.as_str()));
    out.push(join_path("../config", f.as_str()));
    out.push(join_path("../../config", f.as_str()));
    let ghost ud = match user_dir {
        Some(d) => Some(d@),
        None => None,
    };
    assert(texts(out@) =~= config_candidates_spec(year, ud));
    out
}

/// The first candidate whose flag in `exists` is set.
pub open spec fn first_existing(cands: Seq<Seq<char>>, exists: Seq<bool>, i: int) -> Option<Seq<char>>
    decreases cands.len() - i,
{
    if i >= cands.len() || i < 0 {
        None
    } else if i < exists.len() && exists[i] {
        Some(cands[i])
    } else {
        first_existing(cands, exists, i + 1)
    }
}

/// The configuration file to load: the first candidate (see
/// `config_candidates`) that exists, `exists` giving for each candidate
/// whether it does; the bundled `config` path when none does.
pub fn resolve_config_path(year: i32, user_dir: Option<&str>, exists: &Vec<bool>) -> (r: String)
    ensures
        ({
            let cands = config_candidates_spec(
                year,
                match user_dir {
                    Some(d) => Some(d@),
                    None => None,
                },
            );
            r@ == match first_existing(cands, exists@, 0) {
                Some(p) => p,
                None => joined_path("config"@, config_file_name(year)),
            }
        }),
{
    let cands = config_candidates(year, user_dir);
    let ghost spec_cands = texts(cands@);
    let n = cands.len();
    let mut i: usize = 0;
    while i < n
        invariant
            n == cands@.len(),
            i <= n,
            spec_cands == texts(cands@),
            spec_cands == config_candidates_spec(
                year,
                match user_dir {
                    Some(d) => Some(d@),
                    None => None,
                },
            ),
            first_existing(spec_cands, exists@, 0) == first_existing(spec_cands, exists@, i as int),
        decreases n - i,
    {
        proof {
            assert(spec_cands[i as int] == cands@[i as int]@);
        }
        if i < exists.len() && exists[i] {
            assert(first_existing(spec_cands, exists@, i as int) == Some(spec_cands[i as int]));
            return to_owned_string(cands[i].as_str());
        }
        assert(first_existing(spec_cands, exists@, i as int) == first_existing(
            spec_cands,
            exists@,
            i + 1,
        ));
        i = i + 1;
    }
    assert(first_existing(spec_cands, exists@, n as int) is None);
    let f = config_filename(year);
    join_path("config", f.as_str())
}

// ---------------------------------------------------------------------
// Updates published as releases
// ---------------------------------------------------------------------

/// A published release of the application.
#[derive(Debug, Clone)]
pub struct AppRelease {
    pub tag_name: String,
    pub name: Option<String>,
    pub body: Option<String>,
    pub html_url: String,
    pub assets: Vec<AppAsset>,
}

/// A file attached to a release.
#[derive(Debug, Clone)]
pub struct AppAsset {
    pub name: String,
    pub browser_download_url: String,
    pub size: u64,
}

/// The year of a `config-<year>` release tag, if the year is later than
/// `year` and the release carries that year's configuration file.
pub open spec fn newer_config_year_spec(year: i32, tag: Option<Seq<char>>, asset_names: Seq<Seq<char>>) -> Option<i32> {
    match tag {
        None => None,
        Some(t) => if t.len() >= 7 && t.subrange(0, 7) == "config-"@ {
            match parsed_i32(t.subrange(7, t.len() as int)) {
                Some(y) => if y > year && asset_names.contains(config_file_name(y)) {
                    Some(y)
                } else {
                    None
                },
                None => None,
            }
        } else {
            None
        },
    }
}

/// Whether the latest release (its tag and its files' names) offers a
/// configuration for a later year than `year`, and which.
pub fn newer_config_year(year: i32, tag_name: Option<&str>, asset_names: &Vec<String>) -> (r: Option<i32>)
    ensures
        r == newer_config_year_spec(
            year,
            match tag_name {
                Some(t) => Some(t@),
                None => None,
            },
            texts(asset_names@),
        ),
{
    proof {
        reveal_strlit("config-");
    }
    let tag = match tag_name {
        Some(t) => t,
        None => return None,
    };
    if !starts_with(tag, "config-") {
        return None;
    }
    let n = char_count(tag);
    let rest = char_range(tag, 7, n);
    let tag_year = match parse_i32(rest.as_str()) {
        Some(y) => y,
        None => return None,
    };
    if tag_year <= year {
        return None;
    }
    let filename = config_filename(tag_year);
    let ghost tag_spec = match tag_name {
        Some(t) => Some(t@),
        None => None,
    };
    assert(rest@ == tag@.subrange(7, tag@.len() as int));
    assert(newer_config_year_spec(year, tag_spec, texts(asset_names@)) == (if texts(
        asset_names@,
    ).contains(config_file_name(tag_year)) {
        Some(tag_year)
    } else {
        None
    }));
    let mut i: usize = 0;
    while i < asset_names.len()
        invariant
            i <= asset_names@.len(),
            tag_spec == match tag_name {
                Some(t) => Some(t@),
                None => None,
            },
            newer_config_year_spec(year, tag_spec, texts(asset_names@)) == (if texts(
                asset_names@,
            ).contains(config_file_name(tag_year)) {
                Some(tag_year)
            } else {
                None
            }),
            filename@ == config_file_name(tag_year),
            forall|j: int| 0 <= j < i ==> texts(asset_names@)[j] != filename@,
        decreases asset_names@.len() - i,
    {
        if str_eq(asset_names[i].as_str(), filename.as_str()) {
            assert(texts(asset_names@)[i as int] == config_file_name(tag_year));
            return Some(tag_year);
        }
        i = i + 1;
    }
    assert(!texts(asset_names@).contains(config_file_name(tag_year)));
    None
}

/// The download address of the year's configuration file in a release,
/// or the message that it is missing.
pub fn config_asset_url(year: i32, assets: &Vec<AppAsset>) -> (r: Result<String, String>)
    ensures
        match r {
            Ok(url) => exists|i: int|
                0 <= i < assets@.len() && (#[trigger] assets@[i]).name@ == config_file_name(year)
                    && url@ == assets@[i].browser_download_url@ && forall|j: int|
                    0 <= j < i ==> (#[trigger] assets@[j]).name@ != config_file_name(year),
            Err(msg) => msg@ == "Config file "@ + config_file_name(year) + " not found in release"@
                && forall|j: int|
                0 <= j < assets@.len() ==> (#[trigger] assets@[j]).name@ != config_file_name(year),
        },
{
    let filename = config_filename(year);
    let mut i: usize = 0;
    while i < assets.len()
        invariant
            i <= assets@.len(),
            filename@ == config_file_name(year),
            forall|j: int| 0 <= j < i ==> (#[trigger] assets@[j]).name@ != config_file_name(year),
        decreases assets@.len() - i,
    {
        if str_eq(assets[i].name.as_str(), filename.as_str()) {
            return Ok(to_owned_string(assets[i].browser_download_url.as_str()));
        }
        i = i + 1;
    }
    let mut msg = to_owned_string("Config file ");
    push_str(&mut msg, filename.as_str());
    push_str(&mut msg, " not found in release");
    Err(msg)
}

/// A release is an update when its tag, without leading `v`s, differs
/// from the running version.
pub fn app_update_available(tag_name: &str, current_version: &str) -> (r: bool)
    ensures
        r == (strip_leading(tag_name@, 'v') != current_version@),
{
    let latest = trim_start_char(tag_name, 'v');
    !str_eq(latest.as_str(), current_version)
}

} // verus!
