//! T4 slips as the storage layer keeps them: a slip per employee and
//! year, and a value per box (calculated plus adjustment).
use vstd::prelude::*;
use crate::date::Timestamp;
use crate::db::currency::{CurrencyError, decimal_to_cents_signed, decimal_to_cents_signed_spec};
use crate::db::error::DbError;
use crate::decimal::{
    Dec, checked_add, checked_sub, dec_checked_add, dec_checked_sub, dec_display_text, dec_max, display_text, lit,
    oadd, omax, osub, round_half_even, spec_max, zero_dec,
};
use crate::models::payroll::{law_t4_box_type_all_names, t4_box_type_names};
use crate::models::payroll_record::YtdTotals;
use crate::text::{all_ascii, push_str, str_eq, to_owned_string};

verus! {

/// Life-cycle state of a T4 slip.
#[derive(Debug, Clone, Copy, PartialEq, Eq, Hash, Structural)]
pub enum T4SlipStatus {
    Draft,
    Calculated,
    Filed,
    Locked,
}

pub open spec fn t4_slip_status_text(v: T4SlipStatus) -> Seq<char> {
    match v {
        T4SlipStatus::Draft => "draft"@,
        T4SlipStatus::Calculated => "calculated"@,
        T4SlipStatus::Filed => "filed"@,
        T4SlipStatus::Locked => "locked"@,
    }
}

/// The variant whose stored text is exactly `s`.
pub open spec fn t4_slip_status_of_text(s: Seq<char>) -> Option<T4SlipStatus> {
    if s == "draft"@ {
        Some(T4SlipStatus::Draft)
    } else if s == "calculated"@ {
        Some(T4SlipStatus::Calculated)
    } else if s == "filed"@ {
        Some(T4SlipStatus::Filed)
    } else if s == "locked"@ {
        Some(T4SlipStatus::Locked)
    } else {
        None
    }
}

pub fn t4_slip_status_of_exact_text(s: &str) -> (r: Option<T4SlipStatus>)
    ensures
        r == t4_slip_status_of_text(s@),
{
    if str_eq(s, "draft") {
        Some(T4SlipStatus::Draft)
    } else if str_eq(s, "calculated") {
        Some(T4SlipStatus::Calculated)
    } else if str_eq(s, "filed") {
        Some(T4SlipStatus::Filed)
    } else if str_eq(s, "locked") {
        Some(T4SlipStatus::Locked)
    } else {
        None
    }
}

impl T4SlipStatus {
    pub fn as_str(&self) -> (r: &'static str)
        ensures
            r@ == t4_slip_status_text(*self),
    {
        match self {
            T4SlipStatus::Draft => "draft",
            T4SlipStatus::Calculated => "calculated",
            T4SlipStatus::Filed => "filed",
            T4SlipStatus::Locked => "locked",
        }
    }

    pub fn from_str(s: &str) -> (r: Option<T4SlipStatus>)
        ensures
            r == t4_slip_status_of_text(s@),
    {
        t4_slip_status_of_exact_text(s)
    }
}

/// The status a slip has after its box values are adjusted: a slip that
/// was calculated goes back to draft; any other status stays.
pub fn status_after_adjustment(s: T4SlipStatus) -> (r: T4SlipStatus)
    ensures
        r == (if s == T4SlipStatus::Calculated { T4SlipStatus::Draft } else { s }),
{
    match s {
        T4SlipStatus::Calculated => T4SlipStatus::Draft,
        _ => s,
    }
}

proof fn lemma_t4_slip_status_letters()
    ensures
        "calculated"@ =~= seq!['c', 'a', 'l', 'c', 'u', 'l', 'a', 't', 'e', 'd'],
        "draft"@ =~= seq!['d', 'r', 'a', 'f', 't'],
        "filed"@ =~= seq!['f', 'i', 'l', 'e', 'd'],
        "locked"@ =~= seq!['l', 'o', 'c', 'k', 'e', 'd'],
{
    reveal_strlit("calculated");
    reveal_strlit("draft");
    reveal_strlit("filed");
    reveal_strlit("locked");
}

/// Every variant's stored text is read back as that variant.
pub proof fn lemma_t4_slip_status_roundtrip(v: T4SlipStatus)
    ensures
        all_ascii(t4_slip_status_text(v)),
        t4_slip_status_of_text(t4_slip_status_text(v)) == Some(v),
{
    lemma_t4_slip_status_letters();
    match v {
        T4SlipStatus::Draft => {
            let s = "draft"@;
            assert(all_ascii(s));
            assert(s =~= "draft"@);
        },
        T4SlipStatus::Calculated => {
            let s = "calculated"@;
            assert(all_ascii(s));
            assert("calculated"@.len() != "draft"@.len());
            assert(s =~= "calculated"@);
        },
        T4SlipStatus::Filed => {
            let s = "filed"@;
            assert(all_ascii(s));
            assert("filed"@[0] != "draft"@[0]);
            assert("filed"@.len() != "calculated"@.len());
            assert(s =~= "filed"@);
        },
        T4SlipStatus::Locked => {
            let s = "locked"@;
            assert(all_ascii(s));
            assert("locked"@.len() != "draft"@.len());
            assert("locked"@.len() != "calculated"@.len());
            assert("locked"@.len() != "filed"@.len());
            assert(s =~= "locked"@);
        },
    }
}

/// A T4 slip.
#[derive(Debug, Clone)]
pub struct T4SlipRecord {
    pub id: Option<i64>,
    pub employee_id: i64,
    pub year: i32,
    pub slip_version: i32,
    pub status: T4SlipStatus,
    /// Sum of the net pays of the year.
    pub net_pay: Dec,
    pub filed_at: Option<Timestamp>,
    pub filed_by: Option<String>,
    pub created_at: Timestamp,
    pub updated_at: Timestamp,
}

impl T4SlipRecord {
    /// A new, unsaved slip: a draft with no net pay yet, created and
    /// updated at `now`.
    pub fn draft(employee_id: i64, year: i32, slip_version: i32, now: Timestamp) -> (r: T4SlipRecord)
        ensures
            r.id is None,
            r.employee_id == employee_id,
            r.year == year,
            r.slip_version == slip_version,
            r.status == T4SlipStatus::Draft,
            r.net_pay == zero_dec(),
            r.filed_at is None,
            r.filed_by is None,
            r.created_at == now,
            r.updated_at == now,
    {
        T4SlipRecord {
            id: None,
            employee_id,
            year,
            slip_version,
            status: T4SlipStatus::Draft,
            net_pay: Dec::zero(),
            filed_at: None,
            filed_by: None,
            created_at: now,
            updated_at: now,
        }
    }
}

/// The version of a new slip after the highest existing one (zero when
/// there is none); `None` where it would not fit.
pub fn next_slip_version(max_version: i32) -> (r: Option<i32>)
    ensures
        max_version < i32::MAX ==> r == Some((max_version + 1) as i32),
        max_version == i32::MAX ==> r is None,
{
    if max_version < i32::MAX {
        Some(max_version + 1)
    } else {
        None
    }
}

/// The value of one box of a slip.
#[derive(Debug, Clone)]
pub struct T4BoxValue {
    pub id: Option<i64>,
    pub t4_slip_id: i64,
    pub box_type: String,
    pub calculated_value: Dec,
    pub adjustment_value: Dec,
}

impl T4BoxValue {
    /// The calculated value plus the adjustment.
    pub fn final_value(&self) -> (r: Option<Dec>)
        requires
            self.calculated_value.wf(),
            self.adjustment_value.wf(),
        ensures
            r == dec_checked_add(self.calculated_value, self.adjustment_value),
    {
        checked_add(self.calculated_value, self.adjustment_value)
    }
}

/// A slip with its box values.
#[derive(Debug, Clone)]
pub struct T4SlipData {
    pub slip: T4SlipRecord,
    pub box_values: Vec<T4BoxValue>,
}

/// A box amount as whole cents, negative amounts included.
pub fn t4_decimal_to_cents(value: &Dec) -> (r: Result<i64, DbError>)
    requires
        value.wf(),
    ensures
        match decimal_to_cents_signed_spec(*value) {
            Ok(c) => r matches Ok(d) && d == c,
            Err(_) => r matches Err(DbError::InvalidData(m)) && m@ == "Value too large: "@
                + dec_display_text(round_half_even(*value, 2)),
        },
{
    match decimal_to_cents_signed(value) {
        Ok(c) => Ok(c),
        Err(_) => {
            let rounded = crate::decimal::round_dp_even(*value, 2);
            let mut msg = to_owned_string("Value too large: ");
            let t = display_text(rounded);
            push_str(&mut msg, t.as_str());
            Err(DbError::InvalidData(msg))
        },
    }
}

/// Stored cents of a box as an amount.
pub fn t4_cents_to_decimal(cents: i64) -> (r: Dec)
    ensures
        r == lit(cents as int, 2),
        r.wf(),
{
    Dec::new(cents, 2)
}

/// The names of the boxes that a slip's calculation fills, in order.
pub open spec fn calculated_box_names() -> Seq<Seq<char>> {
    seq![
        "box_14"@,
        "box_16"@,
        "box_16a"@,
        "box_18"@,
        "box_20"@,
        "box_22"@,
        "box_24"@,
        "box_26"@,
        "box_52"@,
    ]
}

/// The basic CPP exemption used for box 26.
pub open spec fn cpp_exemption() -> Dec {
    lit(3500, 0)
}

/// The calculated box values of a year's totals: employment income
/// (14), CPP (16), CPP2 (16A), EI (18), RPP contributions (20), income
/// tax (22: federal plus provincial), EI insurable earnings (24: the
/// gross pay), CPP pensionable earnings (26: the gross pay above the
/// $3,500 exemption, at least zero) and pension adjustment (52).
pub open spec fn calculated_box_values(ytd: YtdTotals) -> Option<Seq<Dec>> {
    let income_tax = dec_checked_add(ytd.federal_tax, ytd.provincial_tax);
    let pensionable = omax(osub(Some(ytd.gross_pay), Some(cpp_exemption())), Some(zero_dec()));
    if income_tax is None || pensionable is None {
        None
    } else {
        Some(
            seq![
                ytd.gross_pay,
                ytd.cpp,
                ytd.cpp2,
                ytd.ei,
                ytd.rpp_contributions,
                income_tax->0,
                ytd.gross_pay,
                pensionable->0,
                ytd.pension_adjustment,
            ],
        )
    }
}

/// The box values that a slip's calculation saves, as (box, value)
/// pairs; `None` where an amount overflows.
pub fn t4_box_calculations(ytd: &YtdTotals) -> (r: Option<Vec<(&'static str, Dec)>>)
    requires
        ytd.wf(),
    ensures
        calculated_box_values(*ytd) is None ==> r is None,
        calculated_box_values(*ytd) matches Some(vals) ==> (r matches Some(v) && v@.len() == 9
            && forall|i: int| 0 <= i < 9 ==> (#[trigger] v@[i]).0@ == calculated_box_names()[i]
            && v@[i].1 == vals[i]),
{
    let income_tax = checked_add(ytd.federal_tax, ytd.provincial_tax)?;
    let above = checked_sub(ytd.gross_pay, Dec::new(3500, 0))?;
    let pensionable = dec_max(above, Dec::zero());
    let mut v: Vec<(&'static str, Dec)> = Vec::new();
    v.push(("box_14", ytd.gross_pay));
    v.push(("box_16", ytd.cpp));
    v.push(("box_16a", ytd.cpp2));
    v.push(("box_18", ytd.ei));
    v.push(("box_20", ytd.rpp_contributions));
    v.push(("box_22", income_tax));
    v.push(("box_24", ytd.gross_pay));
    v.push(("box_26", pensionable));
    v.push(("box_52", ytd.pension_adjustment));
    Some(v)
}

/// What an adjustment of `adj_value` to box `box_type` of slip `slip_id`
/// saves: nothing for a zero adjustment; the existing box (the first with
/// that name) with the adjustment added to its previous one; or a new
/// box with no calculated value.
pub fn adjusted_box_value(
    existing_boxes: &Vec<T4BoxValue>,
    slip_id: i64,
    box_type: &str,
    adj_value: Dec,
) -> (r: Option<Option<T4BoxValue>>)
    requires
        adj_value.wf(),
        forall|i: int| 0 <= i < existing_boxes@.len() ==> (#[trigger] existing_boxes@[i]).adjustment_value.wf(),
    ensures
        adj_value.units() == 0 ==> r == Some(None::<T4BoxValue>),
        adj_value.units() != 0 ==> match r {
            None => exists|i: int|
                0 <= i < existing_boxes@.len() && (#[trigger] existing_boxes@[i]).box_type@
                    == box_type@ && dec_checked_add(existing_boxes@[i].adjustment_value, adj_value)
                    is None,
            Some(None) => false,
            Some(Some(b)) => b.t4_slip_id == slip_id && b.box_type@ == box_type@ && (
            (exists|i: int|
                0 <= i < existing_boxes@.len() && (#[trigger] existing_boxes@[i]).box_type@
                    == box_type@ && (forall|j: int|
                    0 <= j < i ==> (#[trigger] existing_boxes@[j]).box_type@ != box_type@)
                    && b.id == existing_boxes@[i].id && b.calculated_value
                    == existing_boxes@[i].calculated_value && Some(b.adjustment_value)
                    == dec_checked_add(existing_boxes@[i].adjustment_value, adj_value)) || (
            (forall|j: int|
                0 <= j < existing_boxes@.len() ==> (#[trigger] existing_boxes@[j]).box_type@
                    != box_type@) && b.id is None && b.calculated_value == zero_dec()
                && b.adjustment_value == adj_value)),
        },
{
    proof {
        crate::decimal::lemma_units_sign(adj_value);
    }
    if adj_value.is_zero() {
        return Some(None);
    }
    let n = existing_boxes.len();
    let mut i: usize = 0;
    while i < n
        invariant
            n == existing_boxes@.len(),
            i <= n,
            adj_value.wf(),
            adj_value.units() != 0,
            forall|k: int|
                0 <= k < existing_boxes@.len() ==> (#[trigger] existing_boxes@[k]).adjustment_value.wf(),
            forall|j: int| 0 <= j < i ==> (#[trigger] existing_boxes@[j]).box_type@ != box_type@,
        decreases n - i,
    {
        let existing = &existing_boxes[i];
        if str_eq(existing.box_type.as_str(), box_type) {
            let adjustment = match checked_add(existing.adjustment_value, adj_value) {
                Some(a) => a,
                None => return None,
            };
            return Some(
                Some(
                    T4BoxValue {
                        id: existing.id,
                        t4_slip_id: slip_id,
                        box_type: to_owned_string(box_type),
                        calculated_value: existing.calculated_value,
                        adjustment_value: adjustment,
                    },
                ),
            );
        }
        i = i + 1;
    }
    Some(
        Some(
            T4BoxValue {
                id: None,
                t4_slip_id: slip_id,
                box_type: to_owned_string(box_type),
                calculated_value: Dec::zero(),
                adjustment_value: adj_value,
            },
        ),
    )
}

/// The values a slip's calculation saves, box by box: boxes 14 and 24 hold
/// the year's gross pay, box 16 its CPP, box 16A its CPP2, box 18 its EI,
/// box 20 its RPP contributions, box 22 the sum of its federal and
/// provincial tax, box 26 its gross pay less the CPP exemption (at least
/// zero) and box 52 its pension adjustment. No box is listed twice.
pub proof fn law_t4_box_values(ytd: YtdTotals)
    ensures
        calculated_box_names().len() == 9,
        calculated_box_names().no_duplicates(),
        calculated_box_values(ytd) is Some ==> {
            let vals = calculated_box_values(ytd)->0;
            let names = calculated_box_names();
            &&& vals.len() == 9
            &&& names[0] == "box_14"@ && vals[0] == ytd.gross_pay
            &&& names[1] == "box_16"@ && vals[1] == ytd.cpp
            &&& names[2] == "box_16a"@ && vals[2] == ytd.cpp2
            &&& names[3] == "box_18"@ && vals[3] == ytd.ei
            &&& names[4] == "box_20"@ && vals[4] == ytd.rpp_contributions
            &&& names[5] == "box_22"@ && Some(vals[5]) == dec_checked_add(
                ytd.federal_tax,
                ytd.provincial_tax,
            )
            &&& names[6] == "box_24"@ && vals[6] == ytd.gross_pay
            &&& names[7] == "box_26"@ && dec_checked_sub(ytd.gross_pay, lit(3500, 0)) is Some
                && vals[7] == spec_max(dec_checked_sub(ytd.gross_pay, lit(3500, 0))->0, zero_dec())
            &&& names[8] == "box_52"@ && vals[8] == ytd.pension_adjustment
        },
{
    law_t4_box_type_all_names();
    let names = calculated_box_names();
    let all = t4_box_type_names();
    assert forall|i: int| 0 <= i < 9 implies #[trigger] names[i] == all[if i < 8 {
        i
    } else {
        i + 1
    }] by {}
    assert forall|i: int, j: int| 0 <= i < names.len() && 0 <= j < names.len() && i != j implies names[i]
        != names[j] by {
        let fi = if i < 8 {
            i
        } else {
            i + 1
        };
        let fj = if j < 8 {
            j
        } else {
            j + 1
        };
        assert(names[i] == all[fi]);
        assert(names[j] == all[fj]);
    }
}

} // verus!
