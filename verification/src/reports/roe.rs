//! Record of Employment: its data and the CRA codes it uses.
use vstd::prelude::*;
use crate::date::Date;
use crate::decimal::Dec;
use crate::models::employee::Employee;

verus! {

/// The data of a Record of Employment.
#[derive(Debug, Clone)]
pub struct RoeData {
    pub employee: Employee,
    pub serial_number: String,
    pub first_day_worked: Date,
    pub last_day_paid: Date,
    pub final_pay_period_end: Date,
    pub reason_for_separation: SeparationReason,
    pub insurable_hours: Dec,
    pub insurable_earnings: Dec,
    pub pay_period_type: PayPeriodType,
    pub vacation_pay: Option<Dec>,
    pub comments: Option<String>,
}

/// Why employment ended.
#[derive(Debug, Clone, Copy, PartialEq, Eq, Structural)]
pub enum SeparationReason {
    Shortage,
    Strike,
    ReturnToSchool,
    Illness,
    Quit,
    Retirement,
    Maternity,
    Other,
    Dismissal,
}

pub open spec fn separation_code(r: SeparationReason) -> Seq<char> {
    match r {
        SeparationReason::Shortage => "A"@,
        SeparationReason::Strike => "B"@,
        SeparationReason::ReturnToSchool => "C"@,
        SeparationReason::Illness => "D"@,
        SeparationReason::Quit => "E"@,
        SeparationReason::Retirement => "F"@,
        SeparationReason::Maternity => "G"@,
        SeparationReason::Other => "K"@,
        SeparationReason::Dismissal => "M"@,
    }
}

pub open spec fn separation_description(r: SeparationReason) -> Seq<char> {
    match r {
        SeparationReason::Shortage => "Shortage of work"@,
        SeparationReason::Strike => "Strike or lockout"@,
        SeparationReason::ReturnToSchool => "Return to school"@,
        SeparationReason::Illness => "Illness or injury"@,
        SeparationReason::Quit => "Quit"@,
        SeparationReason::Retirement => "Retirement"@,
        SeparationReason::Maternity => "Maternity"@,
        SeparationReason::Other => "Other"@,
        SeparationReason::Dismissal => "Dismissal"@,
    }
}

impl SeparationReason {
    /// The CRA reason code (A to G, K, M).
    pub fn code(&self) -> (r: &'static str)
        ensures
            r@ == separation_code(*self),
    {
        match self {
            SeparationReason::Shortage => "A",
            SeparationReason::Strike => "B",
            SeparationReason::ReturnToSchool => "C",
            SeparationReason::Illness => "D",
            SeparationReason::Quit => "E",
            SeparationReason::Retirement => "F",
            SeparationReason::Maternity => "G",
            SeparationReason::Other => "K",
            SeparationReason::Dismissal => "M",
        }
    }

    pub fn description(&self) -> (r: &'static str)
        ensures
            r@ == separation_description(*self),
    {
        match self {
            SeparationReason::Shortage => "Shortage of work",
            SeparationReason::Strike => "Strike or lockout",
            SeparationReason::ReturnToSchool => "Return to school",
            SeparationReason::Illness => "Illness or injury",
            SeparationReason::Quit => "Quit",
            SeparationReason::Retirement => "Retirement",
            SeparationReason::Maternity => "Maternity",
            SeparationReason::Other => "Other",
            SeparationReason::Dismissal => "Dismissal",
        }
    }
}

/// How often the employee was paid.
#[derive(Debug, Clone, Copy, PartialEq, Eq, Structural)]
pub enum PayPeriodType {
    Weekly,
    BiWeekly,
    SemiMonthly,
    Monthly,
    Thirteen,
    TwentyTwo,
    Hourly,
    Daily,
}

pub open spec fn pay_period_code(p: PayPeriodType) -> i32 {
    match p {
        PayPeriodType::Weekly => 1,
        PayPeriodType::BiWeekly => 2,
        PayPeriodType::SemiMonthly => 3,
        PayPeriodType::Monthly => 4,
        PayPeriodType::Thirteen => 5,
        PayPeriodType::TwentyTwo => 6,
        PayPeriodType::Hourly => 7,
        PayPeriodType::Daily => 8,
    }
}

impl PayPeriodType {
    /// The CRA pay period code, 1 to 8.
    pub fn code(&self) -> (r: i32)
        ensures
            r == pay_period_code(*self),
            1 <= r <= 8,
    {
        match self {
            PayPeriodType::Weekly => 1,
            PayPeriodType::BiWeekly => 2,
            PayPeriodType::SemiMonthly => 3,
            PayPeriodType::Monthly => 4,
            PayPeriodType::Thirteen => 5,
            PayPeriodType::TwentyTwo => 6,
            PayPeriodType::Hourly => 7,
            PayPeriodType::Daily => 8,
        }
    }
}

/// Distinct pay period types have distinct codes.
pub proof fn law_pay_period_codes_distinct(a: PayPeriodType, b: PayPeriodType)
    ensures
        pay_period_code(a) == pay_period_code(b) ==> a == b,
{
}

/// Distinct separation reasons have distinct codes.
pub proof fn law_separation_codes_distinct(a: SeparationReason, b: SeparationReason)
    ensures
        separation_code(a) == separation_code(b) ==> a == b,
{
    reveal_strlit("A");
    reveal_strlit("B");
    reveal_strlit("C");
    reveal_strlit("D");
    reveal_strlit("E");
    reveal_strlit("F");
    reveal_strlit("G");
    reveal_strlit("K");
    reveal_strlit("M");
    if separation_code(a) == separation_code(b) {
        assert(separation_code(a)[0] == separation_code(b)[0]);
    }
}

/// Length and first character: enough to tell these texts apart.
spec fn text_marks(s: Seq<char>) -> (nat, char) {
    (s.len(), s[0])
}

/// The reasons for separation in declaration order.
pub open spec fn separation_reasons() -> Seq<SeparationReason> {
    seq![
        SeparationReason::Shortage,
        SeparationReason::Strike,
        SeparationReason::ReturnToSchool,
        SeparationReason::Illness,
        SeparationReason::Quit,
        SeparationReason::Retirement,
        SeparationReason::Maternity,
        SeparationReason::Other,
        SeparationReason::Dismissal,
    ]
}

/// Each reason for separation carries its Service Canada ROE code. Taken in
/// declaration order the codes are A, B, C, D, E, F, G, K and M: each one
/// capital letter, rising from one reason to the next (so no two reasons
/// share a code), and each goes with its reason's description: A with a
/// shortage of work, E with a quit, F with a retirement, M with a
/// dismissal.
pub proof fn law_separation_codes()
    ensures
        forall|r: SeparationReason| separation_reasons().contains(r),
        separation_reasons().map_values(|r: SeparationReason| separation_code(r)) == seq![
            "A"@,
            "B"@,
            "C"@,
            "D"@,
            "E"@,
            "F"@,
            "G"@,
            "K"@,
            "M"@,
        ],
        forall|r: SeparationReason|
            #[trigger] separation_code(r).len() == 1 && 'A' <= separation_code(r)[0] <= 'Z',
        forall|i: int, j: int|
            0 <= i < j < 9 ==> (separation_code(#[trigger] separation_reasons()[i])[0] as u32) < (
            separation_code(#[trigger] separation_reasons()[j])[0] as u32),
        forall|r: SeparationReason|
            (#[trigger] separation_code(r) == "A"@) <==> separation_description(r) == "Shortage of work"@,
        forall|r: SeparationReason|
            (#[trigger] separation_code(r) == "E"@) <==> separation_description(r) == "Quit"@,
        forall|r: SeparationReason|
            (#[trigger] separation_code(r) == "F"@) <==> separation_description(r) == "Retirement"@,
        forall|r: SeparationReason|
            (#[trigger] separation_code(r) == "M"@) <==> separation_description(r) == "Dismissal"@,
{
    reveal_strlit("A");
    reveal_strlit("B");
    reveal_strlit("C");
    reveal_strlit("D");
    reveal_strlit("E");
    reveal_strlit("F");
    reveal_strlit("G");
    reveal_strlit("K");
    reveal_strlit("M");
    reveal_strlit("Shortage of work");
    reveal_strlit("Strike or lockout");
    reveal_strlit("Return to school");
    reveal_strlit("Illness or injury");
    reveal_strlit("Quit");
    reveal_strlit("Retirement");
    reveal_strlit("Maternity");
    reveal_strlit("Other");
    reveal_strlit("Dismissal");
    let rs = separation_reasons();
    assert forall|r: SeparationReason| rs.contains(r) by {
        match r {
            SeparationReason::Shortage => assert(rs[0] == r),
            SeparationReason::Strike => assert(rs[1] == r),
            SeparationReason::ReturnToSchool => assert(rs[2] == r),
            SeparationReason::Illness => assert(rs[3] == r),
            SeparationReason::Quit => assert(rs[4] == r),
            SeparationReason::Retirement => assert(rs[5] == r),
            SeparationReason::Maternity => assert(rs[6] == r),
            SeparationReason::Other => assert(rs[7] == r),
            SeparationReason::Dismissal => assert(rs[8] == r),
        }
    }
    assert(rs.map_values(|r: SeparationReason| separation_code(r)) =~= seq![
        "A"@,
        "B"@,
        "C"@,
        "D"@,
        "E"@,
        "F"@,
        "G"@,
        "K"@,
        "M"@,
    ]);
    assert forall|r: SeparationReason|
        #[trigger] separation_code(r).len() == 1 && 'A' <= separation_code(r)[0] <= 'Z' by {}
    assert(text_marks("Shortage of work"@) == (16nat, 'S'));
    assert(text_marks("Strike or lockout"@) == (17nat, 'S'));
    assert(text_marks("Return to school"@) == (16nat, 'R'));
    assert(text_marks("Illness or injury"@) == (17nat, 'I'));
    assert(text_marks("Quit"@) == (4nat, 'Q'));
    assert(text_marks("Retirement"@) == (10nat, 'R'));
    assert(text_marks("Maternity"@) == (9nat, 'M'));
    assert(text_marks("Other"@) == (5nat, 'O'));
    assert(text_marks("Dismissal"@) == (9nat, 'D'));
    assert(text_marks("A"@) == (1nat, 'A'));
    assert(text_marks("E"@) == (1nat, 'E'));
    assert(text_marks("F"@) == (1nat, 'F'));
    assert(text_marks("M"@) == (1nat, 'M'));
}

} // verus!
