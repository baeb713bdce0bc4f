//! Payroll records: earnings, deductions and their totals.
use vstd::prelude::*;
use crate::text::{
    all_ascii, ascii_lowercase, ascii_uppercase, lemma_plain_text_case, lemma_plain_text_separator,
    lemma_replace_absent, plain_text, replace_char, replace_char_spec, str_eq, text_lowercase, to_lowercase,
    int_text, nat_text, digit_char,
};

verus! {

/// Kinds of additional earnings.
#[derive(Debug, Clone, Copy, PartialEq, Eq, Hash, Structural)]
pub enum EarningType {
    Allowance,
    Benefit,
    Bonus,
    Commission,
    Other,
    Vacation,
}

pub open spec fn earning_type_text(v: EarningType) -> Seq<char> {
    match v {
        EarningType::Allowance => "allowance"@,
        EarningType::Benefit => "benefit"@,
        EarningType::Bonus => "bonus"@,
        EarningType::Commission => "commission"@,
        EarningType::Other => "other"@,
        EarningType::Vacation => "vacation"@,
    }
}

/// The variant whose stored text is exactly `s`.
pub open spec fn earning_type_of_text(s: Seq<char>) -> Option<EarningType> {
    if s == "allowance"@ {
        Some(EarningType::Allowance)
    } else if s == "benefit"@ {
        Some(EarningType::Benefit)
    } else if s == "bonus"@ {
        Some(EarningType::Bonus)
    } else if s == "commission"@ {
        Some(EarningType::Commission)
    } else if s == "other"@ {
        Some(EarningType::Other)
    } else if s == "vacation"@ {
        Some(EarningType::Vacation)
    } else {
        None
    }
}

pub fn earning_type_of_exact_text(s: &str) -> (r: Option<EarningType>)
    ensures
        r == earning_type_of_text(s@),
{
    if str_eq(s, "allowance") {
        Some(EarningType::Allowance)
    } else if str_eq(s, "benefit") {
        Some(EarningType::Benefit)
    } else if str_eq(s, "bonus") {
        Some(EarningType::Bonus)
    } else if str_eq(s, "commission") {
        Some(EarningType::Commission)
    } else if str_eq(s, "other") {
        Some(EarningType::Other)
    } else if str_eq(s, "vacation") {
        Some(EarningType::Vacation)
    } else {
        None
    }
}

impl EarningType {
    pub fn as_str(&self) -> (r: &'static str)
        ensures
            r@ == earning_type_text(*self),
    {
        match self {
            EarningType::Allowance => "allowance",
            EarningType::Benefit => "benefit",
            EarningType::Bonus => "bonus",
            EarningType::Commission => "commission",
            EarningType::Other => "other",
            EarningType::Vacation => "vacation",
        }
    }

    pub fn from_str(s: &str) -> (r: Option<EarningType>)
        ensures
            r == earning_type_of_text(replace_char_spec(text_lowercase(s@), ' ', "_"@)),
            all_ascii(s@) ==> r == earning_type_of_ascii(s@),
    {
        let lower = to_lowercase(s);
        let cleaned = replace_char(lower.as_str(), ' ', "_");
        earning_type_of_exact_text(cleaned.as_str())
    }
}

/// Kinds of additional deductions.
#[derive(Debug, Clone, Copy, PartialEq, Eq, Hash, Structural)]
pub enum DeductionType {
    GroupInsurance,
    PensionRrsp,
    UnionDues,
    NetPayAdjust,
    AddonTax,
}

pub open spec fn deduction_type_text(v: DeductionType) -> Seq<char> {
    match v {
        DeductionType::GroupInsurance => "group_insurance"@,
        DeductionType::PensionRrsp => "pension_rrsp"@,
        DeductionType::UnionDues => "union_dues"@,
        DeductionType::NetPayAdjust => "net_pay_adjust"@,
        DeductionType::AddonTax => "addon_tax"@,
    }
}

/// The variant whose stored text is exactly `s`.
pub open spec fn deduction_type_of_text(s: Seq<char>) -> Option<DeductionType> {
    if s == "group_insurance"@ {
        Some(DeductionType::GroupInsurance)
    } else if s == "pension_rrsp"@ {
        Some(DeductionType::PensionRrsp)
    } else if s == "rpp"@ {
        Some(DeductionType::PensionRrsp)
    } else if s == "union_dues"@ {
        Some(DeductionType::UnionDues)
    } else if s == "net_pay_adjust"@ {
        Some(DeductionType::NetPayAdjust)
    } else if s == "addon_tax"@ {
        Some(DeductionType::AddonTax)
    } else if s == "additional_tax"@ {
        Some(DeductionType::AddonTax)
    } else {
        None
    }
}

pub fn deduction_type_of_exact_text(s: &str) -> (r: Option<DeductionType>)
    ensures
        r == deduction_type_of_text(s@),
{
    if str_eq(s, "group_insurance") {
        Some(DeductionType::GroupInsurance)
    } else if str_eq(s, "pension_rrsp") {
        Some(DeductionType::PensionRrsp)
    } else if str_eq(s, "rpp") {
        Some(DeductionType::PensionRrsp)
    } else if str_eq(s, "union_dues") {
        Some(DeductionType::UnionDues)
    } else if str_eq(s, "net_pay_adjust") {
        Some(DeductionType::NetPayAdjust)
    } else if str_eq(s, "addon_tax") {
        Some(DeductionType::AddonTax)
    } else if str_eq(s, "additional_tax") {
        Some(DeductionType::AddonTax)
    } else {
        None
    }
}

impl DeductionType {
    pub fn as_str(&self) -> (r: &'static str)
        ensures
            r@ == deduction_type_text(*self),
    {
        match self {
            DeductionType::GroupInsurance => "group_insurance",
            DeductionType::PensionRrsp => "pension_rrsp",
            DeductionType::UnionDues => "union_dues",
            DeductionType::NetPayAdjust => "net_pay_adjust",
            DeductionType::AddonTax => "addon_tax",
        }
    }

    pub fn from_str(s: &str) -> (r: Option<DeductionType>)
        ensures
            r == deduction_type_of_text(replace_char_spec(text_lowercase(s@), ' ', "_"@)),
            all_ascii(s@) ==> r == deduction_type_of_ascii(s@),
    {
        let lower = to_lowercase(s);
        let cleaned = replace_char(lower.as_str(), ' ', "_");
        deduction_type_of_exact_text(cleaned.as_str())
    }
}

/// Boxes of the T4 slip.
#[derive(Debug, Clone, Copy, PartialEq, Eq, Hash, Structural)]
pub enum T4BoxType {
    Box14,
    Box16,
    Box16A,
    Box18,
    Box20,
    Box22,
    Box24,
    Box26,
    Box45,
    Box52,
}

pub open spec fn t4_box_type_text(v: T4BoxType) -> Seq<char> {
    match v {
        T4BoxType::Box14 => "box_14"@,
        T4BoxType::Box16 => "box_16"@,
        T4BoxType::Box16A => "box_16a"@,
        T4BoxType::Box18 => "box_18"@,
        T4BoxType::Box20 => "box_20"@,
        T4BoxType::Box22 => "box_22"@,
        T4BoxType::Box24 => "box_24"@,
        T4BoxType::Box26 => "box_26"@,
        T4BoxType::Box45 => "box_45"@,
        T4BoxType::Box52 => "box_52"@,
    }
}

/// The variant whose stored text is exactly `s`.
pub open spec fn t4_box_type_of_text(s: Seq<char>) -> Option<T4BoxType> {
    if s == "box_14"@ {
        Some(T4BoxType::Box14)
    } else if s == "box14"@ {
        Some(T4BoxType::Box14)
    } else if s == "box_16"@ {
        Some(T4BoxType::Box16)
    } else if s == "box16"@ {
        Some(T4BoxType::Box16)
    } else if s == "box_16a"@ {
        Some(T4BoxType::Box16A)
    } else if s == "box16a"@ {
        Some(T4BoxType::Box16A)
    } else if s == "box_18"@ {
        Some(T4BoxType::Box18)
    } else if s == "box18"@ {
        Some(T4BoxType::Box18)
    } else if s == "box_20"@ {
        Some(T4BoxType::Box20)
    } else if s == "box20"@ {
        Some(T4BoxType::Box20)
    } else if s == "box_22"@ {
        Some(T4BoxType::Box22)
    } else if s == "box22"@ {
        Some(T4BoxType::Box22)
    } else if s == "box_24"@ {
        Some(T4BoxType::Box24)
    } else if s == "box24"@ {
        Some(T4BoxType::Box24)
    } else if s == "box_26"@ {
        Some(T4BoxType::Box26)
    } else if s == "box26"@ {
        Some(T4BoxType::Box26)
    } else if s == "box_45"@ {
        Some(T4BoxType::Box45)
    } else if s == "box45"@ {
        Some(T4BoxType::Box45)
    } else if s == "box_52"@ {
        Some(T4BoxType::Box52)
    } else if s == "box52"@ {
        Some(T4BoxType::Box52)
    } else {
        None
    }
}

pub fn t4_box_type_of_exact_text(s: &str) -> (r: Option<T4BoxType>)
    ensures
        r == t4_box_type_of_text(s@),
{
    if str_eq(s, "box_14") {
        Some(T4BoxType::Box14)
    } else if str_eq(s, "box14") {
        Some(T4BoxType::Box14)
    } else if str_eq(s, "box_16") {
        Some(T4BoxType::Box16)
    } else if str_eq(s, "box16") {
        Some(T4BoxType::Box16)
    } else if str_eq(s, "box_16a") {
        Some(T4BoxType::Box16A)
    } else if str_eq(s, "box16a") {
        Some(T4BoxType::Box16A)
    } else if str_eq(s, "box_18") {
        Some(T4BoxType::Box18)
    } else if str_eq(s, "box18") {
        Some(T4BoxType::Box18)
    } else if str_eq(s, "box_20") {
        Some(T4BoxType::Box20)
    } else if str_eq(s, "box20") {
        Some(T4BoxType::Box20)
    } else if str_eq(s, "box_22") {
        Some(T4BoxType::Box22)
    } else if str_eq(s, "box22") {
        Some(T4BoxType::Box22)
    } else if str_eq(s, "box_24") {
        Some(T4BoxType::Box24)
    } else if str_eq(s, "box24") {
        Some(T4BoxType::Box24)
    } else if str_eq(s, "box_26") {
        Some(T4BoxType::Box26)
    } else if str_eq(s, "box26") {
        Some(T4BoxType::Box26)
    } else if str_eq(s, "box_45") {
        Some(T4BoxType::Box45)
    } else if str_eq(s, "box45") {
        Some(T4BoxType::Box45)
    } else if str_eq(s, "box_52") {
        Some(T4BoxType::Box52)
    } else if str_eq(s, "box52") {
        Some(T4BoxType::Box52)
    } else {
        None
    }
}

impl T4BoxType {
    pub fn as_str(&self) -> (r: &'static str)
        ensures
            r@ == t4_box_type_text(*self),
    {
        match self {
            T4BoxType::Box14 => "box_14",
            T4BoxType::Box16 => "box_16",
            T4BoxType::Box16A => "box_16a",
            T4BoxType::Box18 => "box_18",
            T4BoxType::Box20 => "box_20",
            T4BoxType::Box22 => "box_22",
            T4BoxType::Box24 => "box_24",
            T4BoxType::Box26 => "box_26",
            T4BoxType::Box45 => "box_45",
            T4BoxType::Box52 => "box_52",
        }
    }

    pub fn from_str(s: &str) -> (r: Option<T4BoxType>)
        ensures
            r == t4_box_type_of_text(replace_char_spec(text_lowercase(s@), '-', "_"@)),
            all_ascii(s@) ==> r == t4_box_type_of_ascii(s@),
    {
        let lower = to_lowercase(s);
        let cleaned = replace_char(lower.as_str(), '-', "_");
        t4_box_type_of_exact_text(cleaned.as_str())
    }
}

pub open spec fn texts_of(v: Seq<&str>) -> Seq<Seq<char>> {
    v.map_values(|s: &str| s@)
}

pub open spec fn earning_display(e: EarningType) -> Seq<char> {
    match e {
        EarningType::Allowance => "Allowance"@,
        EarningType::Benefit => "Benefit"@,
        EarningType::Bonus => "Bonus"@,
        EarningType::Commission => "Commission"@,
        EarningType::Other => "Other"@,
        EarningType::Vacation => "Vacation"@,
    }
}

/// Periodic earnings (T4127 `I`): allowance, benefit, vacation.
pub open spec fn earning_is_periodic(e: EarningType) -> bool {
    match e {
        EarningType::Allowance => true,
        EarningType::Benefit => true,
        EarningType::Bonus => false,
        EarningType::Commission => false,
        EarningType::Other => false,
        EarningType::Vacation => true,
    }
}

impl EarningType {
    pub fn display_name(&self) -> (r: &'static str)
        ensures
            r@ == earning_display(*self),
    {
        match self {
            EarningType::Allowance => "Allowance",
            EarningType::Benefit => "Benefit",
            EarningType::Bonus => "Bonus",
            EarningType::Commission => "Commission",
            EarningType::Other => "Other",
            EarningType::Vacation => "Vacation",
        }
    }

    pub fn is_periodic(&self) -> (r: bool)
        ensures
            r == earning_is_periodic(*self),
    {
        match self {
            EarningType::Allowance => true,
            EarningType::Benefit => true,
            EarningType::Bonus => false,
            EarningType::Commission => false,
            EarningType::Other => false,
            EarningType::Vacation => true,
        }
    }

    pub fn all_names() -> (r: Vec<&'static str>)
        ensures
            texts_of(r@) == earning_type_names(),
    {
        let mut v = Vec::new();
        v.push("allowance");
        v.push("benefit");
        v.push("bonus");
        v.push("commission");
        v.push("other");
        v.push("vacation");
        assert(texts_of(v@) =~= seq!["allowance"@, "benefit"@, "bonus"@, "commission"@, "other"@, "vacation"@]);
        v
    }
}

/// The T4127 variable a deduction maps to: `F`, `U1` or `L`.
pub open spec fn deduction_variable(d: DeductionType) -> Option<Seq<char>> {
    match d {
        DeductionType::PensionRrsp => Some("F"@),
        DeductionType::UnionDues => Some("U1"@),
        DeductionType::AddonTax => Some("L"@),
        _ => None,
    }
}

pub open spec fn deduction_display(d: DeductionType) -> Seq<char> {
    match d {
        DeductionType::GroupInsurance => "Group Insurance"@,
        DeductionType::PensionRrsp => "Pension/RRSP"@,
        DeductionType::UnionDues => "Union Dues"@,
        DeductionType::NetPayAdjust => "Net Pay Adjustment"@,
        DeductionType::AddonTax => "Additional Tax"@,
    }
}

impl DeductionType {
    pub fn t4127_variable(&self) -> (r: Option<&'static str>)
        ensures
            r is Some <==> deduction_variable(*self) is Some,
            r is Some ==> r->0@ == deduction_variable(*self)->0,
    {
        match self {
            DeductionType::PensionRrsp => Some("F"),
            DeductionType::UnionDues => Some("U1"),
            DeductionType::AddonTax => Some("L"),
            _ => None,
        }
    }

    pub fn display_name(&self) -> (r: &'static str)
        ensures
            r@ == deduction_display(*self),
    {
        match self {
            DeductionType::GroupInsurance => "Group Insurance",
            DeductionType::PensionRrsp => "Pension/RRSP",
            DeductionType::UnionDues => "Union Dues",
            DeductionType::NetPayAdjust => "Net Pay Adjustment",
            DeductionType::AddonTax => "Additional Tax",
        }
    }

    pub fn all_names() -> (r: Vec<&'static str>)
        ensures
            texts_of(r@) == deduction_type_names(),
    {
        let mut v = Vec::new();
        v.push("group_insurance");
        v.push("pension_rrsp");
        v.push("union_dues");
        v.push("net_pay_adjust");
        v.push("addon_tax");
        assert(texts_of(v@) =~= seq!["group_insurance"@, "pension_rrsp"@, "union_dues"@, "net_pay_adjust"@, "addon_tax"@]);
        v
    }
}

pub open spec fn box_number_of(b: T4BoxType) -> i32 {
    match b {
        T4BoxType::Box14 => 14,
        T4BoxType::Box16 => 16,
        T4BoxType::Box16A => 16,
        T4BoxType::Box18 => 18,
        T4BoxType::Box20 => 20,
        T4BoxType::Box22 => 22,
        T4BoxType::Box24 => 24,
        T4BoxType::Box26 => 26,
        T4BoxType::Box45 => 45,
        T4BoxType::Box52 => 52,
    }
}

pub open spec fn box_display(b: T4BoxType) -> Seq<char> {
    match b {
        T4BoxType::Box14 => "Employment income"@,
        T4BoxType::Box16 => "CPP contributions"@,
        T4BoxType::Box16A => "CPP2 contributions"@,
        T4BoxType::Box18 => "EI premiums"@,
        T4BoxType::Box20 => "RPP contributions"@,
        T4BoxType::Box22 => "Income tax deducted"@,
        T4BoxType::Box24 => "EI insurable earnings"@,
        T4BoxType::Box26 => "CPP pensionable earnings"@,
        T4BoxType::Box45 => "Dental benefit"@,
        T4BoxType::Box52 => "Pension adjustment"@,
    }
}

pub open spec fn box_of_number(n: i32) -> Option<T4BoxType> {
    if n == 14 {
        Some(T4BoxType::Box14)
    } else if n == 16 {
        Some(T4BoxType::Box16)
    } else if n == 18 {
        Some(T4BoxType::Box18)
    } else if n == 20 {
        Some(T4BoxType::Box20)
    } else if n == 22 {
        Some(T4BoxType::Box22)
    } else if n == 24 {
        Some(T4BoxType::Box24)
    } else if n == 26 {
        Some(T4BoxType::Box26)
    } else if n == 45 {
        Some(T4BoxType::Box45)
    } else if n == 52 {
        Some(T4BoxType::Box52)
    } else {
        None
    }
}

impl T4BoxType {
    pub fn box_number(&self) -> (r: i32)
        ensures
            r == box_number_of(*self),
    {
        match self {
            T4BoxType::Box14 => 14,
            T4BoxType::Box16 => 16,
            T4BoxType::Box16A => 16,
            T4BoxType::Box18 => 18,
            T4BoxType::Box20 => 20,
            T4BoxType::Box22 => 22,
            T4BoxType::Box24 => 24,
            T4BoxType::Box26 => 26,
            T4BoxType::Box45 => 45,
            T4BoxType::Box52 => 52,
        }
    }

    pub fn display_name(&self) -> (r: &'static str)
        ensures
            r@ == box_display(*self),
    {
        match self {
            T4BoxType::Box14 => "Employment income",
            T4BoxType::Box16 => "CPP contributions",
            T4BoxType::Box16A => "CPP2 contributions",
            T4BoxType::Box18 => "EI premiums",
            T4BoxType::Box20 => "RPP contributions",
            T4BoxType::Box22 => "Income tax deducted",
            T4BoxType::Box24 => "EI insurable earnings",
            T4BoxType::Box26 => "CPP pensionable earnings",
            T4BoxType::Box45 => "Dental benefit",
            T4BoxType::Box52 => "Pension adjustment",
        }
    }

    pub fn from_box_number(num: i32) -> (r: Option<T4BoxType>)
        ensures
            r == box_of_number(num),
    {
        if num == 14 {
            Some(T4BoxType::Box14)
        } else if num == 16 {
            Some(T4BoxType::Box16)
        } else if num == 18 {
            Some(T4BoxType::Box18)
        } else if num == 20 {
            Some(T4BoxType::Box20)
        } else if num == 22 {
            Some(T4BoxType::Box22)
        } else if num == 24 {
            Some(T4BoxType::Box24)
        } else if num == 26 {
            Some(T4BoxType::Box26)
        } else if num == 45 {
            Some(T4BoxType::Box45)
        } else if num == 52 {
            Some(T4BoxType::Box52)
        } else {
            None
        }
    }

    pub fn all_names() -> (r: Vec<&'static str>)
        ensures
            texts_of(r@) == t4_box_type_names(),
    {
        let mut v = Vec::new();
        v.push("box_14");
        v.push("box_16");
        v.push("box_16a");
        v.push("box_18");
        v.push("box_20");
        v.push("box_22");
        v.push("box_24");
        v.push("box_26");
        v.push("box_45");
        v.push("box_52");
        assert(texts_of(v@) =~= seq!["box_14"@, "box_16"@, "box_16a"@, "box_18"@, "box_20"@, "box_22"@, "box_24"@, "box_26"@, "box_45"@, "box_52"@]);
        v
    }
}

/// What `EarningType::from_str` gives for an ASCII text: the kind whose
/// stored text is the input in lower case with each space written as `_`.
pub open spec fn earning_type_of_ascii(s: Seq<char>) -> Option<EarningType> {
    earning_type_of_text(replace_char_spec(ascii_lowercase(s), ' ', "_"@))
}

/// The kinds of earning in declaration order.
pub open spec fn earning_types() -> Seq<EarningType> {
    seq![
        EarningType::Allowance,
        EarningType::Benefit,
        EarningType::Bonus,
        EarningType::Commission,
        EarningType::Other,
        EarningType::Vacation,
    ]
}

/// The names `EarningType::all_names` lists.
pub open spec fn earning_type_names() -> Seq<Seq<char>> {
    seq!["allowance"@, "benefit"@, "bonus"@, "commission"@, "other"@, "vacation"@]
}

/// Length, first and last character: enough to tell the stored texts apart.
spec fn text_marks(s: Seq<char>) -> (nat, char, char) {
    (s.len(), s[0], s[s.len() - 1])
}

proof fn lemma_earning_type_texts()
    ensures
        text_marks("allowance"@) == (9nat, 'a', 'e'),
        text_marks("benefit"@) == (7nat, 'b', 't'),
        text_marks("bonus"@) == (5nat, 'b', 's'),
        text_marks("commission"@) == (10nat, 'c', 'n'),
        text_marks("other"@) == (5nat, 'o', 'r'),
        text_marks("vacation"@) == (8nat, 'v', 'n'),
        forall|e: EarningType| #[trigger] plain_text(earning_type_text(e)),
        forall|e: EarningType|
            all_ascii(#[trigger] earning_display(e)) && ascii_lowercase(earning_display(e))
                == earning_type_text(e),
{
    reveal_strlit("allowance");
    reveal_strlit("benefit");
    reveal_strlit("bonus");
    reveal_strlit("commission");
    reveal_strlit("other");
    reveal_strlit("vacation");
    reveal_strlit("Allowance");
    reveal_strlit("Benefit");
    reveal_strlit("Bonus");
    reveal_strlit("Commission");
    reveal_strlit("Other");
    reveal_strlit("Vacation");
    assert forall|e: EarningType| #[trigger] plain_text(earning_type_text(e)) && all_ascii(earning_display(e))
        && ascii_lowercase(earning_display(e)) == earning_type_text(e) by {
        assert(ascii_lowercase(earning_display(e)) =~= earning_type_text(e));
    }
}

/// `EarningType::from_str` reads an ASCII text as a kind of earning exactly
/// when the text, in lower case and with each space written as `_`, is that
/// kind's stored text. So each kind's stored text, that text in upper case
/// and the kind's display name all read back as that kind, and any other
/// text reads as no kind.
pub proof fn law_earning_type_text_forms(e: EarningType, t: Seq<char>)
    ensures
        earning_type_of_text(t) == Some(e) <==> t == earning_type_text(e),
        all_ascii(earning_type_text(e)),
        earning_type_of_ascii(earning_type_text(e)) == Some(e),
        all_ascii(ascii_uppercase(earning_type_text(e))),
        earning_type_of_ascii(ascii_uppercase(earning_type_text(e))) == Some(e),
        all_ascii(earning_display(e)),
        earning_type_of_ascii(earning_display(e)) == Some(e),
{
    lemma_earning_type_texts();
    let x = earning_type_text(e);
    assert(earning_type_of_text(x) == Some(e));
    lemma_plain_text_case(x);
    lemma_replace_absent(x, ' ', "_"@);
}

/// `EarningType::all_names` lists the stored text of each kind of earning
/// in declaration order, each kind once, and each name reads back as its
/// kind.
pub proof fn law_earning_type_all_names()
    ensures
        earning_type_names() == earning_types().map_values(|e: EarningType| earning_type_text(e)),
        earning_type_names().no_duplicates(),
        forall|e: EarningType| earning_types().contains(e),
        forall|i: int|
            0 <= i < earning_type_names().len() ==> earning_type_of_ascii(
                #[trigger] earning_type_names()[i],
            ) == Some(earning_types()[i]),
{
    lemma_earning_type_texts();
    let names = earning_type_names();
    let kinds = earning_types();
    assert(names =~= kinds.map_values(|e: EarningType| earning_type_text(e)));
    assert forall|i: int| 0 <= i < names.len() implies earning_type_of_ascii(#[trigger] names[i])
        == Some(kinds[i]) by {
        law_earning_type_text_forms(kinds[i], names[i]);
    }
    assert forall|i: int, j: int| 0 <= i < names.len() && 0 <= j < names.len() && i != j implies names[i]
        != names[j] by {
        law_earning_type_text_forms(kinds[i], names[i]);
        law_earning_type_text_forms(kinds[j], names[j]);
    }
    assert forall|e: EarningType| kinds.contains(e) by {
        match e {
            EarningType::Allowance => assert(kinds[0] == e),
            EarningType::Benefit => assert(kinds[1] == e),
            EarningType::Bonus => assert(kinds[2] == e),
            EarningType::Commission => assert(kinds[3] == e),
            EarningType::Other => assert(kinds[4] == e),
            EarningType::Vacation => assert(kinds[5] == e),
        }
    }
}

/// What `DeductionType::from_str` gives for an ASCII text: the kind whose
/// stored text (or alias) is the input in lower case with each space
/// written as `_`.
pub open spec fn deduction_type_of_ascii(s: Seq<char>) -> Option<DeductionType> {
    deduction_type_of_text(replace_char_spec(ascii_lowercase(s), ' ', "_"@))
}

/// A stored text with each `_` written as a space.
pub open spec fn spaced_text(s: Seq<char>) -> Seq<char> {
    replace_char_spec(s, '_', seq![' '])
}

/// The kinds of deduction in declaration order.
pub open spec fn deduction_types() -> Seq<DeductionType> {
    seq![
        DeductionType::GroupInsurance,
        DeductionType::PensionRrsp,
        DeductionType::UnionDues,
        DeductionType::NetPayAdjust,
        DeductionType::AddonTax,
    ]
}

/// The names `DeductionType::all_names` lists.
pub open spec fn deduction_type_names() -> Seq<Seq<char>> {
    seq!["group_insurance"@, "pension_rrsp"@, "union_dues"@, "net_pay_adjust"@, "addon_tax"@]
}

proof fn lemma_deduction_type_texts()
    ensures
        text_marks("group_insurance"@) == (15nat, 'g', 'e'),
        text_marks("pension_rrsp"@) == (12nat, 'p', 'p'),
        text_marks("rpp"@) == (3nat, 'r', 'p'),
        text_marks("union_dues"@) == (10nat, 'u', 's'),
        text_marks("net_pay_adjust"@) == (14nat, 'n', 't'),
        text_marks("addon_tax"@) == (9nat, 'a', 'x'),
        text_marks("additional_tax"@) == (14nat, 'a', 'x'),
        plain_text("rpp"@),
        plain_text("additional_tax"@),
        forall|d: DeductionType| #[trigger] plain_text(deduction_type_text(d)),
{
    reveal_strlit("group_insurance");
    reveal_strlit("pension_rrsp");
    reveal_strlit("rpp");
    reveal_strlit("union_dues");
    reveal_strlit("net_pay_adjust");
    reveal_strlit("addon_tax");
    reveal_strlit("additional_tax");
    assert forall|d: DeductionType| #[trigger] plain_text(deduction_type_text(d)) by {}
}

/// `DeductionType::from_str` reads an ASCII text as a kind of deduction
/// exactly when the text, in lower case and with each space written as `_`,
/// is that kind's stored text, or `rpp` for pension/RRSP, or
/// `additional_tax` for additional tax. So each kind's stored text, that
/// text in upper case, and either of them with each `_` written as a space
/// all read back as that kind, and any other text reads as no kind.
pub proof fn law_deduction_type_text_forms(d: DeductionType, t: Seq<char>)
    ensures
        deduction_type_of_text(t) == Some(d) <==> (t == deduction_type_text(d) || (d
            == DeductionType::PensionRrsp && t == "rpp"@) || (d == DeductionType::AddonTax && t
            == "additional_tax"@)),
        all_ascii(deduction_type_text(d)),
        deduction_type_of_ascii(deduction_type_text(d)) == Some(d),
        all_ascii(ascii_uppercase(deduction_type_text(d))),
        deduction_type_of_ascii(ascii_uppercase(deduction_type_text(d))) == Some(d),
        all_ascii(spaced_text(deduction_type_text(d))),
        deduction_type_of_ascii(spaced_text(deduction_type_text(d))) == Some(d),
        all_ascii(ascii_uppercase(spaced_text(deduction_type_text(d)))),
        deduction_type_of_ascii(ascii_uppercase(spaced_text(deduction_type_text(d)))) == Some(d),
{
    lemma_deduction_type_texts();
    let x = deduction_type_text(d);
    assert(deduction_type_of_text(x) == Some(d));
    assert(deduction_type_of_text("rpp"@) == Some(DeductionType::PensionRrsp));
    assert(deduction_type_of_text("additional_tax"@) == Some(DeductionType::AddonTax));
    lemma_plain_text_case(x);
    lemma_replace_absent(x, ' ', "_"@);
    lemma_plain_text_separator(x, ' ');
}

/// `DeductionType::all_names` lists the stored text of each kind of
/// deduction in declaration order, each kind once, and each name reads back
/// as its kind.
pub proof fn law_deduction_type_all_names()
    ensures
        deduction_type_names() == deduction_types().map_values(|d: DeductionType| deduction_type_text(d)),
        deduction_type_names().no_duplicates(),
        forall|d: DeductionType| deduction_types().contains(d),
        forall|i: int|
            0 <= i < deduction_type_names().len() ==> deduction_type_of_ascii(
                #[trigger] deduction_type_names()[i],
            ) == Some(deduction_types()[i]),
{
    lemma_deduction_type_texts();
    let names = deduction_type_names();
    let kinds = deduction_types();
    assert(names =~= kinds.map_values(|d: DeductionType| deduction_type_text(d)));
    assert forall|i: int| 0 <= i < names.len() implies deduction_type_of_ascii(#[trigger] names[i])
        == Some(kinds[i]) by {
        law_deduction_type_text_forms(kinds[i], names[i]);
    }
    assert forall|i: int, j: int| 0 <= i < names.len() && 0 <= j < names.len() && i != j implies names[i]
        != names[j] by {
        law_deduction_type_text_forms(kinds[i], names[i]);
        law_deduction_type_text_forms(kinds[j], names[j]);
    }
    assert forall|d: DeductionType| kinds.contains(d) by {
        match d {
            DeductionType::GroupInsurance => assert(kinds[0] == d),
            DeductionType::PensionRrsp => assert(kinds[1] == d),
            DeductionType::UnionDues => assert(kinds[2] == d),
            DeductionType::NetPayAdjust => assert(kinds[3] == d),
            DeductionType::AddonTax => assert(kinds[4] == d),
        }
    }
}

/// What `T4BoxType::from_str` gives for an ASCII text: the box whose
/// stored text, or that text without its `_`, is the input in lower case
/// with each `-` written as `_`.
pub open spec fn t4_box_type_of_ascii(s: Seq<char>) -> Option<T4BoxType> {
    t4_box_type_of_text(replace_char_spec(ascii_lowercase(s), '-', "_"@))
}

/// A box's stored text without its `_`.
pub open spec fn t4_box_compact_text(b: T4BoxType) -> Seq<char> {
    match b {
        T4BoxType::Box14 => "box14"@,
        T4BoxType::Box16 => "box16"@,
        T4BoxType::Box16A => "box16a"@,
        T4BoxType::Box18 => "box18"@,
        T4BoxType::Box20 => "box20"@,
        T4BoxType::Box22 => "box22"@,
        T4BoxType::Box24 => "box24"@,
        T4BoxType::Box26 => "box26"@,
        T4BoxType::Box45 => "box45"@,
        T4BoxType::Box52 => "box52"@,
    }
}

/// The boxes in declaration order.
pub open spec fn t4_box_types() -> Seq<T4BoxType> {
    seq![
        T4BoxType::Box14,
        T4BoxType::Box16,
        T4BoxType::Box16A,
        T4BoxType::Box18,
        T4BoxType::Box20,
        T4BoxType::Box22,
        T4BoxType::Box24,
        T4BoxType::Box26,
        T4BoxType::Box45,
        T4BoxType::Box52,
    ]
}

/// The names `T4BoxType::all_names` lists.
pub open spec fn t4_box_type_names() -> Seq<Seq<char>> {
    seq![
        "box_14"@,
        "box_16"@,
        "box_16a"@,
        "box_18"@,
        "box_20"@,
        "box_22"@,
        "box_24"@,
        "box_26"@,
        "box_45"@,
        "box_52"@,
    ]
}

/// Length, fourth, fifth and last character: enough to tell the box texts
/// apart.
spec fn box_text_marks(s: Seq<char>) -> (nat, char, char, char) {
    (s.len(), s[3], s[4], s[s.len() - 1])
}

proof fn lemma_t4_box_type_texts()
    ensures
        box_text_marks("box_14"@) == (6nat, '_', '1', '4'),
        box_text_marks("box14"@) == (5nat, '1', '4', '4'),
        box_text_marks("box_16"@) == (6nat, '_', '1', '6'),
        box_text_marks("box16"@) == (5nat, '1', '6', '6'),
        box_text_marks("box_16a"@) == (7nat, '_', '1', 'a'),
        box_text_marks("box16a"@) == (6nat, '1', '6', 'a'),
        box_text_marks("box_18"@) == (6nat, '_', '1', '8'),
        box_text_marks("box18"@) == (5nat, '1', '8', '8'),
        box_text_marks("box_20"@) == (6nat, '_', '2', '0'),
        box_text_marks("box20"@) == (5nat, '2', '0', '0'),
        box_text_marks("box_22"@) == (6nat, '_', '2', '2'),
        box_text_marks("box22"@) == (5nat, '2', '2', '2'),
        box_text_marks("box_24"@) == (6nat, '_', '2', '4'),
        box_text_marks("box24"@) == (5nat, '2', '4', '4'),
        box_text_marks("box_26"@) == (6nat, '_', '2', '6'),
        box_text_marks("box26"@) == (5nat, '2', '6', '6'),
        box_text_marks("box_45"@) == (6nat, '_', '4', '5'),
        box_text_marks("box45"@) == (5nat, '4', '5', '5'),
        box_text_marks("box_52"@) == (6nat, '_', '5', '2'),
        box_text_marks("box52"@) == (5nat, '5', '2', '2'),
        forall|b: T4BoxType|
            #[trigger] plain_text(t4_box_type_text(b)) && plain_text(t4_box_compact_text(b))
                && t4_box_compact_text(b) == t4_box_type_text(b).subrange(0, 3) + t4_box_type_text(
                b,
            ).subrange(4, t4_box_type_text(b).len() as int),
{
    reveal_strlit("box_14");
    reveal_strlit("box14");
    reveal_strlit("box_16");
    reveal_strlit("box16");
    reveal_strlit("box_16a");
    reveal_strlit("box16a");
    reveal_strlit("box_18");
    reveal_strlit("box18");
    reveal_strlit("box_20");
    reveal_strlit("box20");
    reveal_strlit("box_22");
    reveal_strlit("box22");
    reveal_strlit("box_24");
    reveal_strlit("box24");
    reveal_strlit("box_26");
    reveal_strlit("box26");
    reveal_strlit("box_45");
    reveal_strlit("box45");
    reveal_strlit("box_52");
    reveal_strlit("box52");
    assert forall|b: T4BoxType|
        #[trigger] plain_text(t4_box_type_text(b)) && plain_text(t4_box_compact_text(b))
            && t4_box_compact_text(b) == t4_box_type_text(b).subrange(0, 3) + t4_box_type_text(
            b,
        ).subrange(4, t4_box_type_text(b).len() as int) by {
        assert(t4_box_compact_text(b) =~= t4_box_type_text(b).subrange(0, 3) + t4_box_type_text(
            b,
        ).subrange(4, t4_box_type_text(b).len() as int));
    }
}

/// `T4BoxType::from_str` reads an ASCII text as a box exactly when the
/// text, in lower case and with each `-` written as `_`, is the box's stored
/// text or that text without its `_`. So a box's stored text, that text
/// without its `_`, and that text with its `_` written as `-`, each also in
/// upper case, all read back as that box, and any other text reads as no
/// box.
pub proof fn law_t4_box_type_text_forms(b: T4BoxType, t: Seq<char>)
    ensures
        t4_box_type_of_text(t) == Some(b) <==> (t == t4_box_type_text(b) || t
            == t4_box_compact_text(b)),
        t4_box_compact_text(b) == t4_box_type_text(b).subrange(0, 3) + t4_box_type_text(b).subrange(
            4,
            t4_box_type_text(b).len() as int,
        ),
        all_ascii(t4_box_type_text(b)),
        t4_box_type_of_ascii(t4_box_type_text(b)) == Some(b),
        all_ascii(ascii_uppercase(t4_box_type_text(b))),
        t4_box_type_of_ascii(ascii_uppercase(t4_box_type_text(b))) == Some(b),
        all_ascii(t4_box_compact_text(b)),
        t4_box_type_of_ascii(t4_box_compact_text(b)) == Some(b),
        all_ascii(ascii_uppercase(t4_box_compact_text(b))),
        t4_box_type_of_ascii(ascii_uppercase(t4_box_compact_text(b))) == Some(b),
        all_ascii(replace_char_spec(t4_box_type_text(b), '_', seq!['-'])),
        t4_box_type_of_ascii(replace_char_spec(t4_box_type_text(b), '_', seq!['-'])) == Some(b),
        all_ascii(ascii_uppercase(replace_char_spec(t4_box_type_text(b), '_', seq!['-']))),
        t4_box_type_of_ascii(ascii_uppercase(replace_char_spec(t4_box_type_text(b), '_', seq!['-'])))
            == Some(b),
{
    lemma_t4_box_type_texts();
    let x = t4_box_type_text(b);
    let c = t4_box_compact_text(b);
    assert(plain_text(x));
    assert(t4_box_type_of_text(x) == Some(b));
    assert(t4_box_type_of_text(c) == Some(b));
    lemma_plain_text_case(x);
    lemma_plain_text_case(c);
    lemma_replace_absent(x, '-', "_"@);
    lemma_replace_absent(c, '-', "_"@);
    lemma_plain_text_separator(x, '-');
}

/// `T4BoxType::all_names` lists the stored text of each box in declaration
/// order, each box once, and each name reads back as its box.
pub proof fn law_t4_box_type_all_names()
    ensures
        t4_box_type_names() == t4_box_types().map_values(|b: T4BoxType| t4_box_type_text(b)),
        t4_box_type_names().no_duplicates(),
        forall|b: T4BoxType| t4_box_types().contains(b),
        forall|i: int|
            0 <= i < t4_box_type_names().len() ==> t4_box_type_of_ascii(
                #[trigger] t4_box_type_names()[i],
            ) == Some(t4_box_types()[i]),
{
    lemma_t4_box_type_texts();
    let names = t4_box_type_names();
    let kinds = t4_box_types();
    assert(names =~= kinds.map_values(|b: T4BoxType| t4_box_type_text(b)));
    assert forall|i: int| 0 <= i < names.len() implies t4_box_type_of_ascii(#[trigger] names[i])
        == Some(kinds[i]) by {
        law_t4_box_type_text_forms(kinds[i], names[i]);
    }
    assert forall|i: int, j: int| 0 <= i < names.len() && 0 <= j < names.len() && i != j implies names[i]
        != names[j] by {
        law_t4_box_type_text_forms(kinds[i], names[i]);
        law_t4_box_type_text_forms(kinds[j], names[j]);
    }
    assert forall|b: T4BoxType| kinds.contains(b) by {
        match b {
            T4BoxType::Box14 => assert(kinds[0] == b),
            T4BoxType::Box16 => assert(kinds[1] == b),
            T4BoxType::Box16A => assert(kinds[2] == b),
            T4BoxType::Box18 => assert(kinds[3] == b),
            T4BoxType::Box20 => assert(kinds[4] == b),
            T4BoxType::Box22 => assert(kinds[5] == b),
            T4BoxType::Box24 => assert(kinds[6] == b),
            T4BoxType::Box26 => assert(kinds[7] == b),
            T4BoxType::Box45 => assert(kinds[8] == b),
            T4BoxType::Box52 => assert(kinds[9] == b),
        }
    }
}

/// Each box other than 16A is stored as `box_` followed by its number, and
/// its number is read back as that box; box 16A shares number 16 with box
/// 16, is stored as `box_16a`, and its number is read back as box 16. No
/// other two boxes share a number.
pub proof fn law_t4_box_number_text(b: T4BoxType, c: T4BoxType)
    ensures
        b != T4BoxType::Box16A ==> t4_box_type_text(b) == "box_"@ + int_text(box_number_of(b) as int),
        b != T4BoxType::Box16A ==> box_of_number(box_number_of(b)) == Some(b),
        b == T4BoxType::Box16A ==> box_number_of(b) == 16 && t4_box_type_text(b) == "box_"@ + int_text(
            16,
        ) + "a"@,
        b == T4BoxType::Box16A ==> box_of_number(box_number_of(b)) == Some(T4BoxType::Box16),
        box_number_of(b) == box_number_of(c) ==> b == c || ((b == T4BoxType::Box16 || b
            == T4BoxType::Box16A) && (c == T4BoxType::Box16 || c == T4BoxType::Box16A)),
{
    reveal_strlit("box_");
    reveal_strlit("a");
    reveal_strlit("box_14");
    reveal_strlit("box_16");
    reveal_strlit("box_16a");
    reveal_strlit("box_18");
    reveal_strlit("box_20");
    reveal_strlit("box_22");
    reveal_strlit("box_24");
    reveal_strlit("box_26");
    reveal_strlit("box_45");
    reveal_strlit("box_52");
    reveal_with_fuel(nat_text, 2);
    let n = box_number_of(b) as int;
    assert(int_text(n) =~= seq![digit_char(n / 10), digit_char(n % 10)]);
    assert(t4_box_type_text(b) =~= "box_"@ + int_text(n) + (if b == T4BoxType::Box16A {
        "a"@
    } else {
        Seq::empty()
    }));
}

} // verus!
