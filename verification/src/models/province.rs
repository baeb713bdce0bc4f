//! Provinces and territories of employment.
use vstd::prelude::*;
use crate::text::{all_ascii, ascii_lower, ascii_upper, str_eq, text_uppercase, to_uppercase};

verus! {

/// A Canadian province or territory.
#[derive(Debug, Clone, Copy, PartialEq, Eq, Hash, Structural)]
pub enum Province {
    ON,
    QC,
    BC,
    AB,
    SK,
    MB,
    NS,
    NB,
    PE,
    NL,
    NT,
    YT,
    NU,
}

pub open spec fn all_provinces() -> Seq<Province> {
    seq![
        Province::ON,
        Province::QC,
        Province::BC,
        Province::AB,
        Province::SK,
        Province::MB,
        Province::NS,
        Province::NB,
        Province::PE,
        Province::NL,
        Province::NT,
        Province::YT,
        Province::NU,
    ]
}

pub open spec fn province_name(p: Province) -> Seq<char> {
    match p {
        Province::ON => "Ontario"@,
        Province::QC => "Quebec"@,
        Province::BC => "British Columbia"@,
        Province::AB => "Alberta"@,
        Province::SK => "Saskatchewan"@,
        Province::MB => "Manitoba"@,
        Province::NS => "Nova Scotia"@,
        Province::NB => "New Brunswick"@,
        Province::PE => "Prince Edward Island"@,
        Province::NL => "Newfoundland and Labrador"@,
        Province::NT => "Northwest Territories"@,
        Province::YT => "Yukon"@,
        Province::NU => "Nunavut"@,
    }
}

pub open spec fn province_code(p: Province) -> Seq<char> {
    match p {
        Province::ON => "ON"@,
        Province::QC => "QC"@,
        Province::BC => "BC"@,
        Province::AB => "AB"@,
        Province::SK => "SK"@,
        Province::MB => "MB"@,
        Province::NS => "NS"@,
        Province::NB => "NB"@,
        Province::PE => "PE"@,
        Province::NL => "NL"@,
        Province::NT => "NT"@,
        Province::YT => "YT"@,
        Province::NU => "NU"@,
    }
}

/// The province whose code is exactly `s`.
pub open spec fn province_of_code(s: Seq<char>) -> Option<Province> {
    if s == "ON"@ {
        Some(Province::ON)
    } else if s == "QC"@ {
        Some(Province::QC)
    } else if s == "BC"@ {
        Some(Province::BC)
    } else if s == "AB"@ {
        Some(Province::AB)
    } else if s == "SK"@ {
        Some(Province::SK)
    } else if s == "MB"@ {
        Some(Province::MB)
    } else if s == "NS"@ {
        Some(Province::NS)
    } else if s == "NB"@ {
        Some(Province::NB)
    } else if s == "PE"@ {
        Some(Province::PE)
    } else if s == "NL"@ {
        Some(Province::NL)
    } else if s == "NT"@ {
        Some(Province::NT)
    } else if s == "YT"@ {
        Some(Province::YT)
    } else if s == "NU"@ {
        Some(Province::NU)
    } else {
        None
    }
}

/// The province whose code exactly matches `s` (no case folding).
pub fn province_from_exact_code(s: &str) -> (r: Option<Province>)
    ensures
        r == province_of_code(s@),
{
    if str_eq(s, "ON") {
        Some(Province::ON)
    } else if str_eq(s, "QC") {
        Some(Province::QC)
    } else if str_eq(s, "BC") {
        Some(Province::BC)
    } else if str_eq(s, "AB") {
        Some(Province::AB)
    } else if str_eq(s, "SK") {
        Some(Province::SK)
    } else if str_eq(s, "MB") {
        Some(Province::MB)
    } else if str_eq(s, "NS") {
        Some(Province::NS)
    } else if str_eq(s, "NB") {
        Some(Province::NB)
    } else if str_eq(s, "PE") {
        Some(Province::PE)
    } else if str_eq(s, "NL") {
        Some(Province::NL)
    } else if str_eq(s, "NT") {
        Some(Province::NT)
    } else if str_eq(s, "YT") {
        Some(Province::YT)
    } else if str_eq(s, "NU") {
        Some(Province::NU)
    } else {
        None
    }
}

impl Province {
    pub fn all() -> (r: Vec<Province>)
        ensures
            r@ == all_provinces(),
    {
        let mut v = Vec::new();
        v.push(Province::ON);
        v.push(Province::QC);
        v.push(Province::BC);
        v.push(Province::AB);
        v.push(Province::SK);
        v.push(Province::MB);
        v.push(Province::NS);
        v.push(Province::NB);
        v.push(Province::PE);
        v.push(Province::NL);
        v.push(Province::NT);
        v.push(Province::YT);
        v.push(Province::NU);
        v
    }

    pub fn name(&self) -> (r: &'static str)
        ensures
            r@ == province_name(*self),
    {
        match self {
            Province::ON => "Ontario",
            Province::QC => "Quebec",
            Province::BC => "British Columbia",
            Province::AB => "Alberta",
            Province::SK => "Saskatchewan",
            Province::MB => "Manitoba",
            Province::NS => "Nova Scotia",
            Province::NB => "New Brunswick",
            Province::PE => "Prince Edward Island",
            Province::NL => "Newfoundland and Labrador",
            Province::NT => "Northwest Territories",
            Province::YT => "Yukon",
            Province::NU => "Nunavut",
        }
    }

    pub fn code(&self) -> (r: &'static str)
        ensures
            r@ == province_code(*self),
    {
        match self {
            Province::ON => "ON",
            Province::QC => "QC",
            Province::BC => "BC",
            Province::AB => "AB",
            Province::SK => "SK",
            Province::MB => "MB",
            Province::NS => "NS",
            Province::NB => "NB",
            Province::PE => "PE",
            Province::NL => "NL",
            Province::NT => "NT",
            Province::YT => "YT",
            Province::NU => "NU",
        }
    }

    /// The province whose code is `code`, case-insensitively.
    pub fn from_code(code: &str) -> (r: Option<Province>)
        ensures
            r == province_of_code(text_uppercase(code@)),
            all_ascii(code@) ==> r == province_of_code(code@.map_values(|c: char| ascii_upper(c))),
    {
        let upper = to_uppercase(code);
        province_from_exact_code(upper.as_str())
    }
}

/// The code of each province, letter by letter.
pub proof fn lemma_code_letters()
    ensures
        "ON"@ =~= seq!['O', 'N'],
        "QC"@ =~= seq!['Q', 'C'],
        "BC"@ =~= seq!['B', 'C'],
        "AB"@ =~= seq!['A', 'B'],
        "SK"@ =~= seq!['S', 'K'],
        "MB"@ =~= seq!['M', 'B'],
        "NS"@ =~= seq!['N', 'S'],
        "NB"@ =~= seq!['N', 'B'],
        "PE"@ =~= seq!['P', 'E'],
        "NL"@ =~= seq!['N', 'L'],
        "NT"@ =~= seq!['N', 'T'],
        "YT"@ =~= seq!['Y', 'T'],
        "NU"@ =~= seq!['N', 'U'],
{
    reveal_strlit("ON");
    reveal_strlit("QC");
    reveal_strlit("BC");
    reveal_strlit("AB");
    reveal_strlit("SK");
    reveal_strlit("MB");
    reveal_strlit("NS");
    reveal_strlit("NB");
    reveal_strlit("PE");
    reveal_strlit("NL");
    reveal_strlit("NT");
    reveal_strlit("YT");
    reveal_strlit("NU");
}

/// Each province's code is read back as that province.
pub proof fn lemma_province_of_own_code(p: Province)
    ensures
        province_of_code(province_code(p)) == Some(p),
{
    lemma_code_letters();
    let s = province_code(p);
    assert(s.len() == 2);
    let a = s[0];
    let b = s[1];
    if s == "ON"@ { assert(a == 'O' && b == 'N'); }
    if s == "QC"@ { assert(a == 'Q' && b == 'C'); }
    if s == "BC"@ { assert(a == 'B' && b == 'C'); }
    if s == "AB"@ { assert(a == 'A' && b == 'B'); }
    if s == "SK"@ { assert(a == 'S' && b == 'K'); }
    if s == "MB"@ { assert(a == 'M' && b == 'B'); }
    if s == "NS"@ { assert(a == 'N' && b == 'S'); }
    if s == "NB"@ { assert(a == 'N' && b == 'B'); }
    if s == "PE"@ { assert(a == 'P' && b == 'E'); }
    if s == "NL"@ { assert(a == 'N' && b == 'L'); }
    if s == "NT"@ { assert(a == 'N' && b == 'T'); }
    if s == "YT"@ { assert(a == 'Y' && b == 'T'); }
}

/// Every province's code is read back as that province, whatever the case
/// of its letters.
pub proof fn lemma_province_code_roundtrip(p: Province)
    ensures
        all_ascii(province_code(p)),
        province_of_code(province_code(p).map_values(|c: char| ascii_upper(c))) == Some(p),
        province_of_code(province_code(p).map_values(|c: char| ascii_lower(c)).map_values(
            |c: char| ascii_upper(c),
        )) == Some(p),
{
    lemma_code_letters();
    lemma_province_of_own_code(p);
    let s = province_code(p);
    assert(s.map_values(|c: char| ascii_upper(c)) =~= s);
    assert(s.map_values(|c: char| ascii_lower(c)).map_values(|c: char| ascii_upper(c)) =~= s);
}

/// Different provinces have different codes.
pub proof fn lemma_province_codes_distinct(p: Province, q: Province)
    requires
        p != q,
    ensures
        province_code(p) != province_code(q),
{
    lemma_province_of_own_code(p);
    lemma_province_of_own_code(q);
}

} // verus!
