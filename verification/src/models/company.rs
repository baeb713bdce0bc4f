//! The employer.
use vstd::prelude::*;
use crate::date::{Timestamp, utc_now};
use crate::error::{ErrorKind, PayrollError};
use crate::models::province::Province;
use crate::text::{
    char_at, char_count, is_ascii_alpha_char, is_ascii_alphabetic, is_ascii_digit, is_digit_char,
    replace_char, replace_char_spec, text_trim, to_owned_string, trim,
};

verus! {

/// The company that runs the payroll.
#[derive(Debug, Clone)]
pub struct Company {
    pub id: Option<i64>,
    pub name: String,
    /// CRA Business Number.
    pub business_number: Option<String>,
    pub address: String,
    pub province: Province,
    pub created_at: Timestamp,
}

/// Every character from `lo` to `hi` is an ASCII digit.
pub open spec fn digits_between(s: Seq<char>, lo: int, hi: int) -> bool {
    forall|i: int| lo <= i < hi ==> is_digit_char(#[trigger] s[i])
}

/// Every character from `lo` to `hi` is an ASCII letter.
pub open spec fn letters_between(s: Seq<char>, lo: int, hi: int) -> bool {
    forall|i: int| lo <= i < hi ==> is_ascii_alpha_char(#[trigger] s[i])
}

/// A business number without spaces and dashes: nine digits, or nine
/// digits, two letters (the program) and four digits (the reference).
pub open spec fn business_number_valid(c: Seq<char>) -> bool {
    if c.len() == 9 {
        digits_between(c, 0, 9)
    } else if c.len() == 15 {
        digits_between(c, 0, 9) && letters_between(c, 9, 11) && digits_between(c, 11, 15)
    } else {
        false
    }
}

/// A business number with its spaces and dashes taken out.
pub open spec fn business_number_cleaned(bn: Seq<char>) -> Seq<char> {
    replace_char_spec(replace_char_spec(bn, ' ', Seq::empty()), '-', Seq::empty())
}

fn all_digits_between(s: &str, lo: usize, hi: usize) -> (r: bool)
    requires
        lo <= hi <= s@.len(),
    ensures
        r == digits_between(s@, lo as int, hi as int),
{
    let mut i = lo;
    while i < hi
        invariant
            lo <= i <= hi,
            hi <= s@.len(),
            digits_between(s@, lo as int, i as int),
        decreases hi - i,
    {
        if !is_ascii_digit(char_at(s, i)) {
            return false;
        }
        i = i + 1;
    }
    true
}

fn all_letters_between(s: &str, lo: usize, hi: usize) -> (r: bool)
    requires
        lo <= hi <= s@.len(),
    ensures
        r == letters_between(s@, lo as int, hi as int),
{
    let mut i = lo;
    while i < hi
        invariant
            lo <= i <= hi,
            hi <= s@.len(),
            letters_between(s@, lo as int, i as int),
        decreases hi - i,
    {
        if !is_ascii_alphabetic(char_at(s, i)) {
            return false;
        }
        i = i + 1;
    }
    true
}

/// Whether a cleaned business number has one of the two accepted forms.
pub fn is_valid_business_number(cleaned: &str) -> (r: bool)
    ensures
        r == business_number_valid(cleaned@),
{
    let n = char_count(cleaned);
    if n == 9 {
        all_digits_between(cleaned, 0, 9)
    } else if n == 15 {
        all_digits_between(cleaned, 0, 9) && all_letters_between(cleaned, 9, 11)
            && all_digits_between(cleaned, 11, 15)
    } else {
        false
    }
}

impl Company {
    /// The company, with id 1 (one company per database), no business
    /// number and an empty address.
    pub fn new(name: String, province: Province) -> (r: Company)
        ensures
            r.id == Some(1i64),
            r.name@ == name@,
            r.business_number is None,
            r.address@.len() == 0,
            r.province == province,
    {
        Company {
            id: Some(1),
            name,
            business_number: None,
            address: String::new(),
            province,
            created_at: utc_now(),
        }
    }

    pub open spec fn issue(self) -> Option<(ErrorKind, Seq<char>)> {
        if text_trim(self.name@).len() == 0 {
            Some((ErrorKind::ValidationError, "Company name cannot be empty"@))
        } else if self.business_number is Some && business_number_cleaned(
            self.business_number->0@,
        ).len() > 0 && !business_number_valid(business_number_cleaned(self.business_number->0@)) {
            Some(
                (
                    ErrorKind::ValidationError,
                    "Business Number must be either 9 digits (e.g., 123456789) or full format (e.g., 123456789RP0001)"@,
                ),
            )
        } else {
            None
        }
    }

    /// A name that is not blank, and a business number (spaces and dashes
    /// ignored) that is empty or of one of the two accepted forms.
    pub fn validate(&self) -> (r: Result<(), PayrollError>)
        ensures
            match self.issue() {
                None => r is Ok,
                Some(x) => r is Err && r->Err_0.is(x.0, x.1),
            },
    {
        let name = trim(self.name.as_str());
        if char_count(name) == 0 {
            return Err(PayrollError::ValidationError(to_owned_string("Company name cannot be empty")));
        }
        if let Some(bn) = &self.business_number {
            let no_spaces = replace_char(bn.as_str(), ' ', "");
            let cleaned = replace_char(no_spaces.as_str(), '-', "");
            proof {
                reveal_strlit("");
                assert(""@ =~= Seq::<char>::empty());
            }
            if char_count(cleaned.as_str()) > 0 && !is_valid_business_number(cleaned.as_str()) {
                return Err(
                    PayrollError::ValidationError(
                        to_owned_string(
                            "Business Number must be either 9 digits (e.g., 123456789) or full format (e.g., 123456789RP0001)",
                        ),
                    ),
                );
            }
        }
        Ok(())
    }
}

} // verus!
