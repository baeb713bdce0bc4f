//! Errors of the payroll rules.
use vstd::prelude::*;
use crate::text::int_text;

verus! {

/// Why a payroll operation was refused; each variant carries its message.
#[derive(Debug)]
pub enum PayrollError {
    InvalidSin(String),
    InvalidTaxConfig(i32),
    InvalidProvince(String),
    InvalidPayAmount(String),
    EmployeeNotFound(i64),
    PayrollNotFound(i64),
    InvalidDateRange(String),
    CalculationError(String),
    ValidationError(String),
}

/// The variants of `PayrollError`, without their payload.
#[derive(Debug, Clone, Copy, PartialEq, Eq, Structural)]
pub enum ErrorKind {
    InvalidSin,
    InvalidTaxConfig,
    InvalidProvince,
    InvalidPayAmount,
    EmployeeNotFound,
    PayrollNotFound,
    InvalidDateRange,
    CalculationError,
    ValidationError,
}

impl PayrollError {
    pub open spec fn kind(self) -> ErrorKind {
        match self {
            PayrollError::InvalidSin(_) => ErrorKind::InvalidSin,
            PayrollError::InvalidTaxConfig(_) => ErrorKind::InvalidTaxConfig,
            PayrollError::InvalidProvince(_) => ErrorKind::InvalidProvince,
            PayrollError::InvalidPayAmount(_) => ErrorKind::InvalidPayAmount,
            PayrollError::EmployeeNotFound(_) => ErrorKind::EmployeeNotFound,
            PayrollError::PayrollNotFound(_) => ErrorKind::PayrollNotFound,
            PayrollError::InvalidDateRange(_) => ErrorKind::InvalidDateRange,
            PayrollError::CalculationError(_) => ErrorKind::CalculationError,
            PayrollError::ValidationError(_) => ErrorKind::ValidationError,
        }
    }

    /// The text that a variant carries (empty for the numeric ones).
    pub open spec fn detail(self) -> Seq<char> {
        match self {
            PayrollError::InvalidSin(m) => m@,
            PayrollError::InvalidProvince(m) => m@,
            PayrollError::InvalidPayAmount(m) => m@,
            PayrollError::InvalidDateRange(m) => m@,
            PayrollError::CalculationError(m) => m@,
            PayrollError::ValidationError(m) => m@,
            _ => Seq::empty(),
        }
    }

    /// The error is of kind `k` and carries text `t`.
    pub open spec fn is(self, k: ErrorKind, t: Seq<char>) -> bool {
        self.kind() == k && self.detail() == t
    }

    /// The text that `message` gives: a fixed prefix per variant, then the payload.
    pub open spec fn message_text(self) -> Seq<char> {
        match self {
            PayrollError::InvalidSin(m) => "Invalid SIN: "@ + m@,
            PayrollError::InvalidTaxConfig(y) => "Invalid tax configuration for year "@ + int_text(
                y as int,
            ),
            PayrollError::InvalidProvince(m) => "Invalid province: "@ + m@,
            PayrollError::InvalidPayAmount(m) => "Invalid pay amount: "@ + m@,
            PayrollError::EmployeeNotFound(id) => "Employee not found: "@ + int_text(id as int),
            PayrollError::PayrollNotFound(id) => "Payroll record not found: "@ + int_text(id as int),
            PayrollError::InvalidDateRange(m) => "Invalid date range: "@ + m@,
            PayrollError::CalculationError(m) => "Calculation error: "@ + m@,
            PayrollError::ValidationError(m) => "Validation error: "@ + m@,
        }
    }

    /// The text of the error: the variant's prefix followed by its payload.
    pub fn message(&self) -> (r: String)
        ensures
            r@ == self.message_text(),
    {
        let mut out = String::new();
        match self {
            PayrollError::InvalidSin(m) => {
                crate::text::push_str(&mut out, "Invalid SIN: ");
                crate::text::push_str(&mut out, m.as_str());
            },
            PayrollError::InvalidTaxConfig(y) => {
                crate::text::push_str(&mut out, "Invalid tax configuration for year ");
                let t = crate::text::i64_text(*y as i64);
                crate::text::push_str(&mut out, t.as_str());
            },
            PayrollError::InvalidProvince(m) => {
                crate::text::push_str(&mut out, "Invalid province: ");
                crate::text::push_str(&mut out, m.as_str());
            },
            PayrollError::InvalidPayAmount(m) => {
                crate::text::push_str(&mut out, "Invalid pay amount: ");
                crate::text::push_str(&mut out, m.as_str());
            },
            PayrollError::EmployeeNotFound(id) => {
                crate::text::push_str(&mut out, "Employee not found: ");
                let t = crate::text::i64_text(*id);
                crate::text::push_str(&mut out, t.as_str());
            },
            PayrollError::PayrollNotFound(id) => {
                crate::text::push_str(&mut out, "Payroll record not found: ");
                let t = crate::text::i64_text(*id);
                crate::text::push_str(&mut out, t.as_str());
            },
            PayrollError::InvalidDateRange(m) => {
                crate::text::push_str(&mut out, "Invalid date range: ");
                crate::text::push_str(&mut out, m.as_str());
            },
            PayrollError::CalculationError(m) => {
                crate::text::push_str(&mut out, "Calculation error: ");
                crate::text::push_str(&mut out, m.as_str());
            },
            PayrollError::ValidationError(m) => {
                crate::text::push_str(&mut out, "Validation error: ");
                crate::text::push_str(&mut out, m.as_str());
            },
        }
        out
    }
}

} // verus!
