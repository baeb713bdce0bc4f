//! Errors of the storage layer.
use vstd::prelude::*;
use crate::db::currency::CurrencyError;
use crate::error::PayrollError;

verus! {

#[verifier::external_type_specification]
#[verifier::external_body]
pub struct ExRusqliteError(rusqlite::Error);

#[verifier::external_type_specification]
#[verifier::external_body]
pub struct ExSerdeJsonError(serde_json::Error);

/// Why a storage operation failed.
#[derive(Debug)]
pub enum DbError {
    Rusqlite(rusqlite::Error),
    NotFound(String),
    Serialization(serde_json::Error),
    InvalidData(String),
    Parse(String),
    Core(PayrollError),
    Currency(CurrencyError),
    Migration(String),
    Password(String),
    PersonalAmountNotFound { employee_id: i64, year: i32, province: String },
    NoPersonalAmountsAvailable { employee_id: i64, province: String },
}

} // verus!
