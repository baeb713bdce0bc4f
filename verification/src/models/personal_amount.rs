//! Personal claim amounts of an employee for a year.
use vstd::prelude::*;
use crate::date::Timestamp;
use crate::decimal::Dec;

verus! {

/// The federal and provincial claim amounts of an employee in a year.
#[derive(Debug, Clone)]
pub struct PersonalAmount {
    pub id: Option<i64>,
    pub employee_id: i64,
    pub province: String,
    pub year: i32,
    pub federal_amount: Dec,
    pub provincial_amount: Dec,
    pub indexed_at: Timestamp,
}

} // verus!
