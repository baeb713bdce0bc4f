//! Canadian payroll: tax deductions (CRA T4127), payroll records,
//! vacation accrual, year-end slips and the plain-value conversions that
//! the storage layer relies on.
pub mod decimal;
pub mod text;
pub mod date;
pub mod error;
pub mod models;
pub mod tax;
pub mod db;
pub mod reports;
