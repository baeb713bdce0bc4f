//! The payroll records and their rules.
pub mod province;
pub mod employee;
pub mod payroll;
pub mod vacation;
pub mod payroll_record;
pub mod company;
pub mod personal_amount;
pub mod history;
pub mod registry;
