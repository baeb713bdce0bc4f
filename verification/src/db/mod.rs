//! The plain-value rules of the storage layer: money and quantities as
//! integers, password hashes, database access, T4 slips and vacation
//! balances.
pub mod currency;
pub mod utils;
pub mod error;
pub mod password;
pub mod t4;
pub mod vacation;
pub mod personal_amount;
pub mod history;
pub mod records;
