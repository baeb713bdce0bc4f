//! What the reports compute before they are drawn or written: slip and
//! summary amounts, the CRA XML document and CSV records, and the
//! formatting of amounts, hours and identifiers.
pub mod format;
pub mod roe;
pub mod t4;
pub mod register;
pub mod paystub;
