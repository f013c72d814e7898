//! Best bid and ask quotes from several cryptocurrency exchanges, decoded from
//! each exchange's order-book JSON and gathered into one fixed-shape record.
pub mod aggregate;
pub mod exchanges;
pub mod json;
