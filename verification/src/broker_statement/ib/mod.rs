//! Interactive Brokers statements.
pub mod flex_query;
pub mod income;
pub mod records;
pub mod trades;
