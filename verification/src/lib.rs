//! Tax computations for an investment portfolio: exact decimals, the foreign-currency FIFO, the
//! German tax statement and its CSV and report formatting.
pub mod decimal;
pub mod date;
pub mod text;
pub mod analysis;
pub mod broker_statement;
pub mod config;
pub mod currency;
pub mod localities;
pub mod quotes;
pub mod tax_statement;
pub mod taxes;
