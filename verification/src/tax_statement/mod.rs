//! Tax statements: the foreign-currency FIFO, EUR formatting and the German statement.
pub mod eur;
pub mod fx_fifo;
pub mod germany;
pub mod html;
pub mod output_format;
