//! The German tax statement.
pub mod csv_formatter;
pub mod fx_fifo;
pub mod html;
pub mod income;
pub mod processor;
pub mod report_details;
pub mod statement;
pub mod trades;

pub use self::csv_formatter::CsvFormatter;
pub use self::statement::{
    CapitalGainEntry, DividendEntry, FxGainEntry, GermanTaxStatement, InterestEntry, Section23,
};
