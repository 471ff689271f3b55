//! The printable German report ("Informativer Steuerbericht"): its labels and its summary
//! sections.
pub mod activity_section;
pub mod bookings_section;
pub mod format;
pub mod fund_section;
pub mod fx_section;
pub mod notes;
pub mod open_lots_section;
pub mod report;
pub mod sales_section;
pub mod securities;
pub mod security_section;
pub mod summary;
pub mod title;
pub mod trades_section;
pub mod withholding_section;

use vstd::prelude::*;

use crate::date::{DateTime, Period};

verus! {

/// Header facts about the report that the statement itself does not carry.
pub struct ReportMeta {
    pub year: i32,
    /// Broker display name (e.g. "Interactive Brokers LLC").
    pub broker_name: String,
    /// Portfolio name from the config, shown as the Depot.
    pub portfolio_name: String,
    pub account_id: Option<String>,
    pub period: Period,
    pub generated_at: DateTime,
}

} // verus!
