//! Portfolio settings that the tax computations read.
use vstd::prelude::*;

use crate::date::Date;
use crate::decimal::Decimal;

verus! {

/// How a portfolio's foreign-currency balances are taxed under German law.
#[derive(Debug, Clone, Copy, PartialEq, Eq, Structural)]
pub enum ForeignCurrencyTaxation {
    /// Interest-bearing cash (e.g. Interactive Brokers pays interest): currency gains are §20 EStG
    /// capital income (Abgeltungsteuer). The default, right for the common broker case.
    InterestBearing,
    /// Non-interest-bearing currency held as an asset: currency gains are §23 EStG private
    /// Veräußerungsgeschäfte (one-year Spekulationsfrist, Anlage SO, personal income rate).
    NonInterestBearing,
}

impl Default for ForeignCurrencyTaxation {
    fn default() -> (r: ForeignCurrencyTaxation)
        ensures
            r == ForeignCurrencyTaxation::InterestBearing,
    {
        ForeignCurrencyTaxation::InterestBearing
    }
}

/// A foreign-currency balance carried into the earliest statement, declared because the broker
/// export does not reach back to account opening. It seeds the FX FIFO; the statement's balance
/// chain still validates the declared quantity, so only the acquisition rate is taken on trust.
#[derive(Debug, Clone)]
pub struct OpeningForeignCurrency {
    /// Signed balance at the start of the earliest statement: positive = held, negative = borrowed.
    pub quantity: Decimal,
    /// EUR value of one unit of the currency at acquisition.
    pub eur_per_unit: Decimal,
    /// Acquisition date (drives the §23 holding period).
    pub as_of: Date,
}

} // verus!
