//! Analyses of a portfolio: what a hypothetical sale would cost in tax.
pub mod sell_simulation;
