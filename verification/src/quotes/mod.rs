//! Currency rates from the central banks whose reference rates the tax authorities accept.
pub mod ecb;
