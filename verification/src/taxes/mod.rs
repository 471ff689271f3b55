//! Tax rules.
pub mod germany;
pub mod remapping;
