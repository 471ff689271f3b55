//! What broker statements deliver to the tax computations.
pub mod ib;
pub mod interest;
pub mod other;

pub use self::interest::{ForeignCashFlow, IdleCashInterest, InterestKind};
