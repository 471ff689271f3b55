//! An amount of money in a currency.
use vstd::prelude::*;

use crate::decimal::Decimal;

verus! {

#[derive(Debug, Clone)]
pub struct Cash {
    /// ISO 4217 code.
    pub currency: String,
    pub amount: Decimal,
}

impl Cash {
    pub fn new(currency: &str, amount: Decimal) -> (r: Cash)
        ensures
            r.currency@ == currency@,
            r.amount == amount,
    {
        Cash { currency: <String as StringExecFns>::from_str(currency), amount }
    }
}

} // verus!
