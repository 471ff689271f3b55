//! Operations of a hand-written statement.
use vstd::prelude::*;

use crate::date::Date;
use crate::decimal::Decimal;

verus! {

pub enum Operation {
    Buy(BuyOperation),
    Sell(SellOperation),
    Dividend(DividendOperation),
}

pub struct BuyOperation {
    pub date: Date,
    pub settle_date: Option<Date>,
    pub symbol: String,
    pub quantity: Decimal,
    pub price: Decimal,
    pub amount: Decimal,
}

pub struct SellOperation {
    pub date: Date,
    pub settle_date: Option<Date>,
    pub symbol: String,
    pub quantity: Decimal,
    pub price: Decimal,
    pub net_amount: Decimal,
    pub tax_withheld: Decimal,
}

pub struct DividendOperation {
    pub date: Date,
    pub symbol: String,
    pub gross_amount: Decimal,
    pub tax_withheld: Decimal,
    pub net_amount: Decimal,
}

} // verus!
