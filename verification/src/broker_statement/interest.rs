//! Interest classification and foreign-currency cash movements.
use vstd::prelude::*;

use crate::currency::Cash;
use crate::date::Date;
use crate::decimal::Decimal;

verus! {

/// How the source statement classified an interest accrual, where it says so.
///
/// The sign alone cannot separate interest **paid** on a borrowed balance from a **reversal** of
/// interest previously credited: both arrive as a negative amount.
#[derive(Clone, Copy, Debug, PartialEq, Eq, Structural)]
pub enum InterestKind {
    Received,
    Paid,
}

/// Interest on idle cash, as the statement reports it.
#[derive(Debug)]
pub struct IdleCashInterest {
    pub date: Date,
    /// May be negative.
    pub amount: Cash,
    /// `None` where the statement format carries no such label and only the sign is available.
    pub kind: Option<InterestKind>,
}

impl IdleCashInterest {
    /// Interest whose kind the statement does not say.
    pub fn new(date: Date, amount: Cash) -> (r: IdleCashInterest)
        ensures
            r.date == date,
            r.amount == amount,
            r.kind is None,
    {
        IdleCashInterest { date, amount, kind: None }
    }

    /// Interest labelled received or paid.
    pub fn new_typed(date: Date, amount: Cash, kind: InterestKind) -> (r: IdleCashInterest)
        ensures
            r.date == date,
            r.amount == amount,
            r.kind == Some(kind),
    {
        IdleCashInterest { date, amount, kind: Some(kind) }
    }
}

/// A single foreign-currency cash movement extracted from a broker's statement of funds.
///
/// German Fremdwährungsgewinne (§20 EStG) are computed by replaying these movements through a
/// per-currency signed-inventory FIFO: each inflow acquires currency, each outflow disposes it, and
/// a negative running balance marks a Fremdwährungskredit whose repayment is not taxable.
#[derive(Debug, Clone)]
pub struct ForeignCashFlow {
    pub currency: String,
    pub date: Date,
    pub transaction_id: String,
    pub activity_code: String,
    /// Signed amount in `currency`: positive = inflow, negative = outflow.
    pub amount: Decimal,
    /// Running balance in `currency` after this movement (statement-provided; preserves order).
    pub balance: Decimal,
    /// For a real currency exchange, the signed amount of the paired EUR leg (the actual execution
    /// value). `None` for movements without a EUR counter-leg (buys, dividends, fees), which the FX
    /// FIFO values at the ECB reference rate instead.
    pub eur_execution: Option<Decimal>,
}

} // verus!
