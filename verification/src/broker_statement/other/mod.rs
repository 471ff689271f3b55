//! Statements of brokers without an export: operations written by hand in the configuration, and
//! the checks each of them has to pass before it is taken.
pub mod config;

use vstd::prelude::*;

use crate::broker_statement::ib::trades::{isin_canonical, parse_isin};
use crate::decimal::{abs_int, is_small, limit, small_bound, unit, Decimal};

use self::config::{BuyOperation, DividendOperation, Operation, SellOperation};

verus! {

/// The field of an operation that a check refused.
#[derive(Debug, Clone, Copy, PartialEq, Eq, Structural)]
pub enum OperationField {
    Quantity,
    Price,
    Amount,
    NetAmount,
    TaxWithheld,
    GrossAmount,
}

/// Why an operation was refused.
#[derive(Debug, Clone, Copy, PartialEq, Eq, Structural)]
pub enum OperationError {
    /// The symbol is not an ISIN: these statements identify instruments by ISIN only.
    InvalidIsin,
    /// The field must be greater than zero.
    NotPositive(OperationField),
    /// The field must not be negative.
    Negative(OperationField),
    /// A purchase's amount differs from price times quantity (both rounded to cents).
    UnexpectedAmount,
    /// The gross amount less the tax withheld is not the net amount.
    NetMismatch,
}

/// The refusal of a purchase, if any, in the order the fields are checked.
pub open spec fn buy_check(op: BuyOperation) -> Result<(), OperationError> {
    if isin_canonical(op.symbol@) is None {
        Err(OperationError::InvalidIsin)
    } else if op.quantity.units() <= 0 {
        Err(OperationError::NotPositive(OperationField::Quantity))
    } else if op.price.units() <= 0 {
        Err(OperationError::NotPositive(OperationField::Price))
    } else if op.amount.units() <= 0 {
        Err(OperationError::NotPositive(OperationField::Amount))
    } else if op.amount.spec_round_dp(2).units() != op.price.spec_mul(op.quantity).spec_round_dp(2).units() {
        Err(OperationError::UnexpectedAmount)
    } else {
        Ok(())
    }
}

/// The refusal of a sale, if any: the gross amount is price times quantity rounded to cents.
pub open spec fn sell_check(op: SellOperation) -> Result<(), OperationError> {
    if isin_canonical(op.symbol@) is None {
        Err(OperationError::InvalidIsin)
    } else if op.quantity.units() <= 0 {
        Err(OperationError::NotPositive(OperationField::Quantity))
    } else if op.price.units() <= 0 {
        Err(OperationError::NotPositive(OperationField::Price))
    } else if op.net_amount.units() <= 0 {
        Err(OperationError::NotPositive(OperationField::NetAmount))
    } else if op.tax_withheld.units() < 0 {
        Err(OperationError::Negative(OperationField::TaxWithheld))
    } else if op.price.spec_mul(op.quantity).spec_round_dp(2).spec_sub(op.tax_withheld).units()
        != op.net_amount.units() {
        Err(OperationError::NetMismatch)
    } else {
        Ok(())
    }
}

/// The refusal of a dividend, if any.
pub open spec fn dividend_check(op: DividendOperation) -> Result<(), OperationError> {
    if isin_canonical(op.symbol@) is None {
        Err(OperationError::InvalidIsin)
    } else if op.gross_amount.units() <= 0 {
        Err(OperationError::NotPositive(OperationField::GrossAmount))
    } else if op.tax_withheld.units() < 0 {
        Err(OperationError::Negative(OperationField::TaxWithheld))
    } else if op.net_amount.units() <= 0 {
        Err(OperationError::NotPositive(OperationField::NetAmount))
    } else if op.gross_amount.spec_sub(op.tax_withheld).units() != op.net_amount.units() {
        Err(OperationError::NetMismatch)
    } else {
        Ok(())
    }
}

/// The magnitudes `rust_decimal` can multiply and subtract here without overflow.
pub open spec fn operation_in_range(op: Operation) -> bool {
    match op {
        Operation::Buy(b) => abs_int(b.price.units() * b.quantity.units() / unit()) + 2 * unit() < limit(),
        Operation::Sell(s) => abs_int(s.price.units() * s.quantity.units() / unit()) + abs_int(
            s.tax_withheld.units(),
        ) + 2 * unit() < limit(),
        Operation::Dividend(d) => abs_int(d.gross_amount.units()) + abs_int(d.tax_withheld.units()) < limit(),
    }
}

/// The refusal of an operation, if any.
pub open spec fn operation_check(op: Operation) -> Result<(), OperationError> {
    match op {
        Operation::Buy(b) => buy_check(b),
        Operation::Sell(s) => sell_check(s),
        Operation::Dividend(d) => dividend_check(d),
    }
}

/// Check a purchase: an ISIN symbol, positive quantity, price and amount, and an amount that is
/// price times quantity once both are rounded to cents.
pub fn check_buy(op: &BuyOperation) -> (r: Result<(), OperationError>)
    requires
        operation_in_range(Operation::Buy(*op)),
    ensures
        r == buy_check(*op),
{
    if parse_isin(op.symbol.as_str()).is_none() {
        return Err(OperationError::InvalidIsin);
    }
    let zero = Decimal::zero();
    if !zero.lt(&op.quantity) {
        return Err(OperationError::NotPositive(OperationField::Quantity));
    }
    if !zero.lt(&op.price) {
        return Err(OperationError::NotPositive(OperationField::Price));
    }
    if !zero.lt(&op.amount) {
        return Err(OperationError::NotPositive(OperationField::Amount));
    }
    let expected = op.price.mul(&op.quantity);
    if !op.amount.round_dp(2).eq_value(&expected.round_dp(2)) {
        return Err(OperationError::UnexpectedAmount);
    }
    Ok(())
}

/// Check a sale: an ISIN symbol, positive quantity, price and net amount, a tax withheld that is
/// not negative, and price times quantity, rounded to cents, less the tax equal to the net amount.
pub fn check_sell(op: &SellOperation) -> (r: Result<(), OperationError>)
    requires
        operation_in_range(Operation::Sell(*op)),
    ensures
        r == sell_check(*op),
{
    if parse_isin(op.symbol.as_str()).is_none() {
        return Err(OperationError::InvalidIsin);
    }
    let zero = Decimal::zero();
    if !zero.lt(&op.quantity) {
        return Err(OperationError::NotPositive(OperationField::Quantity));
    }
    if !zero.lt(&op.price) {
        return Err(OperationError::NotPositive(OperationField::Price));
    }
    if !zero.lt(&op.net_amount) {
        return Err(OperationError::NotPositive(OperationField::NetAmount));
    }
    if op.tax_withheld.lt(&zero) {
        return Err(OperationError::Negative(OperationField::TaxWithheld));
    }
    let product = op.price.mul(&op.quantity);
    let amount = product.round_dp(2);
    let scale = product.scale();
    proof {
        assert(scale <= 28);
        product.lemma_round_two_places_bound();
    }
    if !amount.sub(&op.tax_withheld).eq_value(&op.net_amount) {
        return Err(OperationError::NetMismatch);
    }
    Ok(())
}

/// Check a dividend: an ISIN symbol, a positive gross and net amount, a tax withheld that is not
/// negative, and the gross amount less the tax equal to the net amount. Where the amounts have at
/// most ten fractional digits and stay within 10^18, the difference is exact.
pub fn check_dividend(op: &DividendOperation) -> (r: Result<(), OperationError>)
    requires
        operation_in_range(Operation::Dividend(*op)),
    ensures
        r == dividend_check(*op),
        is_small(op.gross_amount) && is_small(op.tax_withheld) && -small_bound() <= op.gross_amount.units()
            - op.tax_withheld.units() <= small_bound() ==> (r == Err::<(), OperationError>(OperationError::NetMismatch)
            <==> (isin_canonical(op.symbol@) is Some && op.gross_amount.units() > 0 && op.tax_withheld.units() >= 0
            && op.net_amount.units() > 0 && op.gross_amount.units() - op.tax_withheld.units()
            != op.net_amount.units())),
{
    if parse_isin(op.symbol.as_str()).is_none() {
        return Err(OperationError::InvalidIsin);
    }
    let zero = Decimal::zero();
    if !zero.lt(&op.gross_amount) {
        return Err(OperationError::NotPositive(OperationField::GrossAmount));
    }
    if op.tax_withheld.lt(&zero) {
        return Err(OperationError::Negative(OperationField::TaxWithheld));
    }
    if !zero.lt(&op.net_amount) {
        return Err(OperationError::NotPositive(OperationField::NetAmount));
    }
    if !op.gross_amount.sub(&op.tax_withheld).eq_value(&op.net_amount) {
        return Err(OperationError::NetMismatch);
    }
    Ok(())
}

/// Check each operation of a hand-written statement in turn, as the statement parser does before
/// it takes them: the position and refusal of the first one refused.
pub fn check_operations(operations: &[Operation]) -> (r: Result<(), (usize, OperationError)>)
    requires
        forall|i: int| 0 <= i < operations@.len() ==> operation_in_range(#[trigger] operations@[i]),
    ensures
        r is Ok <==> forall|i: int| 0 <= i < operations@.len() ==> #[trigger] operation_check(operations@[i]) is Ok,
        r matches Err((i, e)) ==> i < operations@.len() && operation_check(operations@[i as int]) == Err::<(), OperationError>(e)
            && forall|j: int| 0 <= j < i ==> #[trigger] operation_check(operations@[j]) is Ok,
{
    let mut i: usize = 0;
    while i < operations.len()
        invariant
            i <= operations@.len(),
            forall|k: int| 0 <= k < operations@.len() ==> operation_in_range(#[trigger] operations@[k]),
            forall|j: int| 0 <= j < i ==> #[trigger] operation_check(operations@[j]) is Ok,
        decreases operations.len() - i,
    {
        let op = &operations[i];
        let checked = match op {
            Operation::Buy(b) => check_buy(b),
            Operation::Sell(s) => check_sell(s),
            Operation::Dividend(d) => check_dividend(d),
        };
        match checked {
            Ok(()) => {},
            Err(e) => {
                return Err((i, e));
            },
        }
        i = i + 1;
    }
    Ok(())
}

} // verus!
