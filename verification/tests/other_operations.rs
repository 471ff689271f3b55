use investments::broker_statement::other::config::{BuyOperation, DividendOperation, Operation, SellOperation};
use investments::broker_statement::other::{
    check_buy, check_dividend, check_operations, check_sell, OperationError, OperationField,
};
use investments::date::Date;
use investments::decimal::Decimal;

fn d(text: &str) -> Decimal {
    Decimal::parse(text).unwrap()
}

fn day(n: u32) -> Date {
    Date::from_ymd_opt(2024, 3, n).unwrap()
}

fn dividend(symbol: &str, gross: &str, tax: &str, net: &str) -> DividendOperation {
    DividendOperation {
        date: day(1),
        symbol: symbol.to_string(),
        gross_amount: d(gross),
        tax_withheld: d(tax),
        net_amount: d(net),
    }
}

fn buy(quantity: &str, price: &str, amount: &str) -> BuyOperation {
    BuyOperation {
        date: day(2),
        settle_date: None,
        symbol: "US0378331005".to_string(),
        quantity: d(quantity),
        price: d(price),
        amount: d(amount),
    }
}

fn sell(quantity: &str, price: &str, net: &str, tax: &str) -> SellOperation {
    SellOperation {
        date: day(3),
        settle_date: Some(day(5)),
        symbol: "US0378331005".to_string(),
        quantity: d(quantity),
        price: d(price),
        net_amount: d(net),
        tax_withheld: d(tax),
    }
}

#[test]
fn dividend_net_must_be_gross_less_tax() {
    assert_eq!(check_dividend(&dividend("US0378331005", "10.00", "1.50", "8.50")), Ok(()));
    assert_eq!(
        check_dividend(&dividend("US0378331005", "10.00", "1.50", "8.60")),
        Err(OperationError::NetMismatch)
    );
}

#[test]
fn dividend_refusals_follow_field_order() {
    assert_eq!(check_dividend(&dividend("AAPL", "10", "1", "9")), Err(OperationError::InvalidIsin));
    assert_eq!(
        check_dividend(&dividend("US0378331005", "0", "1", "9")),
        Err(OperationError::NotPositive(OperationField::GrossAmount))
    );
    assert_eq!(
        check_dividend(&dividend("US0378331005", "10", "-1", "11")),
        Err(OperationError::Negative(OperationField::TaxWithheld))
    );
    assert_eq!(
        check_dividend(&dividend("US0378331005", "10", "10", "0")),
        Err(OperationError::NotPositive(OperationField::NetAmount))
    );
}

#[test]
fn buy_amount_is_compared_in_cents() {
    assert_eq!(check_buy(&buy("3", "33.333", "100.00")), Ok(()));
    assert_eq!(check_buy(&buy("3", "33.333", "100.01")), Err(OperationError::UnexpectedAmount));
    assert_eq!(check_buy(&buy("0", "33.333", "100.00")), Err(OperationError::NotPositive(OperationField::Quantity)));
}

#[test]
fn sell_net_is_rounded_volume_less_tax() {
    assert_eq!(check_sell(&sell("3", "33.335", "95.01", "5")), Ok(()));
    assert_eq!(check_sell(&sell("3", "33.335", "95.00", "5")), Err(OperationError::NetMismatch));
    assert_eq!(check_sell(&sell("3", "33.335", "95.01", "-5")), Err(OperationError::Negative(OperationField::TaxWithheld)));
}

#[test]
fn first_refused_operation_is_reported() {
    let operations = vec![
        Operation::Buy(buy("3", "33.333", "100.00")),
        Operation::Dividend(dividend("US0378331005", "10.00", "1.50", "8.50")),
        Operation::Sell(sell("3", "33.335", "95.00", "5")),
        Operation::Dividend(dividend("AAPL", "10", "1", "9")),
    ];
    assert_eq!(check_operations(&operations), Err((2, OperationError::NetMismatch)));
    assert_eq!(check_operations(&operations[..2]), Ok(()));
}
