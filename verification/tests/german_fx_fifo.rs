use std::collections::HashMap;

use investments::broker_statement::ForeignCashFlow;
use investments::date::Date;
use investments::decimal::Decimal;
use investments::tax_statement::germany::fx_fifo::compute_fx_fifo;

fn d(text: &str) -> Decimal {
    Decimal::parse(text).unwrap()
}

fn flow(day: u32, code: &str, amount: Decimal, balance: Decimal, eur_execution: Option<Decimal>) -> ForeignCashFlow {
    ForeignCashFlow {
        currency: "USD".to_string(),
        date: Date::from_ymd_opt(2025, 11, day).unwrap(),
        transaction_id: String::new(),
        activity_code: code.to_string(),
        amount,
        balance,
        eur_execution,
    }
}

fn rates(entries: &[(u32, Decimal)]) -> impl Fn(Date, &str) -> Result<Decimal, String> + '_ {
    let table: HashMap<u32, Decimal> = entries.iter().copied().collect();
    move |date: Date, _ccy: &str| {
        table
            .get(&(date.day()))
            .copied()
            .ok_or_else(|| format!("no rate for {}", date.iso_text()))
    }
}

#[test]
fn buy_first_loan_is_non_taxable() {
    let flows = vec![
        flow(4, "BUY", d("-1000"), d("-1000"), None),
        flow(4, "FOREX", d("1000"), d("0"), Some(d("-910"))),
    ];
    let results = compute_fx_fifo(&flows, rates(&[(4, d("0.90"))])).unwrap();
    assert_eq!(results.len(), 1);
    assert!(results[0].taxable.is_empty());
    assert_eq!(results[0].non_taxable, d("-10"));
}

#[test]
fn forex_first_guthaben_disposal_is_taxable() {
    let flows = vec![
        flow(13, "FOREX", d("1000"), d("1000"), Some(d("-858.80"))),
        flow(13, "BUY", d("-1000"), d("0"), None),
    ];
    let results = compute_fx_fifo(&flows, rates(&[(13, d("0.8607"))])).unwrap();
    assert_eq!(results.len(), 1);
    assert_eq!(results[0].non_taxable, d("0"));
    assert_eq!(results[0].taxable.len(), 1);
    assert_eq!(results[0].taxable[0].amount, d("1.90"));
}

#[test]
fn cross_day_dividend_reconversion_is_taxable() {
    let flows = vec![
        flow(1, "DIV", d("100"), d("100"), None),
        flow(2, "FOREX", d("-100"), d("0"), Some(d("85"))),
    ];
    let results = compute_fx_fifo(&flows, rates(&[(1, d("0.86"))])).unwrap();
    assert_eq!(results.len(), 1);
    assert_eq!(results[0].non_taxable, d("0"));
    assert_eq!(results[0].taxable.len(), 1);
    assert_eq!(results[0].taxable[0].amount, d("-1.00"));
}

#[test]
fn nonzero_opening_balance_is_rejected() {
    let flows = vec![flow(4, "BUY", d("-1000"), d("-6000"), None)];
    let err = compute_fx_fifo(&flows, rates(&[(4, d("0.90"))])).unwrap_err();
    assert!(err.message().contains("inconsistent"), "{}", err.message());
}

#[test]
fn out_of_order_rows_are_rejected() {
    let flows = vec![
        flow(13, "BUY", d("-1000"), d("0"), None),
        flow(13, "FOREX", d("1000"), d("1000"), Some(d("-858.80"))),
    ];
    let err = compute_fx_fifo(&flows, rates(&[(13, d("0.8607"))])).unwrap_err();
    assert!(err.message().contains("inconsistent"), "{}", err.message());
}
