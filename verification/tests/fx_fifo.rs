use std::collections::HashMap;

use investments::broker_statement::ForeignCashFlow;
use investments::date::Date;
use investments::decimal::Decimal;
use investments::tax_statement::fx_fifo::{compute_fx_fifo, FxLedgerKind, OpeningLot};

fn d(text: &str) -> Decimal {
    Decimal::parse(text).unwrap()
}

fn date(year: i32, month: u32, day: u32) -> Date {
    Date::from_ymd_opt(year, month, day).unwrap()
}

fn flow(day: u32, code: &str, amount: Decimal, balance: Decimal, eur_execution: Option<Decimal>) -> ForeignCashFlow {
    ForeignCashFlow {
        currency: "USD".to_string(),
        date: date(2025, 11, day),
        transaction_id: String::new(),
        activity_code: code.to_string(),
        amount,
        balance,
        eur_execution,
    }
}

/// ECB rate lookup backed by a per-day table (EUR per USD).
fn rates(entries: &[(u32, Decimal)]) -> impl Fn(Date, &str) -> Result<Decimal, String> + '_ {
    let table: HashMap<u32, Decimal> = entries.iter().copied().collect();
    move |date: Date, _ccy: &str| {
        table
            .get(&(date.day()))
            .copied()
            .ok_or_else(|| format!("no rate for {}", date.iso_text()))
    }
}

#[test]
fn fx_fifo_buy_first_loan_is_non_taxable() {
    let flows = vec![
        flow(4, "BUY", d("-1000"), d("-1000"), None),
        flow(4, "FOREX", d("1000"), d("0"), Some(d("-910"))),
    ];
    let results = compute_fx_fifo(&flows, &[], rates(&[(4, d("0.90"))])).unwrap();
    assert_eq!(results.len(), 1);
    assert!(results[0].taxable.is_empty());
    assert_eq!(results[0].non_taxable.len(), 1);
    assert_eq!(results[0].non_taxable[0].amount, d("-10"));

    let ledger = &results[0].ledger;
    assert_eq!(ledger.len(), 2);
    assert_eq!(ledger[0].units, d("-1000"));
    assert_eq!(ledger[0].rate, d("0.90"));
    assert_eq!(ledger[0].kind, FxLedgerKind::Acquisition);
    assert_eq!(ledger[0].balance_after, d("-1000"));
    assert_eq!(ledger[1].units, d("1000"));
    assert_eq!(ledger[1].rate, d("0.91"));
    assert_eq!(
        ledger[1].kind,
        FxLedgerKind::Repayment {
            acquisition_date: date(2025, 11, 4),
            acquisition_rate: d("0.90"),
            amount: d("-10"),
        }
    );
    assert_eq!(ledger[1].balance_after, d("0"));
}

#[test]
fn fx_fifo_forex_first_guthaben_disposal_is_taxable() {
    let flows = vec![
        flow(13, "FOREX", d("1000"), d("1000"), Some(d("-858.80"))),
        flow(13, "BUY", d("-1000"), d("0"), None),
    ];
    let results = compute_fx_fifo(&flows, &[], rates(&[(13, d("0.8607"))])).unwrap();
    assert_eq!(results.len(), 1);
    assert!(results[0].non_taxable.is_empty());
    assert_eq!(results[0].taxable.len(), 1);
    assert_eq!(results[0].taxable[0].amount, d("1.90"));

    let ledger = &results[0].ledger;
    assert_eq!(ledger.len(), 2);
    assert_eq!(ledger[0].kind, FxLedgerKind::Acquisition);
    assert_eq!(ledger[0].units, d("1000"));
    assert_eq!(ledger[0].rate, d("0.8588"));
    assert_eq!(ledger[1].units, d("-1000"));
    assert_eq!(ledger[1].rate, d("0.8607"));
    assert_eq!(
        ledger[1].kind,
        FxLedgerKind::Disposal {
            acquisition_date: date(2025, 11, 13),
            acquisition_rate: d("0.8588"),
            amount: d("1.90"),
        }
    );
    assert_eq!(ledger[1].balance_after, d("0"));
}

#[test]
fn fx_fifo_cross_day_dividend_reconversion_is_taxable() {
    let flows = vec![
        flow(1, "DIV", d("100"), d("100"), None),
        flow(2, "FOREX", d("-100"), d("0"), Some(d("85"))),
    ];
    let results = compute_fx_fifo(&flows, &[], rates(&[(1, d("0.86"))])).unwrap();
    assert_eq!(results.len(), 1);
    assert!(results[0].non_taxable.is_empty());
    assert_eq!(results[0].taxable.len(), 1);
    assert_eq!(results[0].taxable[0].amount, d("-1.00"));
}

#[test]
fn fx_fifo_nonzero_opening_balance_is_rejected() {
    let flows = vec![flow(4, "BUY", d("-1000"), d("-6000"), None)];
    let err = compute_fx_fifo(&flows, &[], rates(&[(4, d("0.90"))])).unwrap_err();
    assert!(err.message().contains("inconsistent"), "{}", err.message());
}

#[test]
fn declared_opening_lot_is_accepted() {
    let opening = vec![OpeningLot {
        currency: "USD".to_string(),
        quantity: d("1000"),
        eur_per_unit: d("0.90"),
        date: date(2023, 6, 1),
    }];
    let flows = vec![flow(4, "BUY", d("-400"), d("600"), None)];
    let results = compute_fx_fifo(&flows, &opening, rates(&[(4, d("0.95"))])).unwrap();

    assert_eq!(results.len(), 1);
    let taxable = &results[0].taxable;
    assert_eq!(taxable.len(), 1);
    assert_eq!(taxable[0].amount, d("20.00"));
    assert_eq!(taxable[0].acquisition_date, date(2023, 6, 1));
}

#[test]
fn wrong_declared_opening_quantity_is_still_rejected() {
    let opening = vec![OpeningLot {
        currency: "USD".to_string(),
        quantity: d("1000"),
        eur_per_unit: d("0.90"),
        date: date(2023, 6, 1),
    }];
    let flows = vec![flow(4, "BUY", d("-1000"), d("-6000"), None)];
    let err = compute_fx_fifo(&flows, &opening, rates(&[(4, d("0.90"))])).unwrap_err();
    assert!(err.message().contains("inconsistent"), "{}", err.message());
}

#[test]
fn fx_fifo_out_of_order_rows_are_rejected() {
    let flows = vec![
        flow(13, "BUY", d("-1000"), d("0"), None),
        flow(13, "FOREX", d("1000"), d("1000"), Some(d("-858.80"))),
    ];
    let err = compute_fx_fifo(&flows, &[], rates(&[(13, d("0.8607"))])).unwrap_err();
    assert!(err.message().contains("inconsistent"), "{}", err.message());
}

#[test]
fn carries_lot_rate_across_year_boundaries() {
    let mk = |year: i32, code: &str, amount: Decimal, balance: Decimal, eur: Option<Decimal>| ForeignCashFlow {
        currency: "USD".to_string(),
        date: date(year, 11, 4),
        transaction_id: String::new(),
        activity_code: code.to_string(),
        amount,
        balance,
        eur_execution: eur,
    };
    let flows = vec![
        mk(2023, "FOREX", d("1000"), d("1000"), Some(d("-900"))),
        mk(2024, "BUY", d("-500"), d("500"), None),
        mk(2025, "BUY", d("-500"), d("0"), None),
    ];
    let ecb = |date: Date, _ccy: &str| -> Result<Decimal, String> {
        Ok(match date.year() {
            2024 => d("0.95"),
            2025 => d("1.00"),
            other => return Err(format!("no rate for {other}")),
        })
    };
    let results = compute_fx_fifo(&flows, &[], ecb).unwrap();
    assert_eq!(results.len(), 1);
    let taxable = &results[0].taxable;
    assert_eq!(taxable.len(), 2);
    assert_eq!(taxable[0].date.year(), 2024);
    assert_eq!(taxable[0].amount, d("25.00"));
    assert_eq!(taxable[1].date.year(), 2025);
    assert_eq!(taxable[1].amount, d("50.00"));
}

#[test]
fn malformed_forex_same_sign_leg_is_rejected() {
    let flows = vec![flow(4, "FOREX", d("1000"), d("1000"), Some(d("910")))];
    let err = compute_fx_fifo(&flows, &[], rates(&[(4, d("0.90"))])).unwrap_err();
    assert!(err.message().contains("non-positive"), "{}", err.message());
}

#[test]
fn ledger_units_add_up_to_opening_plus_movements() {
    let opening = vec![OpeningLot {
        currency: "USD".to_string(),
        quantity: d("300"),
        eur_per_unit: d("0.85"),
        date: date(2024, 12, 31),
    }];
    let flows = vec![
        flow(3, "FOREX", d("200"), d("500"), Some(d("-180"))),
        flow(4, "BUY", d("-450"), d("50"), None),
        flow(5, "DIV", d("25.5"), d("75.5"), None),
    ];
    let results = compute_fx_fifo(&flows, &opening, rates(&[(4, d("0.92")), (5, d("0.93"))])).unwrap();
    assert_eq!(results.len(), 1);
    let ledger = &results[0].ledger;
    let mut total = Decimal::zero();
    for row in ledger {
        total = total.add(&row.units);
    }
    assert_eq!(total, d("75.5"));
    assert_eq!(ledger.last().unwrap().balance_after, d("75.5"));
    // The sale consumes the opening lot and part of the FOREX lot: two ledger rows.
    assert_eq!(ledger.len(), 5);
}
