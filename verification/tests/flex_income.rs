use investments::taxes::remapping::TaxRemapping;
use investments::broker_statement::ib::flex_query::{
    CashReport, CashReportCurrency, CashTransaction, CashTransactions, FlexQueryResponse, FlexStatement,
    FlexStatements, OpenPosition, OpenPositions, StatementOfFunds, StatementOfFundsLine, Trade, Trades,
};
use investments::broker_statement::ib::records::{fund_dividends_are_credits, parse_records};
use investments::broker_statement::ib::income::{
    parse_cash_transaction, parse_statement_of_funds_dividend, CashTxIncome,
};
use investments::broker_statement::interest::{IdleCashInterest, InterestKind};
use investments::date::Date;
use investments::decimal::Decimal;

fn d(text: &str) -> Decimal {
    Decimal::parse(text).unwrap()
}

fn fund_line(activity: &str, amount: &str, level: &str, date: &str) -> StatementOfFundsLine {
    StatementOfFundsLine {
        currency: "USD".to_string(),
        fx_rate_to_base: String::new(),
        date: date.to_string(),
        settle_date: String::new(),
        activity_code: activity.to_string(),
        activity_description: String::new(),
        symbol: String::new(),
        isin: String::new(),
        asset_category: String::new(),
        amount: d(amount),
        trade_quantity: d("0"),
        trade_price: d("0"),
        trade_gross: d("0"),
        trade_commission: d("0"),
        buy_sell: String::new(),
        level_of_detail: level.to_string(),
        balance: d("0"),
        transaction_id: String::new(),
    }
}

fn cash_tx(kind: &str, symbol: &str, amount: &str, date_time: &str, description: &str) -> CashTransaction {
    CashTransaction {
        currency: "USD".to_string(),
        symbol: symbol.to_string(),
        isin: String::new(),
        description: description.to_string(),
        date_time: date_time.to_string(),
        settle_date: String::new(),
        amount: d(amount),
        transaction_type: kind.to_string(),
    }
}

fn statement(lines: Vec<StatementOfFundsLine>, txs: Option<Vec<CashTransaction>>) -> FlexStatement {
    FlexStatement {
        account_id: "U0000001".to_string(),
        from_date: "20250101".to_string(),
        to_date: "20251231".to_string(),
        cash_report: None,
        statement_of_funds: Some(StatementOfFunds { lines }),
        trades: None,
        cash_transactions: txs.map(|transactions| CashTransactions { transactions }),
        corporate_actions: None,
        open_positions: None,
        securities_info: None,
        fx_transactions: None,
        stock_grant_activities: None,
    }
}

fn interest_of(v: &IdleCashInterest) -> (Date, String, Decimal, Option<InterestKind>) {
    (v.date, v.amount.currency.clone(), v.amount.amount, v.kind)
}

fn ymd(y: i32, m: u32, day: u32) -> Date {
    Date::from_ymd_opt(y, m, day).unwrap()
}

#[test]
fn income_flags_follow_the_transaction_types() {
    let none = CashTxIncome::from_transactions(&vec![cash_tx("Other Fees", "", "-1", "20250301", "")]);
    assert!(!none.dividends && !none.withholding && !none.interest);

    let all = CashTxIncome::from_transactions(&vec![
        cash_tx("Payment In Lieu Of Dividends", "MSFT", "1", "20250301", ""),
        cash_tx("Withholding Tax", "MSFT", "-0.15", "20250301", ""),
        cash_tx("Broker Interest Paid", "", "-2", "20250301", ""),
    ]);
    assert!(all.dividends && all.withholding && all.interest);

    let interest_only = CashTxIncome::from_transactions(&vec![cash_tx("Broker Interest Received", "", "2", "20250301", "")]);
    assert!(!interest_only.dividends && !interest_only.withholding && interest_only.interest);
}

#[test]
fn stmtfunds_interest_is_read_from_base_currency_lines_only() {
    let none = CashTxIncome { dividends: false, withholding: false, interest: false };
    let mut out = Vec::new();
    parse_statement_of_funds_dividend(&mut out, &fund_line("CINT", "3.5", "Currency", "20250402"), &none).unwrap();
    parse_statement_of_funds_dividend(&mut out, &fund_line("CINT", "3.5", "BaseCurrency", ""), &none).unwrap();
    parse_statement_of_funds_dividend(&mut out, &fund_line("DEP", "100", "BaseCurrency", "20250402"), &none).unwrap();
    assert!(out.is_empty());

    parse_statement_of_funds_dividend(&mut out, &fund_line("CINT", "3.5", "BaseCurrency", "20250402"), &none).unwrap();
    assert_eq!(out.len(), 1);
    assert_eq!(
        interest_of(&out[0]),
        (ymd(2025, 4, 2), "USD".to_string(), d("3.5"), Some(InterestKind::Received))
    );

    let err = parse_statement_of_funds_dividend(&mut out, &fund_line("CINT", "1", "BaseCurrency", "2025042"), &none)
        .unwrap_err();
    assert_eq!(err, "Invalid date format: 2025042");
    assert_eq!(out.len(), 1);
}

#[test]
fn cash_transaction_interest_keeps_its_label() {
    let mut out = Vec::new();
    parse_cash_transaction(&mut out, &cash_tx("Broker Interest Paid", "", "-4.25", "20250510;120000", "")).unwrap();
    parse_cash_transaction(&mut out, &cash_tx("Broker Interest Received", "", "-1", "20250511", "")).unwrap();
    parse_cash_transaction(&mut out, &cash_tx("Deposits/Withdrawals", "", "500", "20250512", "")).unwrap();
    assert_eq!(out.len(), 2);
    assert_eq!(interest_of(&out[0]), (ymd(2025, 5, 10), "USD".to_string(), d("-4.25"), Some(InterestKind::Paid)));
    assert_eq!(interest_of(&out[1]), (ymd(2025, 5, 11), "USD".to_string(), d("-1"), Some(InterestKind::Received)));
}

#[test]
fn dividend_without_symbol_is_refused() {
    let mut out = Vec::new();
    let err = parse_cash_transaction(&mut out, &cash_tx("Dividends", "", "7", "20250601", "ACME \"A\" CASH DIVIDEND"))
        .unwrap_err();
    assert_eq!(err, "Dividend without symbol: \"ACME \\\"A\\\" CASH DIVIDEND\"");
    parse_cash_transaction(&mut out, &cash_tx("Dividends", "ACME", "7", "20250601", "")).unwrap();
    assert!(out.is_empty());
}

#[test]
fn a_cash_transaction_with_a_bad_date_is_refused() {
    let mut out = Vec::new();
    let err = parse_cash_transaction(&mut out, &cash_tx("Broker Interest Paid", "", "-1", "2025", "")).unwrap_err();
    assert_eq!(err, "Invalid datetime format: 2025");
    assert!(out.is_empty());
}

#[test]
fn interest_is_not_counted_twice_across_sections() {
    let lines = vec![fund_line("CINT", "10", "BaseCurrency", "20250131")];

    // Without Cash Transactions the Statement of Funds supplies the interest.
    let parsed = statement(vec![fund_line("CINT", "10", "BaseCurrency", "20250131")], None).parse(&mut TaxRemapping::new()).unwrap();
    assert_eq!(parsed.idle_cash_interest.len(), 1);
    assert_eq!(
        interest_of(&parsed.idle_cash_interest[0]),
        (ymd(2025, 1, 31), "USD".to_string(), d("10"), Some(InterestKind::Received))
    );

    // A Cash Transactions section with only fees does not suppress it.
    let parsed = statement(
        vec![fund_line("CINT", "10", "BaseCurrency", "20250131")],
        Some(vec![cash_tx("Other Fees", "", "-1", "20250131", "")]),
    )
    .parse(&mut TaxRemapping::new())
    .unwrap();
    assert_eq!(parsed.idle_cash_interest.len(), 1);

    // Where the Cash Transactions carry interest, they alone supply it.
    let parsed = statement(lines, Some(vec![cash_tx("Broker Interest Received", "", "10", "20250131;235959", "")]))
        .parse(&mut TaxRemapping::new())
        .unwrap();
    assert_eq!(parsed.idle_cash_interest.len(), 1);
    assert_eq!(
        interest_of(&parsed.idle_cash_interest[0]),
        (ymd(2025, 1, 31), "USD".to_string(), d("10"), Some(InterestKind::Received))
    );
}

#[test]
fn a_statement_with_a_bad_cash_transaction_is_refused() {
    let err = statement(vec![], Some(vec![cash_tx("Dividends", "", "1", "20250301", "X")])).parse(&mut TaxRemapping::new()).unwrap_err();
    assert_eq!(err, "Dividend without symbol: \"X\"");
}

fn with_symbol(mut l: StatementOfFundsLine, symbol: &str) -> StatementOfFundsLine {
    l.symbol = symbol.to_string();
    l
}

fn report_row(currency: &str, ending: &str) -> CashReportCurrency {
    CashReportCurrency {
        currency: currency.to_string(),
        starting_cash: d("0"),
        ending_cash: d(ending),
        dividends: d("0"),
        broker_interest: d("0"),
        withholding_tax: d("0"),
    }
}

fn stock_trade(id: &str, side: &str, orig: &str) -> Trade {
    Trade {
        currency: "USD".to_string(),
        symbol: "AAPL".to_string(),
        isin: String::new(),
        description: "AAPL".to_string(),
        asset_category: "STK".to_string(),
        date_time: "20250310;100000".to_string(),
        settle_date: "20250312".to_string(),
        quantity: d("5"),
        trade_price: d("100"),
        trade_money: d("-500"),
        commission: d("0"),
        buy_sell: side.to_string(),
        open_close_indicator: "O".to_string(),
        trade_id: id.to_string(),
        orig_trade_id: orig.to_string(),
    }
}

/// Interest and an MSFT dividend in both the Statement of Funds and the Cash Transactions, a
/// dividend correction, a BASE_SUMMARY cash row, a fee, a cancelled buy with its original and a
/// short position.
#[test]
fn dedups_income_and_handles_edge_rows() {
    let mut st = statement(
        vec![
            fund_line("CINT", "10", "BaseCurrency", "20250131"),
            with_symbol(fund_line("DIV", "10", "BaseCurrency", "20250312"), "MSFT"),
        ],
        Some(vec![
            cash_tx("Broker Interest Received", "", "10", "20250131;235959", ""),
            cash_tx("Dividends", "MSFT", "12", "20250312", "MSFT CASH DIVIDEND"),
            cash_tx("Dividends", "MSFT", "-2", "20250320", "MSFT CASH DIVIDEND - REVERSAL"),
            cash_tx("Other Fees", "", "-1.50", "20250401", "ADR FEE"),
        ]),
    );
    st.cash_report = Some(CashReport { currencies: vec![report_row("USD", "100"), report_row("BASE_SUMMARY", "100")] });
    st.trades = Some(Trades { trades: vec![stock_trade("1", "BUY", ""), stock_trade("2", "BUY (Ca.)", "1")] });
    st.open_positions = Some(OpenPositions {
        positions: vec![
            OpenPosition {
                currency: "USD".to_string(),
                symbol: "GLW".to_string(),
                isin: String::new(),
                description: "GLW".to_string(),
                position: d("10"),
                mark_price: d("50"),
            },
            OpenPosition {
                currency: "USD".to_string(),
                symbol: "TSLA".to_string(),
                isin: String::new(),
                description: "TSLA".to_string(),
                position: d("-3"),
                mark_price: d("200"),
            },
        ],
    });
    let response = FlexQueryResponse { flex_statements: FlexStatements { statements: vec![st] } };
    assert!(fund_dividends_are_credits(&response.flex_statements.statements[0]));
    let p = response.parse(&mut TaxRemapping::new()).unwrap();

    assert_eq!(p.idle_cash_interest.len(), 1, "interest double-counted");
    let msft: Vec<_> = p.dividend_accruals.iter().filter(|a| a.symbol == "MSFT").collect();
    assert!(!msft.is_empty(), "MSFT dividend accrual missing");
    let net = msft.iter().fold(d("0"), |acc, a| acc.add(&a.amount.amount));
    assert_eq!(net, d("10"), "MSFT dividend double-counted across StmtFunds and CashTransactions");
    assert!(msft.iter().all(|a| a.amount.currency == "USD"));
    assert!(p.cash_assets.iter().all(|(c, _)| c != "BASE_SUMMARY"), "BASE_SUMMARY leaked into cash assets");
    assert_eq!(p.cash_assets, vec![("USD".to_string(), d("100"))]);
    assert!(!p.fees.is_empty(), "fee not ingested");
    assert_eq!(p.fees[0].amount.amount, d("1.50"));
    assert_eq!(p.fees[0].description.as_deref(), Some("ADR FEE"));
    assert!(p.stock_buys.is_empty(), "cancelled trade not voided");
    assert!(p.open_positions.iter().all(|(_, q)| q.is_sign_positive() && !q.is_zero()), "short position leaked into open positions");
    assert_eq!(p.short_positions.len(), 1);
}

#[test]
fn stmtfunds_supplies_dividends_and_withholding_without_cash_transactions() {
    let st = statement(
        vec![
            with_symbol(fund_line("DIV", "20", "BaseCurrency", "20250312"), "MSFT"),
            with_symbol(fund_line("FRTAX", "-3", "BaseCurrency", "20250312"), "MSFT"),
            with_symbol(fund_line("FRTAX", "1", "BaseCurrency", "20250401"), "MSFT"),
            fund_line("DIV", "20", "BaseCurrency", "20250312"),
            with_symbol(fund_line("DIV", "20", "Currency", "20250312"), "MSFT"),
        ],
        None,
    );
    let r = parse_records(&st, &mut TaxRemapping::new());
    assert_eq!(r.dividends.len(), 1);
    assert_eq!(r.dividends[0].symbol, "MSFT");
    assert_eq!(r.dividends[0].amount.amount, d("20"));
    assert_eq!(r.dividends[0].date, ymd(2025, 3, 12));
    assert_eq!(r.taxes.len(), 2);
    assert_eq!(r.taxes[0].amount.amount, d("3"));
    assert_eq!(r.taxes[1].amount.amount, d("-1"));
}

#[test]
fn cash_transactions_give_deposits_withholding_and_fees() {
    let st = statement(
        vec![with_symbol(fund_line("FRTAX", "-3", "BaseCurrency", "20250312"), "MSFT")],
        Some(vec![
            cash_tx("Withholding Tax", "MSFT", "-1.80", "20250312", ""),
            cash_tx("Withholding Tax", "", "-0.20", "20250312", "interest withholding"),
            cash_tx("Deposits/Withdrawals", "", "1000", "20250102", ""),
            cash_tx("Withdrawals", "", "-50", "20250502", ""),
            cash_tx("Commission Adjustments", "", "0.25", "20250601", ""),
        ]),
    );
    let r = parse_records(&st, &mut TaxRemapping::new());
    // The Cash Transactions carry withholding, so the Statement of Funds line is not taken.
    assert_eq!(r.taxes.len(), 1);
    assert_eq!(r.taxes[0].amount.amount, d("1.80"));
    assert_eq!(r.deposits.len(), 2);
    assert_eq!(r.deposits[1].amount.amount, d("-50"));
    assert_eq!(r.fees.len(), 1);
    assert_eq!(r.fees[0].amount.amount, d("-0.25"));
    assert_eq!(r.fees[0].description, None);
}

#[test]
fn a_stmtfunds_dividend_debit_is_flagged() {
    let st = statement(vec![with_symbol(fund_line("DIV", "-5", "BaseCurrency", "20250312"), "MSFT")], None);
    assert!(!fund_dividends_are_credits(&st));
    let with_cash = statement(
        vec![with_symbol(fund_line("DIV", "-5", "BaseCurrency", "20250312"), "MSFT")],
        Some(vec![cash_tx("Dividends", "MSFT", "5", "20250312", "")]),
    );
    assert!(fund_dividends_are_credits(&with_cash));
}

#[test]
fn withholding_is_moved_by_a_tax_remapping_rule() {
    let st = statement(
        vec![],
        Some(vec![
            cash_tx("Withholding Tax", "MSFT", "-1.80", "20250402", "MSFT CASH DIVIDEND - US TAX"),
            cash_tx("Withholding Tax", "MSFT", "-0.90", "20250402", "MSFT OTHER"),
            cash_tx("Withholding Tax", "", "-0.20", "20250402", "MSFT CASH DIVIDEND - US TAX"),
        ]),
    );
    let mut remapping = TaxRemapping::new();
    remapping.add(ymd(2025, 4, 2), "MSFT CASH DIVIDEND - US TAX", ymd(2025, 3, 12)).unwrap();
    assert!(remapping.add(ymd(2025, 4, 2), "MSFT CASH DIVIDEND - US TAX", ymd(2025, 3, 13)).is_err());
    assert!(!remapping.all_rules_used());

    let r = parse_records(&st, &mut remapping);
    assert_eq!(r.taxes.len(), 2);
    assert_eq!(r.taxes[0].date, ymd(2025, 3, 12));
    assert_eq!(r.taxes[1].date, ymd(2025, 4, 2));
    assert!(remapping.all_rules_used());
}

#[test]
fn a_rule_for_a_row_without_symbol_stays_unused() {
    let st = statement(
        vec![],
        Some(vec![cash_tx("Withholding Tax", "", "-0.20", "20250402", "INTEREST TAX")]),
    );
    let mut remapping = TaxRemapping::new();
    remapping.add(ymd(2025, 4, 2), "INTEREST TAX", ymd(2025, 3, 31)).unwrap();
    let r = parse_records(&st, &mut remapping);
    assert!(r.taxes.is_empty());
    assert!(!remapping.all_rules_used());
}
