use investments::taxes::remapping::TaxRemapping;
use investments::broker_statement::ib::flex_query::{
    build_foreign_cash_flows, is_cancelled_trade, parse_flex_date, parse_flex_datetime, CashReport,
    CashReportCurrency, FlexQueryResponse, FlexStatement, FlexStatements, OpenPosition,
    OpenPositions, StatementOfFunds, StatementOfFundsLine, Trade, Trades,
};
use investments::broker_statement::ib::trades::{parse_trade, StockTrades};
use investments::date::Date;
use investments::decimal::Decimal;

fn d(text: &str) -> Decimal {
    Decimal::parse(text).unwrap()
}

/// A malformed date whose bytes total 8 but split a multi-byte UTF-8 character must error, not
/// panic on a byte slice landing inside that character.
#[test]
fn parse_flex_date_rejects_multibyte_without_panicking() {
    assert!(parse_flex_date("202¼315").is_err());
    assert!(parse_flex_date("2025031").is_err());
    assert_eq!(parse_flex_date("20250315").unwrap(), Date::from_ymd_opt(2025, 3, 15).unwrap());
}

#[test]
fn test_parse_flex_date() {
    assert_eq!(parse_flex_date("20251023").unwrap(), Date::from_ymd_opt(2025, 10, 23).unwrap());
}

#[test]
fn test_parse_flex_datetime() {
    assert_eq!(
        parse_flex_datetime("20251023;075607").unwrap(),
        Date::from_ymd_opt(2025, 10, 23).unwrap()
    );
    assert_eq!(parse_flex_datetime("20251023").unwrap(), Date::from_ymd_opt(2025, 10, 23).unwrap());
}

#[test]
fn flex_date_errors_name_the_text() {
    assert_eq!(parse_flex_date("2025-10-2").unwrap_err(), "Invalid date format: 2025-10-2");
    assert_eq!(parse_flex_date("20250230").unwrap_err(), "Invalid date: 20250230");
    assert_eq!(parse_flex_datetime("2025").unwrap_err(), "Invalid datetime format: 2025");
    assert_eq!(parse_flex_datetime("20251301;1200").unwrap_err(), "Invalid date: 20251301");
    // The first eight bytes end inside the euro sign: no date part at all.
    assert_eq!(parse_flex_datetime("202510€1").unwrap_err(), "Invalid datetime format: 202510€1");
    // They end on a character boundary after a two-byte character: that part is the date.
    assert_eq!(parse_flex_datetime("20251é01x").unwrap_err(), "Invalid date format: 20251é0");
}

#[test]
fn cancellations_are_recognized_by_their_marker() {
    assert!(is_cancelled_trade("BUY (Ca.)"));
    assert!(is_cancelled_trade("SELL (Ca.)"));
    assert!(!is_cancelled_trade("BUY"));
    assert!(!is_cancelled_trade("(Ca"));
}

fn line(currency: &str, activity: &str, amount: &str, balance: &str, level: &str, id: &str) -> StatementOfFundsLine {
    StatementOfFundsLine {
        currency: currency.to_string(),
        fx_rate_to_base: String::new(),
        date: "20251104".to_string(),
        settle_date: String::new(),
        activity_code: activity.to_string(),
        activity_description: String::new(),
        symbol: String::new(),
        isin: String::new(),
        asset_category: String::new(),
        amount: d(amount),
        trade_quantity: d("0"),
        trade_price: d("0"),
        trade_gross: d("0"),
        trade_commission: d("0"),
        buy_sell: String::new(),
        level_of_detail: level.to_string(),
        balance: d(balance),
        transaction_id: id.to_string(),
    }
}

fn cash(currency: &str) -> CashReportCurrency {
    CashReportCurrency {
        currency: currency.to_string(),
        starting_cash: d("0"),
        ending_cash: d("0"),
        dividends: d("0"),
        broker_interest: d("0"),
        withholding_tax: d("0"),
    }
}

fn response(lines: Vec<StatementOfFundsLine>) -> FlexQueryResponse {
    FlexQueryResponse {
        flex_statements: FlexStatements {
            statements: vec![FlexStatement {
                account_id: "U0000001".to_string(),
                from_date: "20250101".to_string(),
                to_date: "20251231".to_string(),
                cash_report: Some(CashReport { currencies: vec![cash("USD"), cash("EUR")] }),
                statement_of_funds: Some(StatementOfFunds { lines }),
                trades: None,
                cash_transactions: None,
                corporate_actions: None,
                open_positions: None,
                securities_info: None,
                fx_transactions: None,
                stock_grant_activities: None,
            }],
        },
    }
}

/// The Statement of Funds is replayed into a per-currency cash-flow ledger: `Currency`-level rows
/// are captured in document order, and a forex leg is paired with its EUR counter-leg (same
/// transactionID). `BaseCurrency` summary rows are excluded.
#[test]
fn stmtfunds_builds_foreign_cash_ledger() {
    let mut buy = line("USD", "BUY", "-4998.50", "-4998.50", "Currency", "100");
    buy.symbol = "STRC".to_string();
    let mut forex = line("USD", "FOREX", "4996.94", "-1.56", "Currency", "200");
    forex.symbol = "EUR.USD".to_string();
    forex.activity_description = "Trading Currency Leg from Forex Trade: -4353.72 EUR.USD".to_string();
    let mut eur_leg = line("EUR", "FOREX", "-4353.72", "0", "Currency", "200");
    eur_leg.activity_description = "Traded Currency Leg from Forex Trade".to_string();
    let mut base = line("EUR", "FOREX", "-50", "-50", "BaseCurrency", "200");
    base.symbol = "EUR.USD".to_string();
    let partial = response(vec![buy, forex, eur_leg, base]).parse(&mut TaxRemapping::new()).unwrap();

    // The BaseCurrency summary row is excluded; the three Currency-level rows are captured in order.
    let flows = &partial.foreign_cash_flows;
    assert_eq!(flows.len(), 3);

    let usd: Vec<_> = flows.iter().filter(|f| f.currency == "USD").collect();
    assert_eq!(usd.len(), 2);

    // The buy is an outflow with no EUR execution leg (the FIFO values it at the ECB rate).
    assert_eq!(usd[0].activity_code, "BUY");
    assert_eq!(usd[0].amount, d("-4998.50"));
    assert_eq!(usd[0].balance, d("-4998.50"));
    assert_eq!(usd[0].eur_execution, None);

    // The forex leg is paired with its EUR counter-leg (transactionID 200) → execution value.
    assert_eq!(usd[1].activity_code, "FOREX");
    assert_eq!(usd[1].amount, d("4996.94"));
    assert_eq!(usd[1].eur_execution, Some(d("-4353.72")));
}

/// Two EUR forex legs sharing a transactionID make the execution-rate pairing ambiguous; the
/// ledger build refuses rather than silently binding the last-written EUR amount.
#[test]
fn stmtfunds_rejects_duplicate_forex_transaction_id() {
    let lines = vec![
        line("EUR", "FOREX", "-100", "-100", "Currency", "200"),
        line("EUR", "FOREX", "-200", "-300", "Currency", "200"),
    ];
    let err = match response(lines).parse(&mut TaxRemapping::new()) {
        Ok(_) => panic!("expected a duplicate FOREX transactionID error"),
        Err(e) => e,
    };
    assert!(err.contains("Duplicate FOREX transactionID"), "{err}");
}

#[test]
fn ledger_refuses_a_bad_date_of_a_currency_line() {
    let mut bad = line("USD", "DIV", "5", "5", "Currency", "");
    bad.date = "2025111".to_string();
    let err = build_foreign_cash_flows(&StatementOfFunds { lines: vec![bad] }).unwrap_err();
    assert_eq!(err, "Invalid date format: 2025111");
}

#[test]
fn responses_need_exactly_one_statement() {
    let mut empty = response(vec![]);
    empty.flex_statements.statements.clear();
    assert_eq!(empty.parse(&mut TaxRemapping::new()).unwrap_err(), "No statements found in Flex Query response");

    let mut two = response(vec![]);
    let second = response(vec![]).flex_statements.statements.pop().unwrap();
    two.flex_statements.statements.push(second);
    assert_eq!(
        two.parse(&mut TaxRemapping::new()).unwrap_err(),
        "Multi-account Flex Query responses are not supported: found 2 statements. Export one account per Flex Query."
    );
}

#[test]
fn open_positions_split_into_long_and_short() {
    let mut r = response(vec![]);
    let position = |symbol: &str, quantity: &str| OpenPosition {
        currency: "USD".to_string(),
        symbol: symbol.to_string(),
        isin: String::new(),
        description: symbol.to_string(),
        position: d(quantity),
        mark_price: d("1"),
    };
    r.flex_statements.statements[0].open_positions = Some(OpenPositions {
        positions: vec![position("AAPL", "10"), position("TSLA", "-5"), position("ZERO", "0"), position("", "3")],
    });
    let partial = r.parse(&mut TaxRemapping::new()).unwrap();
    assert_eq!(partial.open_positions, vec![("AAPL".to_string(), d("10"))]);
    assert_eq!(partial.short_positions, vec![("TSLA".to_string(), d("-5"))]);
    assert_eq!(partial.period.0, Date::from_ymd_opt(2025, 1, 1).unwrap());
    assert_eq!(partial.period.1, Date::from_ymd_opt(2025, 12, 31).unwrap());
}

fn trade_row(symbol: &str, asset_category: &str) -> Trade {
    Trade {
        currency: "USD".to_string(),
        symbol: symbol.to_string(),
        isin: String::new(),
        description: symbol.to_string(),
        asset_category: asset_category.to_string(),
        date_time: "20240110;100000".to_string(),
        settle_date: "20240112".to_string(),
        quantity: d("1"),
        trade_price: d("10"),
        trade_money: d("-10"),
        commission: d("0"),
        buy_sell: "BUY".to_string(),
        open_close_indicator: "O".to_string(),
        trade_id: String::new(),
        orig_trade_id: String::new(),
    }
}

/// Instrument selection is by IB asset category, not by symbol pattern: a real stock whose
/// ticker ends in 'W' (GLW) is ingested, while an option (OPT) is excluded.
#[test]
fn parse_trade_keeps_stocks_and_excludes_derivatives() {
    let mut statement = StockTrades::new();

    let stock = trade_row("GLW", "STK");
    assert!(parse_trade(&mut statement, &stock).unwrap());
    assert_eq!(statement.stock_buys.len(), 1);

    let option = trade_row("AAPL  240119C00150000", "OPT");
    assert!(!parse_trade(&mut statement, &option).unwrap());
    assert_eq!(statement.stock_buys.len(), 1, "option must not be ingested");
}

#[test]
fn trades_take_unsigned_amounts_and_their_settlement_day() {
    let mut statement = StockTrades::new();
    let mut sell = trade_row("AAPL", "STK");
    sell.buy_sell = "SELL".to_string();
    sell.quantity = d("-5");
    sell.trade_money = d("1000.50");
    sell.commission = d("-1.25");
    assert!(parse_trade(&mut statement, &sell).unwrap());
    let trade = &statement.stock_sells[0];
    assert_eq!(trade.quantity, d("5"));
    assert_eq!(trade.volume, d("1000.50"));
    assert_eq!(trade.commission, d("1.25"));
    assert_eq!(trade.date, Date::from_ymd_opt(2024, 1, 10).unwrap());
    assert_eq!(trade.settle_date, Date::from_ymd_opt(2024, 1, 12).unwrap());

    // Without a settlement day the trade settles on its conclusion day.
    let mut buy = trade_row("AAPL", "STK");
    buy.settle_date = String::new();
    assert!(parse_trade(&mut statement, &buy).unwrap());
    assert_eq!(statement.stock_buys[0].settle_date, Date::from_ymd_opt(2024, 1, 10).unwrap());
}

#[test]
fn trades_with_an_unknown_side_or_date_are_refused() {
    let mut statement = StockTrades::new();
    let mut odd = trade_row("AAPL", "STK");
    odd.buy_sell = "HOLD".to_string();
    assert_eq!(parse_trade(&mut statement, &odd).unwrap_err(), "Unknown trade direction: HOLD");
    let mut bad = trade_row("AAPL", "STK");
    bad.settle_date = "2024011".to_string();
    assert_eq!(parse_trade(&mut statement, &bad).unwrap_err(), "Invalid date format: 2024011");
    assert!(statement.stock_buys.is_empty());
}

#[test]
fn valid_isins_are_learned_once() {
    let mut statement = StockTrades::new();
    let mut apple = trade_row("AAPL", "STK");
    apple.isin = "US0378331005".to_string();
    assert!(parse_trade(&mut statement, &apple).unwrap());
    assert!(parse_trade(&mut statement, &apple).unwrap());
    let mut wrong = trade_row("MSFT", "STK");
    wrong.isin = "US0378331006".to_string();
    assert!(parse_trade(&mut statement, &wrong).unwrap());
    assert_eq!(
        statement.instrument_isins,
        vec![("AAPL".to_string(), "US0378331005".to_string())]
    );
    assert_eq!(statement.stock_buys.len(), 3);
}

#[test]
fn cancelled_trades_and_their_originals_are_dropped() {
    let mut r = response(vec![]);
    let mut original = trade_row("AAPL", "STK");
    original.trade_id = "100".to_string();
    let mut cancellation = trade_row("AAPL", "STK");
    cancellation.buy_sell = "BUY (Ca.)".to_string();
    cancellation.orig_trade_id = "100".to_string();
    let mut elsewhere = trade_row("MSFT", "STK");
    elsewhere.buy_sell = "SELL (Ca.)".to_string();
    elsewhere.orig_trade_id = "999".to_string();
    let mut kept = trade_row("GLW", "STK");
    kept.trade_id = "101".to_string();
    r.flex_statements.statements[0].trades = Some(Trades { trades: vec![original, cancellation, elsewhere, kept] });
    let partial = r.parse(&mut TaxRemapping::new()).unwrap();
    assert_eq!(partial.stock_buys.len(), 1);
    assert_eq!(partial.stock_buys[0].symbol, "GLW");
    assert!(partial.stock_sells.is_empty());
}

#[test]
fn statement_of_funds_trades_are_the_fallback() {
    let mut buy = line("USD", "BUY", "-100", "0", "Currency", "7");
    buy.symbol = "AAPL".to_string();
    buy.asset_category = "STK".to_string();
    buy.buy_sell = "BUY".to_string();
    buy.trade_quantity = d("2");
    buy.trade_price = d("50");
    buy.trade_gross = d("-100");
    buy.trade_commission = d("-1");
    let mut summary = buy_clone(&buy);
    summary.level_of_detail = "BaseCurrency".to_string();
    let r = response(vec![buy, summary]);
    let partial = r.parse(&mut TaxRemapping::new()).unwrap();
    assert_eq!(partial.stock_buys.len(), 1);
    assert_eq!(partial.stock_buys[0].volume, d("100"));
    assert_eq!(partial.stock_buys[0].commission, d("1"));
    assert_eq!(partial.stock_buys[0].date, Date::from_ymd_opt(2025, 11, 4).unwrap());

    // Once the Trades section yields a stock trade, the fund lines are not read for trades.
    let mut buy = line("USD", "BUY", "-100", "0", "Currency", "7");
    buy.symbol = "AAPL".to_string();
    buy.asset_category = "STK".to_string();
    buy.buy_sell = "BUY".to_string();
    let mut r = response(vec![buy]);
    r.flex_statements.statements[0].trades = Some(Trades { trades: vec![trade_row("GLW", "STK")] });
    let partial = r.parse(&mut TaxRemapping::new()).unwrap();
    assert_eq!(partial.stock_buys.len(), 1);
    assert_eq!(partial.stock_buys[0].symbol, "GLW");
}

fn buy_clone(l: &StatementOfFundsLine) -> StatementOfFundsLine {
    let mut c = line(&l.currency, &l.activity_code, "-100", "0", &l.level_of_detail, &l.transaction_id);
    c.symbol = l.symbol.clone();
    c.asset_category = l.asset_category.clone();
    c.buy_sell = l.buy_sell.clone();
    c.trade_quantity = l.trade_quantity;
    c.trade_price = l.trade_price;
    c.trade_gross = l.trade_gross;
    c.trade_commission = l.trade_commission;
    c
}
