use investments::broker_statement::ib::flex_query::Trade;
use investments::broker_statement::ib::trades::{parse_trade, StockTrades};
use investments::broker_statement::interest::{IdleCashInterest, InterestKind};
use investments::config::ForeignCurrencyTaxation;
use investments::currency::Cash;
use investments::date::Date;
use investments::decimal::Decimal;
use investments::tax_statement::germany::income::{process_fees, process_interest, BrokerFee};
use investments::tax_statement::germany::trades::{
    compute_tax_year, process_broker_statement, process_trades, produces_capital_gain, SaleLot, StockSale,
    YearActivity,
};
use investments::tax_statement::germany::GermanTaxStatement;
use investments::taxes::germany::TeilfreistellungRate;

fn d(text: &str) -> Decimal {
    Decimal::parse(text).unwrap()
}

fn ymd(y: i32, m: u32, day: u32) -> Date {
    Date::from_ymd_opt(y, m, day).unwrap()
}

fn lot(year: i32, quantity: &str, cost: &str) -> SaleLot {
    SaleLot { open_date: ymd(year, 3, 1), quantity: d(quantity), cost_eur: d(cost) }
}

fn sale(symbol: &str, isin: &str, rate: TeilfreistellungRate, proceeds: &str, lots: Vec<SaleLot>) -> StockSale {
    StockSale {
        symbol: symbol.to_string(),
        isin: isin.to_string(),
        description: format!("{symbol} Inc."),
        conclusion_date: ymd(2024, 6, 14),
        settle_date: ymd(2024, 6, 17),
        quantity: d("20"),
        is_trade: true,
        net_proceeds_eur: d(proceeds),
        teilfreistellung_rate: rate,
        lots,
    }
}

fn statement() -> GermanTaxStatement {
    GermanTaxStatement::new(2024, d("0"), d("0"), d("0"), d("1000")).unwrap()
}

#[test]
fn only_market_sales_of_the_year_produce_capital_gains() {
    let mut s = sale("AAPL", "", TeilfreistellungRate::NotFund, "100", vec![]);
    assert!(produces_capital_gain(&s, 2024));
    assert!(!produces_capital_gain(&s, 2023));
    s.is_trade = false;
    assert!(!produces_capital_gain(&s, 2024));
}

#[test]
fn fifo_lots_give_the_cost_basis_of_a_share_sale() {
    let mut st = statement();
    let sales = vec![sale("AAPL", "US0378331005", TeilfreistellungRate::NotFund, "1500", vec![
        lot(2020, "12", "600"),
        lot(2021, "8", "400"),
    ])];
    assert!(process_trades(&mut st, &sales, &vec![], &vec![], 2024));
    assert_eq!(st.capital_gains.len(), 1);
    let e = &st.capital_gains[0];
    assert_eq!(e.cost_basis_eur, d("1000"));
    assert_eq!(e.proceeds_eur, d("1500"));
    assert_eq!(e.gross_gain_loss, d("500"));
    assert_eq!(e.taxable_before_exemption, d("500"));
    assert_eq!(e.taxable_amount, d("500"));
    assert!(e.is_stock);
    assert!(!e.pre_2009_holding);
    assert_eq!(e.notes, None);
    assert_eq!(e.abgeltungssteuer, d("125"));
    assert_eq!(e.symbol, "AAPL");
    assert_eq!(e.description, "AAPL Inc.");
    assert_eq!(e.transaction_date, ymd(2024, 6, 14));
}

#[test]
fn the_profit_of_altbestand_lots_is_excluded() {
    let mut st = statement();
    let sales = vec![sale("SAP", "DE0007164600", TeilfreistellungRate::NotFund, "1000", vec![
        lot(2008, "10", "100"),
        lot(2015, "10", "300"),
    ])];
    assert!(process_trades(&mut st, &sales, &vec![], &vec![], 2024));
    let e = &st.capital_gains[0];
    assert_eq!(e.cost_basis_eur, d("400"));
    assert_eq!(e.gross_gain_loss, d("600"));
    // The 2008 lot's half of the proceeds (500) less its cost (100) is grandfathered.
    assert_eq!(e.taxable_before_exemption, d("200"));
    assert!(e.pre_2009_holding);
    assert_eq!(
        e.notes.as_deref(),
        Some("Altbestand (pre-2009) lots grandfathered — their profit excluded")
    );
}

#[test]
fn vorabpauschale_reduces_a_full_fund_disposal_once() {
    let mut st = statement();
    let isin = "IE00B4L5Y983";
    let sales = vec![
        sale("IWDA", isin, TeilfreistellungRate::Equity, "1000", vec![lot(2020, "20", "800")]),
        sale("IWDA", isin, TeilfreistellungRate::Equity, "1000", vec![lot(2020, "20", "800")]),
    ];
    let carries = vec![(isin.to_string(), d("50"))];
    assert!(process_trades(&mut st, &sales, &vec![], &carries, 2024));
    assert_eq!(st.capital_gains.len(), 2);
    let first = &st.capital_gains[0];
    assert_eq!(first.taxable_before_exemption, d("150"));
    assert_eq!(first.taxable_amount, d("105"));
    assert!(!first.is_stock);
    assert_eq!(first.teilfreistellung_rate, TeilfreistellungRate::Equity);
    assert_eq!(
        first.notes.as_deref(),
        Some(
            "Sale gain reduced by €50 accumulated Vorabpauschale (§19 InvStG); reset this fund's \
             vorabpauschale_carryforward to 0"
        )
    );
    let second = &st.capital_gains[1];
    assert_eq!(second.taxable_before_exemption, d("200"));
    assert_eq!(second.notes, None);
}

#[test]
fn a_fund_still_held_keeps_its_vorabpauschale() {
    let mut st = statement();
    let isin = "IE00B4L5Y983";
    let sales = vec![sale("IWDA", isin, TeilfreistellungRate::Equity, "1000", vec![lot(2020, "20", "800")])];
    let carries = vec![(isin.to_string(), d("50"))];
    assert!(process_trades(&mut st, &sales, &vec![isin.to_string()], &carries, 2024));
    let e = &st.capital_gains[0];
    assert_eq!(e.taxable_before_exemption, d("200"));
    assert_eq!(
        e.notes.as_deref(),
        Some(
            "Partial fund sale: accumulated Vorabpauschale not deducted here (still held at year \
             end); adjust the §19 reduction manually"
        )
    );
}

#[test]
fn a_sale_without_isin_is_a_share_sale() {
    let mut st = statement();
    let sales = vec![sale("XYZ", "", TeilfreistellungRate::Equity, "90", vec![lot(2022, "20", "100")])];
    assert!(process_trades(&mut st, &sales, &vec![], &vec![], 2024));
    let e = &st.capital_gains[0];
    assert_eq!(e.teilfreistellung_rate, TeilfreistellungRate::NotFund);
    assert!(e.is_stock);
    assert_eq!(e.taxable_amount, d("-10"));
    assert_eq!(e.total_tax, d("0"));
}

#[test]
fn sales_of_other_years_add_nothing() {
    let mut st = statement();
    let mut s = sale("AAPL", "", TeilfreistellungRate::NotFund, "1500", vec![lot(2020, "20", "600")]);
    s.conclusion_date = ymd(2023, 12, 29);
    assert!(!process_trades(&mut st, &vec![s], &vec![], &vec![], 2024));
    assert!(st.capital_gains.is_empty());
}

#[test]
fn interest_of_the_year_becomes_entries() {
    let mut st = statement();
    let items = vec![
        IdleCashInterest::new_typed(ymd(2024, 1, 31), Cash::new("USD", d("11")), InterestKind::Received),
        IdleCashInterest::new_typed(ymd(2023, 12, 31), Cash::new("USD", d("7")), InterestKind::Received),
    ];
    assert!(process_interest(&mut st, &items, &vec![d("10"), d("6.5")], 2024));
    assert_eq!(st.interest.len(), 1);
    let e = &st.interest[0];
    assert_eq!(e.description, "Idle cash interest - USD");
    assert_eq!(e.gross_amount_eur, d("10"));
    assert_eq!(e.taxable_amount, d("10"));
    assert_eq!(e.abgeltungssteuer, d("2.5"));
    assert_eq!(e.net_tax, e.total_tax);
    assert_eq!(e.payment_date, ymd(2024, 1, 31));
}

#[test]
fn fees_are_described_and_refunds_noted() {
    let mut st = statement();
    let fees = vec![
        BrokerFee { date: ymd(2024, 2, 1), description: None, amount_eur: d("3") },
        BrokerFee { date: ymd(2024, 3, 1), description: Some("ADR fee".to_string()), amount_eur: d("-1") },
        BrokerFee { date: ymd(2022, 3, 1), description: None, amount_eur: d("9") },
    ];
    assert!(process_fees(&mut st, &fees, 2024));
    assert_eq!(st.fees.len(), 2);
    assert_eq!(st.fees[0].description, "Broker fee");
    assert_eq!(st.fees[0].notes, None);
    assert_eq!(st.fees[1].description, "ADR fee");
    assert_eq!(st.fees[1].notes.as_deref(), Some("Fee refund - reduces deductible expenses"));
}

#[test]
fn a_year_is_processed_into_every_list() {
    let mut st = statement();
    let activity = YearActivity {
        sales: vec![sale("AAPL", "", TeilfreistellungRate::NotFund, "1500", vec![lot(2020, "20", "1000")])],
        held_isins: vec![],
        vorabpauschale_carryforward: vec![],
        interest: vec![IdleCashInterest::new(ymd(2024, 5, 31), Cash::new("EUR", d("4")))],
        interest_eur: vec![d("4")],
        fx_results: vec![],
        fx_taxation: ForeignCurrencyTaxation::InterestBearing,
        fees: vec![BrokerFee { date: ymd(2024, 2, 1), description: None, amount_eur: d("3") }],
    };
    let (trades, interest, fx) = process_broker_statement(&mut st, &activity, 2024);
    assert!(trades && interest && !fx);
    assert_eq!(st.capital_gains.len(), 1);
    assert_eq!(st.interest.len(), 1);
    assert_eq!(st.fees.len(), 1);
    assert!(st.fx_gains.is_empty());
    st.calculate_totals();
    // 500 gain + 4 interest, less the 1000 allowance: nothing taxable.
    assert_eq!(st.total_taxable_income, d("0"));
    assert_eq!(st.sparer_pauschbetrag_used, d("504"));
}

#[test]
fn each_pot_is_offset_against_its_own_carryforward() {
    // Carried-in share loss 300, other loss 0, allowance 100.
    let mut st = GermanTaxStatement::new(2024, d("0"), d("300"), d("0"), d("100")).unwrap();
    let sales = vec![sale("AAPL", "", TeilfreistellungRate::NotFund, "1500", vec![lot(2020, "20", "1000")])];
    process_trades(&mut st, &sales, &vec![], &vec![], 2024);
    let items = vec![IdleCashInterest::new(ymd(2024, 5, 31), Cash::new("EUR", d("50")))];
    process_interest(&mut st, &items, &vec![d("50")], 2024);
    st.calculate_totals();
    // Shares: 500 - 300 = 200, nothing left to carry; general pot: 50.
    assert_eq!(st.loss_carryforward_stock_next, d("0"));
    assert_eq!(st.loss_carryforward_other_next, d("0"));
    assert_eq!(st.sparer_pauschbetrag_used, d("100"));
    assert_eq!(st.total_taxable_income, d("150"));
}

#[test]
fn a_share_loss_never_offsets_other_income() {
    let mut st = GermanTaxStatement::new(2024, d("0"), d("0"), d("0"), d("0")).unwrap();
    let sales = vec![sale("AAPL", "", TeilfreistellungRate::NotFund, "700", vec![lot(2020, "20", "1000")])];
    process_trades(&mut st, &sales, &vec![], &vec![], 2024);
    let items = vec![IdleCashInterest::new(ymd(2024, 5, 31), Cash::new("EUR", d("50")))];
    process_interest(&mut st, &items, &vec![d("50")], 2024);
    st.calculate_totals();
    assert_eq!(st.loss_carryforward_stock_next, d("300"));
    assert_eq!(st.total_taxable_income, d("50"));
}

fn flex_trade(symbol: &str, category: &str, side: &str, day: &str, quantity: &str, price: &str) -> Trade {
    let q = d(quantity);
    let p = d(price);
    Trade {
        currency: "USD".to_string(),
        symbol: symbol.to_string(),
        isin: String::new(),
        description: symbol.to_string(),
        asset_category: category.to_string(),
        date_time: format!("{day};100000"),
        settle_date: day.to_string(),
        quantity: if side == "BUY" { q } else { d(&format!("-{quantity}")) },
        trade_price: p,
        trade_money: d("0"),
        commission: d("0"),
        buy_sell: side.to_string(),
        open_close_indicator: String::new(),
        trade_id: String::new(),
        orig_trade_id: String::new(),
    }
}

/// The FIFO scenario: AAPL bought twice and sold twice; all four trades are read.
#[test]
fn harness_reads_fifo_fixture() {
    let mut statement = StockTrades::new();
    for t in [
        flex_trade("AAPL", "STK", "BUY", "20240110", "100", "10"),
        flex_trade("AAPL", "STK", "BUY", "20240212", "100", "20"),
        flex_trade("AAPL", "STK", "SELL", "20240311", "100", "15"),
        flex_trade("AAPL", "STK", "SELL", "20240410", "100", "25"),
    ] {
        assert!(parse_trade(&mut statement, &t).unwrap());
    }
    assert_eq!(statement.stock_buys.len(), 2);
    assert_eq!(statement.stock_sells.len(), 2);
}

/// GLW (Corning) is a stock whose ticker ends in 'W': it is read and its sale reported, while the
/// option row is dropped. Buy 100 at $10, sell 100 at $15, 0.9 EUR/USD: a gain of 450 EUR.
#[test]
fn real_ticker_ending_in_w_is_not_dropped() {
    let mut trades = StockTrades::new();
    assert!(parse_trade(&mut trades, &flex_trade("GLW", "STK", "BUY", "20240110", "100", "10")).unwrap());
    assert!(parse_trade(&mut trades, &flex_trade("GLW", "STK", "SELL", "20240610", "100", "15")).unwrap());
    assert!(!parse_trade(&mut trades, &flex_trade("GLW   240621C00050000", "OPT", "BUY", "20240110", "1", "1")).unwrap());
    assert_eq!(trades.stock_sells.len(), 1);

    let mut german = statement();
    let glw = StockSale {
        symbol: "GLW".to_string(),
        isin: String::new(),
        description: "GLW".to_string(),
        conclusion_date: ymd(2024, 6, 10),
        settle_date: ymd(2024, 6, 10),
        quantity: d("100"),
        is_trade: true,
        net_proceeds_eur: d("1350"),
        teilfreistellung_rate: TeilfreistellungRate::NotFund,
        lots: vec![SaleLot { open_date: ymd(2024, 1, 10), quantity: d("100"), cost_eur: d("900") }],
    };
    assert!(process_trades(&mut german, &vec![glw], &vec![], &vec![], 2024));
    german.calculate_totals();
    assert_eq!(german.total_capital_gains, d("450"));
    assert_eq!(german.capital_gains.len(), 1);
    assert_eq!(german.capital_gains[0].symbol, "GLW");
}

#[test]
fn a_year_is_computed_from_its_activity() {
    let activity = YearActivity {
        sales: vec![sale("AAPL", "", TeilfreistellungRate::NotFund, "1500", vec![lot(2020, "20", "1000")])],
        held_isins: vec![],
        vorabpauschale_carryforward: vec![],
        interest: vec![],
        interest_eur: vec![],
        fx_results: vec![],
        fx_taxation: ForeignCurrencyTaxation::InterestBearing,
        fees: vec![],
    };
    let (st, has_income) = compute_tax_year(2024, d("0"), d("0"), d("0"), d("100"), &activity).unwrap();
    assert!(has_income);
    assert_eq!(st.total_capital_gains, d("500"));
    assert_eq!(st.total_taxable_income, d("400"));
    assert_eq!(st.total_abgeltungssteuer, d("100"));
    assert!(compute_tax_year(2008, d("0"), d("0"), d("0"), d("100"), &activity).is_err());
}

/// AAPL: bought 100 at $10 and 100 at $20, sold 100 at $15 and 100 at $25, all at 0.9 EUR/USD.
/// FIFO gives each sale its own lot: gains of 450 and 450, 900 in all.
#[test]
fn fifo_cost_basis_consumes_lots() {
    let mut german = statement();
    let mut first = sale("AAPL", "", TeilfreistellungRate::NotFund, "1350", vec![lot(2024, "100", "900")]);
    first.conclusion_date = ymd(2024, 3, 11);
    let mut second = sale("AAPL", "", TeilfreistellungRate::NotFund, "2250", vec![lot(2024, "100", "1800")]);
    second.conclusion_date = ymd(2024, 4, 10);
    assert!(process_trades(&mut german, &vec![first, second], &vec![], &vec![], 2024));
    german.calculate_totals();
    assert_eq!(german.total_capital_gains, d("900"));
    assert_eq!(german.total_capital_losses, d("0"));
}

/// §19 InvStG: EUNL fully sold for a 2,000 gross gain with 300 accumulated Vorabpauschale:
/// taxable (2000 - 300) x 0.70 = 1,190, and KAP-INV carries the reduced 1,700.
#[test]
fn vorabpauschale_carryforward_reduces_fund_sale_gain() {
    let mut german = statement();
    let isin = "IE00B4L5Y983";
    let eunl = sale("EUNL", isin, TeilfreistellungRate::Equity, "10000", vec![lot(2020, "100", "8000")]);
    let carries = vec![(isin.to_string(), d("300"))];
    assert!(process_trades(&mut german, &vec![eunl], &vec![], &carries, 2024));
    german.calculate_totals();
    assert_eq!(german.capital_gains.len(), 1);
    let sale = &german.capital_gains[0];
    assert!(!sale.is_stock);
    assert_eq!(sale.gross_gain_loss, d("2000"));
    assert_eq!(sale.taxable_amount, d("1190"));
    assert!(sale.notes.as_deref().unwrap().contains("§19"));
    assert_eq!(sale.taxable_before_exemption, d("1700"));
    assert_eq!(german.kap_inv_equity.sale_gains, d("1700"));
    assert!(german.vorabpauschale.is_empty());
}
