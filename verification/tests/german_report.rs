use investments::date::{Date, DateTime, Period};
use investments::decimal::Decimal;
use investments::tax_statement::eur::format_eur;
use investments::tax_statement::germany::html::report::{render, HtmlReport};
use investments::tax_statement::germany::html::ReportMeta;
use investments::tax_statement::germany::report_details::{
    AssetCategory, BookingKind, BookingRow, FxRow, FxTreatment, LotSource, OpenLotRow, SaleLotRow,
    SaleWorksheet, SecurityRow, TradeRow, TradeSide, WithholdingRow,
};
use investments::tax_statement::germany::{CapitalGainEntry, DividendEntry, GermanTaxStatement};
use investments::tax_statement::html::format::{eur, punctuate};
use investments::taxes::germany::TeilfreistellungRate;

fn d(text: &str) -> Decimal {
    Decimal::parse(text).unwrap()
}

fn day(y: i32, m: u32, dd: u32) -> Date {
    Date::from_ymd_opt(y, m, dd).unwrap()
}

fn meta(year: i32) -> ReportMeta {
    ReportMeta {
        year,
        broker_name: "Interactive Brokers LLC".to_string(),
        portfolio_name: "ib".to_string(),
        account_id: Some("U1234567".to_string()),
        period: Period::new(day(year, 1, 1), day(year, 12, 31)).unwrap(),
        generated_at: DateTime { date: day(2026, 1, 15), hour: 12, minute: 0 },
    }
}

fn html_of(statement: &GermanTaxStatement) -> String {
    let mut out = String::new();
    HtmlReport::write(statement, &meta(statement.year), &mut out);
    out
}

fn offset(html: &str, needle: &str) -> usize {
    html.find(needle)
        .unwrap_or_else(|| panic!("{needle:?} not found in the report"))
}

fn gain(date: Date, gain: &str, cost: &str, proceeds: &str) -> CapitalGainEntry {
    CapitalGainEntry {
        transaction_date: date,
        settle_date: date,
        symbol: "AAPL".to_string(),
        isin: "US0378331005".to_string(),
        description: "APPLE INC".to_string(),
        quantity: d("10"),
        cost_basis_eur: d(cost),
        proceeds_eur: d(proceeds),
        gross_gain_loss: d(gain),
        taxable_before_exemption: d(gain),
        teilfreistellung_rate: TeilfreistellungRate::NotFund,
        is_stock: true,
        taxable_amount: d(gain),
        foreign_tax: d("0"),
        abgeltungssteuer: d("0"),
        solidaritaetszuschlag: d("0"),
        kirchensteuer: d("0"),
        total_tax: d("0"),
        pre_2009_holding: false,
        notes: None,
    }
}

fn worksheet(date: Date, gain: &str, cost: &str, proceeds: &str, trade_id: &str) -> SaleWorksheet {
    SaleWorksheet {
        symbol: "AAPL".to_string(),
        isin: "US0378331005".to_string(),
        name: "APPLE INC".to_string(),
        category: AssetCategory::Stock,
        sale_date: date,
        settle_date: date,
        trade_id: Some(trade_id.to_string()),
        quantity: d("10"),
        currency: "USD".to_string(),
        price: d("200"),
        gross: d("2000"),
        commission: d("1"),
        eur_per_unit: d("0.9"),
        proceeds_eur: d(proceeds),
        cost_basis_eur: d(cost),
        gain_loss_eur: d(gain),
        notes: None,
        lots: vec![SaleLotRow {
            open_date: day(2023, 3, 1),
            open_trade_id: Some("1000".to_string()),
            source: LotSource::Trade,
            quantity: d("10"),
            price: Some(d("150")),
            cost_eur: d(cost),
            proceeds_eur: d(proceeds),
            gain_loss_eur: d(gain),
            holding_days: 400,
            pre_2009: false,
        }],
    }
}

fn trade(date: Date, side: TradeSide, amount: &str, trade_id: &str) -> TradeRow {
    TradeRow {
        date,
        settle_date: date,
        trade_id: Some(trade_id.to_string()),
        symbol: "AAPL".to_string(),
        isin: "US0378331005".to_string(),
        name: "APPLE INC".to_string(),
        side,
        quantity: d("10"),
        currency: "USD".to_string(),
        price: d("150"),
        gross: d(amount),
        commission: d("-1"),
        net: d(amount),
        eur_per_unit: d("0.9"),
        amount_eur: d(amount),
    }
}

fn apple() -> SecurityRow {
    SecurityRow {
        symbol: "AAPL".to_string(),
        isin: "US0378331005".to_string(),
        name: "APPLE INC".to_string(),
        country_code: "US".to_string(),
        currency: "USD".to_string(),
        category: AssetCategory::Stock,
        teilfreistellung_rate: TeilfreistellungRate::NotFund,
    }
}

/// Two FIFO sales of one share with a total gain of 900 EUR, their trades and the security.
fn fifo_statement() -> GermanTaxStatement {
    let mut statement = GermanTaxStatement::new(2024, d("0"), d("0"), d("0"), d("0")).unwrap();
    statement.add_capital_gain(gain(day(2024, 5, 2), "400", "1350", "1750"));
    statement.add_capital_gain(gain(day(2024, 9, 3), "500", "1350", "1850"));
    statement.report.sales.push(worksheet(day(2024, 5, 2), "400", "1350", "1750", "2001"));
    statement.report.sales.push(worksheet(day(2024, 9, 3), "500", "1350", "1850", "2002"));
    statement.report.trades.push(trade(day(2024, 1, 10), TradeSide::Buy, "-1350", "1000"));
    statement.report.trades.push(trade(day(2024, 1, 11), TradeSide::Buy, "-1350", "1001"));
    statement.report.trades.push(trade(day(2024, 5, 2), TradeSide::Sell, "1750", "2001"));
    statement.report.trades.push(trade(day(2024, 9, 3), TradeSide::Sell, "1850", "2002"));
    statement.report.securities.push(apple());
    statement.calculate_totals();
    statement
}

#[test]
fn document_skeleton_and_section_order() {
    let statement = fifo_statement();
    let html = html_of(&statement);

    assert!(html.starts_with("<!DOCTYPE html>\n<html lang=\"de\">"));
    assert!(html.contains("<meta charset=\"utf-8\">"));
    assert!(html.contains("<title>Informativer Steuerbericht 2024</title>"));
    assert!(html.contains("@page { size: A4 landscape;"));
    assert!(html.contains("Konto-ID: U1234567"));
    assert!(html.contains("Haftungsausschluss"));

    let ids = [
        "id=\"inhalt\"",
        "id=\"steuerformulare\"",
        "id=\"steuerberechnung\"",
        "id=\"aktivitaet\"",
        "id=\"wertpapiere\"",
        "id=\"wertpapiergeschaefte\"",
        "id=\"wertpapiertransaktionen\"",
        "id=\"wertpapieruebersicht\"",
        "id=\"hinweise\"",
    ];
    let offsets: Vec<usize> = ids.iter().map(|id| offset(&html, id)).collect();
    assert!(
        offsets.windows(2).all(|pair| pair[0] < pair[1]),
        "sections out of order: {offsets:?}"
    );

    // The table of contents links every rendered section and nothing else.
    assert!(html.contains("href=\"#wertpapiergeschaefte\""));
    assert!(!html.contains("href=\"#quellensteuer\""));
    assert!(!html.contains("id=\"quellensteuer\""));
}

#[test]
fn amounts_are_the_statement_figures_in_german_notation() {
    let statement = fifo_statement();
    let html = html_of(&statement);

    // €900 total gain, KAP line 19, rendered as "900,00".
    assert_eq!(format_eur(statement.kap_zeile_19), "900.00");
    assert!(html.contains(">900,00<"));
    assert_eq!(
        eur(statement.kap_zeile_19),
        punctuate(&format_eur(statement.kap_zeile_19))
    );

    // Instrument name and ISIN reach the report.
    assert!(html.contains("APPLE INC"));
    assert!(html.contains("US0378331005"));
    assert!(html.contains("Vereinigte Staaten (US)"));
}

#[test]
fn markup_in_names_is_escaped() {
    let mut statement = fifo_statement();
    for security in &mut statement.report.securities {
        security.name = "A<B&C \"quoted\"".to_string();
    }
    for trade in &mut statement.report.trades {
        trade.name = "A<B&C \"quoted\"".to_string();
    }
    let html = html_of(&statement);

    assert!(html.contains("A&lt;B&amp;C &quot;quoted&quot;"));
    assert!(!html.contains("A<B&C"));
}

#[test]
fn lots_acquired_before_2009_are_marked_altbestand() {
    let mut statement = fifo_statement();
    assert!(!html_of(&statement).contains("Altbestand (vor 2009)"));

    statement.report.sales[0].lots[0].open_date = day(2008, 12, 31);
    assert!(html_of(&statement).contains("Altbestand (vor 2009)"));

    // The cutoff is exclusive: 1 January 2009 is already new stock.
    statement.report.sales[0].lots[0].open_date = day(2009, 1, 1);
    assert!(!html_of(&statement).contains("Altbestand (vor 2009)"));
}

#[test]
fn empty_statement_renders_title_and_form_table_only() {
    let mut statement = GermanTaxStatement::new(2024, d("0"), d("0"), d("0"), d("0")).unwrap();
    statement.calculate_totals();
    let html = html_of(&statement);

    assert!(html.contains("id=\"steuerformulare\""));
    assert!(html.contains("id=\"steuerberechnung\""));
    assert!(html.contains("id=\"hinweise\""));
    for id in [
        "aktivitaet",
        "wertpapiere",
        "buchungen",
        "quellensteuer",
        "wertpapiergeschaefte",
        "wertpapiertransaktionen",
        "fremdwaehrung",
        "offene-positionen",
        "vorabpauschale",
        "wertpapieruebersicht",
    ] {
        assert!(
            !html.contains(&format!("id=\"{id}\"")),
            "{id} should be omitted"
        );
    }
}

#[test]
fn render_and_write_give_the_same_document() {
    let statement = fifo_statement();
    let mut out = String::from("prefix");
    HtmlReport::write(&statement, &meta(2024), &mut out);
    assert_eq!(out, format!("prefix{}", render(&statement, &meta(2024))));
    assert!(out.ends_with("</body>\n</html>\n"));
}

#[test]
fn activity_overview_keeps_gains_and_losses_apart() {
    let mut statement = fifo_statement();
    statement.add_capital_gain(gain(day(2024, 11, 5), "-150", "1500", "1350"));
    statement.calculate_totals();
    let html = html_of(&statement);

    // Sales of shares: 900 gain, -150 loss, 750 balance, routed to KAP line 20 (net gain).
    let start = offset(&html, "id=\"aktivitaet\"");
    let section = &html[start..];
    let end = section.find("</section>").unwrap();
    let section = &section[..end];
    assert!(section.contains("Veräußerungen"));
    assert!(section.contains(">900,00<"));
    assert!(section.contains(">-150,00<"));
    assert!(section.contains(">750,00<"));
    assert!(section.contains("Gewinn 750,00 EUR → KAP Zeile 20 | Netto → KAP Zeile 19"));
    assert!(section.contains("GESAMT"));
    // Lines that stay zero (interest, fees, …) are left out.
    assert!(!section.contains("Guthabenzinsen"));
}

#[test]
fn security_overview_has_subtotals_per_activity() {
    let mut statement = fifo_statement();
    statement.add_dividend(DividendEntry {
        payment_date: day(2024, 6, 1),
        symbol: "AAPL".to_string(),
        isin: "US0378331005".to_string(),
        description: "AAPL dividend".to_string(),
        quantity: d("10"),
        gross_amount_eur: d("12.50"),
        foreign_withholding_tax: d("0"),
        teilfreistellung_rate: TeilfreistellungRate::NotFund,
        taxable_amount: d("12.50"),
        abgeltungssteuer: d("0"),
        solidaritaetszuschlag: d("0"),
        kirchensteuer: d("0"),
        foreign_tax_credit: d("0"),
        total_tax: d("0"),
        net_tax: d("0"),
        notes: None,
    });
    statement.calculate_totals();
    let html = html_of(&statement);

    let start = offset(&html, "id=\"wertpapiere\"");
    let section = &html[start..];
    let section = &section[..section.find("</section>").unwrap()];
    // The security's name comes from the security overview, not from the symbol.
    assert!(section.contains("APPLE INC"));
    assert!(section.contains("<h3>Aktien</h3>"));
    assert!(section.contains("Gesamt – Dividenden"));
    assert!(section.contains("Gesamt – Veräußerungen"));
    assert!(section.contains(">12,50<"));
    // Total: 900 + 12.50.
    assert!(section.contains(">912,50<"));
    // Dividends come before sales.
    assert!(offset(section, ">Dividenden<") < offset(section, ">Veräußerungen<"));
}

fn withholding_statement() -> GermanTaxStatement {
    let mut statement = GermanTaxStatement::new(2024, d("0"), d("0"), d("0"), d("0")).unwrap();
    statement.report.withholding.push(WithholdingRow {
        date: day(2024, 6, 13),
        symbol: "MSFT".to_string(),
        isin: "US5949181045".to_string(),
        name: "MICROSOFT CORP".to_string(),
        country_code: "US".to_string(),
        category: AssetCategory::Stock,
        currency: "USD".to_string(),
        gross: d("75"),
        gross_eur: d("67.50"),
        withheld: d("11.25"),
        withheld_eur: d("10.13"),
        withholding_rate: d("0.15"),
        creditable_eur: d("10.13"),
    });
    statement.report.bookings.push(BookingRow {
        kind: BookingKind::Interest,
        date: day(2024, 7, 1),
        symbol: String::new(),
        isin: String::new(),
        name: String::new(),
        category: None,
        description: "USD credit interest".to_string(),
        currency: "USD".to_string(),
        amount: d("5"),
        eur_per_unit: d("0.9"),
        amount_eur: d("4.50"),
    });
    statement.report.bookings.push(BookingRow {
        kind: BookingKind::Dividend,
        date: day(2024, 6, 13),
        symbol: "MSFT".to_string(),
        isin: "US5949181045".to_string(),
        name: "MICROSOFT CORP".to_string(),
        category: Some(AssetCategory::Stock),
        description: "MSFT cash dividend".to_string(),
        currency: "USD".to_string(),
        amount: d("75"),
        eur_per_unit: d("0.9"),
        amount_eur: d("67.50"),
    });
    statement.report.open_lots.push(OpenLotRow {
        symbol: "MSFT".to_string(),
        isin: "US5949181045".to_string(),
        name: "MICROSOFT CORP".to_string(),
        category: AssetCategory::Stock,
        open_date: day(2024, 1, 5),
        trade_id: Some("4242".to_string()),
        source: LotSource::Trade,
        quantity: d("10"),
        currency: "USD".to_string(),
        price: Some(d("100")),
        cost_eur: d("900.9"),
    });
    statement.calculate_totals();
    statement
}

#[test]
fn withholding_bookings_and_open_lots_render() {
    let statement = withholding_statement();
    let html = html_of(&statement);

    assert!(html.contains("id=\"quellensteuer\""));
    assert!(html.contains("id=\"buchungen\""));
    assert!(html.contains("id=\"offene-positionen\""));
    assert!(html.contains("Vereinigte Staaten (US)"));
    assert!(html.contains(">4242<"));
    // Withheld tax is shown as an outflow, the observed rate with one place.
    assert!(html.contains(">-10,13<"));
    assert!(html.contains(">15 %<"));
    // Bookings: dividends before interest, whatever the input order.
    assert!(offset(&html, "<h3>Dividenden und Ausschüttungen</h3>") < offset(&html, "<h3>Guthabenzinsen</h3>"));
    // Open lot: cost, price with currency, and the as-of day.
    assert!(html.contains(">900,90<"));
    assert!(html.contains(">100,00 USD<"));
    assert!(html.contains("verbleibende Bestände zum 31.12.2024"));
    assert!(html.contains("Gesamt – MICROSOFT CORP"));
}

#[test]
fn open_lots_of_funds_are_listed_under_their_class() {
    let mut statement = withholding_statement();
    statement.report.open_lots.push(OpenLotRow {
        symbol: "EUNL".to_string(),
        isin: "IE00B4L5Y983".to_string(),
        name: "ISHARES CORE MSCI WORLD".to_string(),
        category: AssetCategory::EquityFund,
        open_date: day(2024, 2, 1),
        trade_id: None,
        source: LotSource::Trade,
        quantity: d("100"),
        currency: "EUR".to_string(),
        price: Some(d("80")),
        cost_eur: d("8000"),
    });
    statement.report.open_lots_as_of = Some(day(2024, 12, 31));
    let html = html_of(&statement);

    assert!(html.contains("id=\"offene-positionen\""));
    assert!(html.contains("<h3>Aktienfonds</h3>"));
    // Shares first, then equity funds, each with its own total.
    assert!(offset(&html, "<h3>Aktien</h3>") < offset(&html, "<h3>Aktienfonds</h3>"));
    assert!(html.contains(">8.000,00<"));
}

#[test]
fn a_statement_past_the_year_end_warns_about_later_sales() {
    let statement = withholding_statement();
    let mut late = meta(2024);
    late.period = Period::new(day(2024, 1, 1), day(2025, 2, 28)).unwrap();
    let html = render(&statement, &late);
    assert!(html.contains("Der Kontoauszug reicht bis 28.02.2025"));
    assert!(!html_of(&statement).contains("Der Kontoauszug reicht bis"));
}

#[test]
fn fx_rows_render_with_their_treatment() {
    let mut statement = GermanTaxStatement::new(2024, d("0"), d("0"), d("0"), d("0")).unwrap();
    statement.report.fx_rows.push(FxRow {
        currency: "USD".to_string(),
        date: day(2024, 3, 1),
        transaction_id: "7001".to_string(),
        activity_code: "FOREX".to_string(),
        units: d("1000"),
        eur_per_unit: d("0.88"),
        amount_eur: d("880"),
        open_date: None,
        open_eur_per_unit: None,
        open_value_eur: None,
        gain_loss_eur: None,
        balance_after: d("1000"),
        holding_days: None,
        treatment: None,
    });
    statement.report.fx_rows.push(FxRow {
        currency: "USD".to_string(),
        date: day(2024, 3, 15),
        transaction_id: "7002".to_string(),
        activity_code: "BUY".to_string(),
        units: d("-1000"),
        eur_per_unit: d("0.9"),
        amount_eur: d("-900"),
        open_date: Some(day(2024, 3, 1)),
        open_eur_per_unit: Some(d("0.88")),
        open_value_eur: Some(d("880")),
        gain_loss_eur: Some(d("20")),
        balance_after: d("0"),
        holding_days: Some(14),
        treatment: Some(FxTreatment::Section20Taxable),
    });
    statement.calculate_totals();
    let html = html_of(&statement);

    assert!(html.contains("id=\"fremdwaehrung\""));
    assert!(html.contains("USD – Fremdwährungskonto"));
    assert!(html.contains("§20 steuerpflichtig"));
    assert!(html.contains(">20,00<"));
}
