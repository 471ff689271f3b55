use investments::date::Date;
use investments::decimal::Decimal;
use investments::tax_statement::eur::format_eur;
use investments::tax_statement::germany::csv_formatter::kap_inv_zeilen;
use investments::tax_statement::germany::statement::{
    CashGrantEntry, CorporateActionEntry, CorporateActionType, FeeEntry, StockGrantEntry,
    VorabpauschaleEntry,
};
use investments::tax_statement::germany::{
    CapitalGainEntry, CsvFormatter, DividendEntry, FxGainEntry, GermanTaxStatement, InterestEntry,
};
use investments::taxes::germany::TeilfreistellungRate;

fn d(text: &str) -> Decimal {
    Decimal::parse(text).unwrap()
}

/// The shared EUR formatter rounds half away from zero, the German tax-form convention.
#[test]
fn format_eur_rounds_half_away_from_zero() {
    assert_eq!(format_eur(d("12.325")), "12.33");
    assert_eq!(format_eur(d("-12.325")), "-12.33");
    assert_eq!(format_eur(d("0")), "0.00");
    assert_eq!(format_eur(d("29.35")), "29.35");
}

/// Reported figures are rounded half-up to two places, not truncated.
#[test]
fn format_decimal_rounds_half_up_to_two_places() {
    assert_eq!(CsvFormatter::format_decimal(d("0.518")), "0.52");
    assert_eq!(CsvFormatter::format_decimal(d("0.015675")), "0.02");
    assert_eq!(CsvFormatter::format_decimal(d("1.5")), "1.50");
    assert_eq!(CsvFormatter::format_decimal(d("2")), "2.00");
    assert_eq!(CsvFormatter::format_decimal(d("-0.125")), "-0.13");
}

/// The KAP-INV Zeilen are pinned to the official forms: Ausschüttungen on 4 / 5 / 8,
/// Vorabpauschalen on 9 / 10 / 13, Veräußerung on 14 / 17 / 26.
#[test]
fn kap_inv_zeilen_match_the_official_form() {
    assert_eq!(kap_inv_zeilen(TeilfreistellungRate::Equity), Some((4, 9, 14)));
    assert_eq!(kap_inv_zeilen(TeilfreistellungRate::Mixed), Some((5, 10, 17)));
    assert_eq!(kap_inv_zeilen(TeilfreistellungRate::Bond), Some((8, 13, 26)));
    assert_eq!(kap_inv_zeilen(TeilfreistellungRate::NotFund), None);
}

fn render(write: impl FnOnce(&mut String)) -> String {
    let mut buf = String::new();
    write(&mut buf);
    buf.trim_end().to_string()
}

/// The Anlage KAP block emits exactly the five lines the tool fills, each pinned to the official
/// form: 19, 20, 22, 23, 41.
#[test]
fn kap_summary_rows_carry_the_official_zeilen() {
    let mut statement = GermanTaxStatement::new(2024, d("0"), d("0"), d("0"), d("0")).unwrap();
    statement.kap_zeile_19 = d("1000");
    statement.kap_zeile_20 = d("400");
    statement.kap_zeile_22 = d("50");
    statement.kap_zeile_23 = d("25");
    statement.kap_zeile_41 = d("15");

    let output = render(|w| CsvFormatter::write_summary_rows(w, &statement));
    let keys: Vec<&str> = output
        .lines()
        .filter(|line| line.starts_with("KAP_ZEILE_"))
        .map(|line| line.split(',').next().unwrap())
        .collect();
    assert_eq!(
        keys,
        ["KAP_ZEILE_19", "KAP_ZEILE_20", "KAP_ZEILE_22", "KAP_ZEILE_23", "KAP_ZEILE_41"]
    );
    assert!(output.contains("KAP_ZEILE_19,Ausländische Kapitalerträge"));
    assert!(output.contains("KAP_ZEILE_41,Anrechenbare ausländische Steuer"));
}

const COLUMNS: usize = 21;

fn date() -> Date {
    Date::from_ymd_opt(2024, 6, 15).unwrap()
}

fn interest() -> InterestEntry {
    InterestEntry {
        payment_date: date(),
        description: "idle cash".to_string(),
        gross_amount_eur: d("25"),
        foreign_withholding_tax: d("0"),
        taxable_amount: d("25"),
        abgeltungssteuer: d("6.25"),
        solidaritaetszuschlag: d("0.34"),
        kirchensteuer: d("0"),
        foreign_tax_credit: d("0"),
        total_tax: d("6.59"),
        net_tax: d("6.59"),
        notes: None,
    }
}

fn fx() -> FxGainEntry {
    FxGainEntry {
        transaction_date: date(),
        currency_pair: "EUR.USD".to_string(),
        description: "conversion".to_string(),
        gross_amount_eur: d("10"),
        taxable_amount: d("10"),
        abgeltungssteuer: d("2.5"),
        solidaritaetszuschlag: d("0.14"),
        kirchensteuer: d("0"),
        total_tax: d("2.64"),
        notes: None,
    }
}

fn dividend() -> DividendEntry {
    DividendEntry {
        payment_date: date(),
        symbol: "ACME".to_string(),
        isin: "US0000000001".to_string(),
        description: "dividend".to_string(),
        quantity: d("0"),
        gross_amount_eur: d("50"),
        foreign_withholding_tax: d("0"),
        teilfreistellung_rate: TeilfreistellungRate::NotFund,
        taxable_amount: d("50"),
        abgeltungssteuer: d("12.5"),
        solidaritaetszuschlag: d("0.69"),
        kirchensteuer: d("0"),
        foreign_tax_credit: d("0"),
        total_tax: d("13.19"),
        net_tax: d("13.19"),
        notes: None,
    }
}

/// Every transaction row carries the full 21-column shape and uses empty cells, never the "N/A"
/// placeholder, for inapplicable numeric fields.
#[test]
fn transaction_rows_are_21_columns_without_na() {
    let rows = [
        render(|w| CsvFormatter::write_interest_row(w, &interest())),
        render(|w| CsvFormatter::write_fx_gain_row(w, &fx())),
        render(|w| {
            CsvFormatter::write_fee_row(
                w,
                &FeeEntry {
                    date: date(),
                    description: "ADR fee".to_string(),
                    amount_eur: d("2"),
                    notes: None,
                },
            )
        }),
        render(|w| {
            CsvFormatter::write_stock_grant_row(
                w,
                &StockGrantEntry {
                    vest_date: date(),
                    symbol: "ACME".to_string(),
                    isin: "US0000000001".to_string(),
                    quantity: d("10"),
                    fmv_per_share_eur: d("5"),
                    total_fmv_eur: d("50"),
                    notes: None,
                },
            )
        }),
        render(|w| {
            CsvFormatter::write_cash_grant_row(
                w,
                &CashGrantEntry {
                    date: date(),
                    description: "bonus".to_string(),
                    amount_eur: d("100"),
                    notes: None,
                },
            )
        }),
        render(|w| {
            CsvFormatter::write_corporate_action_row(
                w,
                &CorporateActionEntry {
                    date: date(),
                    action_type: CorporateActionType::Spinoff,
                    symbol: "ACME".to_string(),
                    description: "spinoff".to_string(),
                    tax_impact_eur: None,
                    notes: None,
                },
            )
        }),
    ];

    for row in &rows {
        assert_eq!(row.split(',').count(), COLUMNS, "wrong column count: {row}");
        assert!(!row.contains("N/A"), "row still emits N/A placeholder: {row}");
    }
}

/// A dividend record carries no share quantity, so the quantity cell is empty, not "0.00".
#[test]
fn dividend_quantity_cell_is_empty() {
    let row = render(|w| CsvFormatter::write_dividend_row(w, &dividend()));
    assert_eq!(row.split(',').count(), COLUMNS);
    assert_eq!(row.split(',').nth(6), Some(""), "quantity cell should be empty");
}

/// `gross_gain_loss_eur` and `gross_amount_eur` are distinct columns; each row type populates its
/// own and leaves the other empty.
#[test]
fn gross_value_lands_in_the_named_column() {
    let header = render(CsvFormatter::write_header);
    let columns: Vec<String> = header.split(',').map(str::to_string).collect();
    let cell = |row: &str, name: &str| -> String {
        let idx = columns.iter().position(|c| c == name).expect("column present");
        row.split(',').nth(idx).expect("cell present").to_string()
    };

    let capital_gain = render(|w| {
        CsvFormatter::write_capital_gain_row(
            w,
            &CapitalGainEntry {
                transaction_date: date(),
                settle_date: date(),
                symbol: "ACME".to_string(),
                isin: "US0000000001".to_string(),
                description: "sold 10 ACME".to_string(),
                quantity: d("10"),
                cost_basis_eur: d("1000"),
                proceeds_eur: d("1250"),
                gross_gain_loss: d("250"),
                taxable_before_exemption: d("250"),
                teilfreistellung_rate: TeilfreistellungRate::NotFund,
                is_stock: true,
                taxable_amount: d("250"),
                foreign_tax: d("0"),
                abgeltungssteuer: d("62.5"),
                solidaritaetszuschlag: d("3.44"),
                kirchensteuer: d("0"),
                total_tax: d("65.94"),
                pre_2009_holding: false,
                notes: None,
            },
        )
    });
    assert_eq!(cell(&capital_gain, "gross_gain_loss_eur"), "250.00");
    assert_eq!(cell(&capital_gain, "gross_amount_eur"), "");

    let dividend = render(|w| CsvFormatter::write_dividend_row(w, &dividend()));
    assert_eq!(cell(&dividend, "gross_amount_eur"), "50.00");
    assert_eq!(cell(&dividend, "gross_gain_loss_eur"), "");

    let interest = render(|w| CsvFormatter::write_interest_row(w, &interest()));
    assert_eq!(cell(&interest, "gross_amount_eur"), "25.00");
    assert_eq!(cell(&interest, "gross_gain_loss_eur"), "");

    let fx = render(|w| CsvFormatter::write_fx_gain_row(w, &fx()));
    assert_eq!(cell(&fx, "gross_amount_eur"), "10.00");
    assert_eq!(cell(&fx, "gross_gain_loss_eur"), "");
}

/// KAP-INV rows live in the 3-column summary block; the group labels carry no commas of their own.
#[test]
fn kap_inv_rows_are_three_columns() {
    let mut statement = GermanTaxStatement::new(2024, d("0"), d("0"), d("0"), d("0")).unwrap();
    statement.kap_inv_equity.distributions = d("700");
    statement.kap_inv_mixed.sale_gains = d("120.5");
    statement.kap_inv_other.sale_losses = d("40");

    let output = render(|w| CsvFormatter::write_kap_inv_section(w, &statement));
    let kap_rows: Vec<&str> = output.lines().filter(|line| line.starts_with("KAP_INV_")).collect();

    assert_eq!(
        kap_rows.len(),
        12,
        "three groups × four figures (distributions, net Veräußerung, gross gains, gross losses)"
    );
    for row in kap_rows {
        assert_eq!(
            row.split(',').count(),
            3,
            "KAP-INV row must stay within the summary block's 3 columns: {row}"
        );
    }
}

/// Short positions render one flagged row per holding under a manual-review banner, carrying the
/// signed quantity, and no such section appears when there are none.
#[test]
fn short_positions_render_a_manual_review_section() {
    let mut statement = GermanTaxStatement::new(2024, d("0"), d("0"), d("0"), d("0")).unwrap();
    statement.short_positions = vec![("TSLA".to_string(), d("-50"))];

    let output = render(|w| CsvFormatter::write_short_positions(w, &statement));
    assert!(output.contains("MANUAL §20 EStG REVIEW REQUIRED"));
    let rows: Vec<&str> = output.lines().filter(|line| line.starts_with("SHORT_POSITION,")).collect();
    assert_eq!(rows.len(), 1);
    assert!(rows[0].ends_with("-50.00"), "row must carry the signed quantity: {}", rows[0]);

    let empty = GermanTaxStatement::new(2024, d("0"), d("0"), d("0"), d("0")).unwrap();
    let empty_output = render(|w| CsvFormatter::write_short_positions(w, &empty));
    assert!(empty_output.is_empty(), "no section without short positions");
}

/// A cell with a comma or a quote is quoted, its quotes doubled; any other stays as it is.
#[test]
fn escape_csv_quotes_only_where_needed() {
    assert_eq!(CsvFormatter::escape_csv("plain"), "plain");
    assert_eq!(CsvFormatter::escape_csv("AB,C"), "\"AB,C\"");
    assert_eq!(CsvFormatter::escape_csv("say \"hi\""), "\"say \"\"hi\"\"\"");
    assert_eq!(CsvFormatter::escape_csv("line\nbreak"), "\"line\nbreak\"");
    assert_eq!(CsvFormatter::escape_csv(""), "");
}

/// A corporate action's type and description form one escaped cell.
#[test]
fn corporate_action_label_and_description_share_one_cell() {
    let row = render(|w| {
        CsvFormatter::write_corporate_action_row(
            w,
            &CorporateActionEntry {
                date: date(),
                action_type: CorporateActionType::Other("StockDividend".to_string()),
                symbol: "ACME".to_string(),
                description: "spinoff of ACME, Inc.".to_string(),
                tax_impact_eur: Some(d("12.345")),
                notes: None,
            },
        )
    });
    assert!(row.contains(",\"Other: StockDividend - spinoff of ACME, Inc.\","));
    assert!(row.contains(",12.35,,12.35,"));
    assert!(row.starts_with("Corporate Action,15.06.2024,15.06.2024,ACME,,"));
}

/// The §23 section reports the short-term net and the Freigrenze of the year.
#[test]
fn section23_section_reports_net_and_freigrenze() {
    let mut statement = GermanTaxStatement::new(2024, d("0"), d("0"), d("0"), d("0")).unwrap();
    statement.section23.short_term_gains = d("300");
    statement.section23.short_term_losses = d("120.5");
    let output = render(|w| CsvFormatter::write_section23(w, &statement));
    assert!(output.contains("SECTION23_SHORT_TERM_NET,Veräußerungsgeschäfte gehalten ≤ 1 Jahr — netto,179.50"));
    assert!(output.contains("SECTION23_FREIGRENZE,Freigrenze 2024 "));
    assert!(output.ends_with(",1000.00"));
    assert!(!output.contains("SECTION23_LONG_TERM_TAX_FREE"));

    let empty = GermanTaxStatement::new(2023, d("0"), d("0"), d("0"), d("0")).unwrap();
    assert!(render(|w| CsvFormatter::write_section23(w, &empty)).is_empty());
}

#[test]
fn corporate_action_cell_is_escaped_as_a_unit() {
    let row = render(|w| {
        CsvFormatter::write_corporate_action_row(
            w,
            &CorporateActionEntry {
                date: date(),
                action_type: CorporateActionType::Spinoff,
                symbol: "ACME".to_string(),
                description: "spinoff of ACME, Inc. sub-unit".to_string(),
                tax_impact_eur: None,
                notes: None,
            },
        )
    });
    let mut reader = csv::ReaderBuilder::new()
        .has_headers(false)
        .from_reader(row.as_bytes());
    let record = reader.records().next().unwrap().unwrap();
    assert_eq!(record.len(), COLUMNS, "escaped comma broke the field count");
    assert_eq!(&record[5], "Spinoff - spinoff of ACME, Inc. sub-unit");
}

#[test]
fn short_position_symbol_with_comma_stays_one_field() {
    let mut statement = GermanTaxStatement::new(2024, d("0"), d("0"), d("0"), d("0")).unwrap();
    statement.short_positions = vec![("AB,C".to_string(), d("-10"))];

    let output = render(|w| CsvFormatter::write_short_positions(w, &statement));
    let row = output
        .lines()
        .find(|line| line.starts_with("SHORT_POSITION,"))
        .expect("short-position row present");
    let mut reader = csv::ReaderBuilder::new()
        .has_headers(false)
        .from_reader(row.as_bytes());
    let record = reader.records().next().unwrap().unwrap();
    assert_eq!(record.len(), 3, "comma in symbol broke the field count: {row}");
    assert!(
        record[1].contains("AB,C"),
        "label must preserve the symbol: {}",
        &record[1]
    );
    assert_eq!(&record[2], "-10.00");
}

/// A fund symbol containing a comma must not split a VORABPAUSCHALE_* row: the whole label cell
/// is escaped as a unit, so a quote-aware parser still reads exactly three fields.
#[test]
fn vorabpauschale_symbol_with_comma_stays_one_field() {
    let mut statement = GermanTaxStatement::new(2024, d("0"), d("0"), d("0"), d("0")).unwrap();
    statement.add_vorabpauschale(VorabpauschaleEntry {
        arising_year: 2024,
        deemed_received: Date::from_ymd_opt(2025, 1, 2).unwrap(),
        symbol: "AB,C".to_string(),
        isin: "IE00B4L5Y983".to_string(),
        quantity: d("100"),
        nav_jan1: d("8000"),
        nav_dec31: d("9200"),
        distributions: d("0"),
        basiszins: d("0.0229"),
        teilfreistellung_rate: TeilfreistellungRate::Equity,
        gross_vorabpauschale: d("128.24"),
        taxable_amount: d("89.77"),
        abgeltungssteuer: d("0"),
        solidaritaetszuschlag: d("0"),
        kirchensteuer: d("0"),
        total_tax: d("0"),
        accumulated_after: d("128.24"),
        notes: None,
    });

    let output = render(|w| CsvFormatter::write_vorabpauschale(w, &statement));
    let row = output
        .lines()
        .find(|line| line.starts_with("VORABPAUSCHALE_GROSS,"))
        .expect("Vorabpauschale gross row present");
    let mut reader = csv::ReaderBuilder::new()
        .has_headers(false)
        .from_reader(row.as_bytes());
    let record = reader.records().next().unwrap().unwrap();
    assert_eq!(record.len(), 3, "comma in symbol broke the field count: {row}");
    assert!(
        record[1].contains("AB,C"),
        "label must preserve the symbol: {}",
        &record[1]
    );
    assert_eq!(&record[2], "128.24");
}
