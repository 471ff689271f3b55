use std::time::Instant;

use investments::date::Date;
use investments::decimal::Decimal;
use investments::tax_statement::eur::round_eur;
use investments::tax_statement::germany::processor::apply_teilfreistellung;
use investments::tax_statement::germany::statement::{
    CashGrantEntry, CorporateActionEntry, CorporateActionType, FeeEntry, StockGrantEntry,
    VorabpauschaleEntry,
};
use investments::tax_statement::germany::{
    CapitalGainEntry, CsvFormatter, DividendEntry, FxGainEntry, GermanTaxStatement, InterestEntry,
};
use investments::taxes::germany::{GermanTaxRates, TeilfreistellungRate};

fn d(text: &str) -> Decimal {
    Decimal::parse(text).unwrap()
}

#[test]
fn test_teilfreistellung_application() {
    let gross = d("1000");

    // None (regular stocks): 0% exemption, 100% taxable
    assert_eq!(
        apply_teilfreistellung(gross, &TeilfreistellungRate::NotFund),
        d("1000")
    );

    // Equity ETF: 30% exemption, 70% taxable
    assert_eq!(
        apply_teilfreistellung(gross, &TeilfreistellungRate::Equity),
        d("700")
    );

    // Mixed ETF: 15% exemption, 85% taxable
    assert_eq!(
        apply_teilfreistellung(gross, &TeilfreistellungRate::Mixed),
        d("850")
    );

    // Bond ETF: 0% exemption, 100% taxable
    assert_eq!(
        apply_teilfreistellung(gross, &TeilfreistellungRate::Bond),
        d("1000")
    );
}

/// End-to-end test: Create statement entries manually and verify CSV output.
#[test]
fn test_end_to_end_csv_generation() {
    // Create a German tax statement for 2024
    let mut statement =
        GermanTaxStatement::new(2024, d("0.08"), d("0"), d("0"), d("0")).unwrap(); // 8% church tax

    // Add a capital gain entry (sold stock with profit)
    let capital_gain = CapitalGainEntry {
        transaction_date: Date::from_ymd_opt(2024, 6, 15).unwrap(),
        settle_date: Date::from_ymd_opt(2024, 6, 17).unwrap(),
        symbol: "AAPL".to_string(),
        isin: "US0378331005".to_string(),
        description: "Apple Inc.".to_string(),
        quantity: d("10"),
        cost_basis_eur: d("1500.00"),
        proceeds_eur: d("2000.00"),
        gross_gain_loss: d("500.00"),
        taxable_before_exemption: d("500.00"),
        teilfreistellung_rate: TeilfreistellungRate::NotFund,
        is_stock: true,
        taxable_amount: d("500.00"),
        foreign_tax: d("0"),
        abgeltungssteuer: d("125.00"),     // 25% of 500
        solidaritaetszuschlag: d("6.875"), // 5.5% of 125
        kirchensteuer: d("10.00"),         // 8% of 125
        total_tax: d("141.875"),
        pre_2009_holding: false,
        notes: None,
    };
    statement.add_capital_gain(capital_gain);

    // Add a capital loss entry
    let capital_loss = CapitalGainEntry {
        transaction_date: Date::from_ymd_opt(2024, 9, 10).unwrap(),
        settle_date: Date::from_ymd_opt(2024, 9, 12).unwrap(),
        symbol: "MSFT".to_string(),
        isin: "US5949181045".to_string(),
        description: "Microsoft Corporation".to_string(),
        quantity: d("5"),
        cost_basis_eur: d("1800.00"),
        proceeds_eur: d("1600.00"),
        gross_gain_loss: d("-200.00"),
        taxable_before_exemption: d("-200.00"),
        teilfreistellung_rate: TeilfreistellungRate::NotFund,
        is_stock: true,
        taxable_amount: d("-200.00"),
        foreign_tax: d("0"),
        abgeltungssteuer: d("0"),
        solidaritaetszuschlag: d("0"),
        kirchensteuer: d("0"),
        total_tax: d("0"),
        pre_2009_holding: false,
        notes: None,
    };
    statement.add_capital_gain(capital_loss);

    // Add a dividend entry
    let dividend = DividendEntry {
        payment_date: Date::from_ymd_opt(2024, 3, 15).unwrap(),
        symbol: "AAPL".to_string(),
        isin: "US0378331005".to_string(),
        description: "Apple Inc.".to_string(),
        quantity: d("100"),
        gross_amount_eur: d("50.00"),
        foreign_withholding_tax: d("7.50"), // 15% US withholding
        teilfreistellung_rate: TeilfreistellungRate::NotFund,
        taxable_amount: d("50.00"),
        abgeltungssteuer: d("12.50"),       // 25% of 50
        solidaritaetszuschlag: d("0.6875"), // 5.5% of 12.50
        kirchensteuer: d("1.00"),           // 8% of 12.50
        foreign_tax_credit: d("7.50"),      // Full credit (within 15% limit)
        total_tax: d("14.1875"),
        net_tax: d("6.6875"), // 14.1875 - 7.50
        notes: None,
    };
    statement.add_dividend(dividend);

    // Add an interest entry
    let interest = InterestEntry {
        payment_date: Date::from_ymd_opt(2024, 12, 31).unwrap(),
        description: "Idle cash interest - USD".to_string(),
        gross_amount_eur: d("25.00"),
        foreign_withholding_tax: d("0"),
        taxable_amount: d("25.00"),
        abgeltungssteuer: d("6.25"),         // 25% of 25
        solidaritaetszuschlag: d("0.34375"), // 5.5% of 6.25
        kirchensteuer: d("0.50"),            // 8% of 6.25
        foreign_tax_credit: d("0"),
        total_tax: d("7.09375"),
        net_tax: d("7.09375"),
        notes: None,
    };
    statement.add_interest(interest);

    // Calculate totals
    statement.calculate_totals();

    // Verify totals
    assert_eq!(statement.capital_gains.len(), 2);
    assert_eq!(statement.dividends.len(), 1);
    assert_eq!(statement.interest.len(), 1);

    // Capital gains: 500 gain, 200 loss offset
    assert_eq!(statement.total_capital_gains, d("500.00"));
    assert_eq!(statement.total_capital_losses, d("200.00"));
    assert_eq!(statement.total_dividend_income, d("50.00"));
    assert_eq!(statement.total_interest_income, d("25.00"));

    // Generate CSV output
    let csv_string = CsvFormatter::write(&statement);

    // Verify CSV structure
    let lines: Vec<&str> = csv_string.lines().collect();

    // Header + 2 capital gains + 1 dividend + 1 interest + 10 summary lines = 15 lines
    assert!(
        lines.len() >= 14,
        "Expected at least 14 lines, got {}",
        lines.len()
    );

    // Check header
    assert!(lines[0].starts_with("transaction_type,transaction_date"));

    // Check capital gain row exists
    assert!(csv_string.contains("Capital Gain"));
    assert!(csv_string.contains("AAPL"));
    assert!(csv_string.contains("US0378331005"));

    // Check dividend row exists
    assert!(csv_string.contains("Dividend"));

    // Check interest row exists
    assert!(csv_string.contains("Interest"));

    // Check summary rows exist
    assert!(csv_string.contains("SUMMARY_TOTAL_TAXABLE_INCOME"));
    assert!(csv_string.contains("SUMMARY_NET_TAX_DUE"));
}

/// Test that the statement correctly handles pre-2009 (Altbestand) holdings.
#[test]
fn test_pre_2009_altbestand_handling() {
    let mut statement =
        GermanTaxStatement::new(2024, d("0"), d("0"), d("0"), d("0")).unwrap();

    // Pre-2009 holding should be tax-exempt
    let altbestand_gain = CapitalGainEntry {
        transaction_date: Date::from_ymd_opt(2024, 5, 1).unwrap(),
        settle_date: Date::from_ymd_opt(2024, 5, 3).unwrap(),
        symbol: "OLD".to_string(),
        isin: "DE000OLD0001".to_string(),
        description: "Old Stock".to_string(),
        quantity: d("100"),
        cost_basis_eur: d("1000.00"),
        proceeds_eur: d("5000.00"),
        gross_gain_loss: d("4000.00"),
        // Pure Altbestand: all profit is pre-2009 excluded, so the pre-Teilfreistellung base is 0.
        taxable_before_exemption: d("0"),
        teilfreistellung_rate: TeilfreistellungRate::NotFund,
        is_stock: true,
        // Post-T2 a pure Altbestand sale has its pre-2009 profit excluded, so the taxable
        // amount is zero even though the gross gain is €4,000.
        taxable_amount: d("0"),
        foreign_tax: d("0"),
        abgeltungssteuer: d("0"), // Tax exempt!
        solidaritaetszuschlag: d("0"),
        kirchensteuer: d("0"),
        total_tax: d("0"),
        pre_2009_holding: true,
        notes: Some("Altbestand (pre-2009) - tax exempt".to_string()),
    };
    statement.add_capital_gain(altbestand_gain);

    statement.calculate_totals();

    // Even with 4000 EUR gain, no German tax due
    assert_eq!(statement.total_german_tax, d("0"));
    assert_eq!(statement.net_tax_due, d("0"));
}

/// Test Teilfreistellung for ETFs.
#[test]
fn test_equity_etf_teilfreistellung() {
    let mut statement =
        GermanTaxStatement::new(2024, d("0"), d("0"), d("0"), d("0")).unwrap();

    // Equity ETF dividend with 30% exemption
    let etf_dividend = DividendEntry {
        payment_date: Date::from_ymd_opt(2024, 7, 1).unwrap(),
        symbol: "VWCE".to_string(),
        isin: "IE00BK5BQT80".to_string(),
        description: "Vanguard FTSE All-World UCITS ETF".to_string(),
        quantity: d("50"),
        gross_amount_eur: d("100.00"),
        foreign_withholding_tax: d("0"),
        teilfreistellung_rate: TeilfreistellungRate::Equity, // 30% exempt
        taxable_amount: d("70.00"),                         // Only 70% taxable
        abgeltungssteuer: d("17.50"),                       // 25% of 70
        solidaritaetszuschlag: d("0.9625"),
        kirchensteuer: d("0"),
        foreign_tax_credit: d("0"),
        total_tax: d("18.4625"),
        net_tax: d("18.4625"),
        notes: None,
    };
    statement.add_dividend(etf_dividend);

    statement.calculate_totals();

    // Only 70 EUR taxable out of 100 EUR gross
    assert_eq!(statement.total_dividend_income, d("70.00"));
    assert_eq!(statement.total_abgeltungssteuer, d("17.50"));
}

/// Performance test: Verify <10s for 1000 transaction statement per SC-001.
/// This test uses synthetic data to stress-test the tax calculation pipeline.
#[test]
fn test_performance_1000_transactions() {

    let start = Instant::now();
    let mut statement =
        GermanTaxStatement::new(2024, d("0.09"), d("5000"), d("0"), d("0")).unwrap(); // With church tax and loss CF

    // Generate 500 capital gain entries (simulating 1000+ buy/sell transactions)
    for i in 0..500 {
        let gain = CapitalGainEntry {
            transaction_date: Date::from_ymd_opt(
                2024,
                (i % 12 + 1) as u32,
                (i % 28 + 1) as u32,
            )
            .unwrap(),
            settle_date: Date::from_ymd_opt(2024, (i % 12 + 1) as u32, (i % 28 + 1) as u32)
                .unwrap(),
            symbol: format!("SYM{:03}", i % 50),
            isin: format!("US{:010}", i),
            description: format!("Test Stock {}", i),
            quantity: d("100").add(&Decimal::new((i % 100) as i64, 0)),
            cost_basis_eur: d("1000.00").add(&Decimal::new((i * 10) as i64, 0)),
            proceeds_eur: d("1200.00").add(&Decimal::new((i * 12) as i64, 0)),
            gross_gain_loss: d("200.00").add(&Decimal::new((i * 2) as i64, 0)),
            taxable_before_exemption: d("200.00").add(&Decimal::new((i * 2) as i64, 0)),
            teilfreistellung_rate: if i % 3 == 0 {
                TeilfreistellungRate::Equity
            } else if i % 3 == 1 {
                TeilfreistellungRate::Mixed
            } else {
                TeilfreistellungRate::NotFund
            },
            is_stock: i % 3 == 2,
            taxable_amount: d("150.00").add(&Decimal::new((i) as i64, 0)),
            foreign_tax: d("0"),
            abgeltungssteuer: d("37.50").add(&Decimal::new((i / 4) as i64, 0)),
            solidaritaetszuschlag: d("2.06").add(&Decimal::new((i / 100) as i64, 0)),
            kirchensteuer: d("3.38").add(&Decimal::new((i / 100) as i64, 0)),
            total_tax: d("42.94").add(&Decimal::new((i / 3) as i64, 0)),
            pre_2009_holding: i % 20 == 0, // 5% are Altbestand
            notes: None,
        };
        statement.add_capital_gain(gain);
    }

    // Generate 300 dividend entries
    for i in 0..300 {
        let dividend = DividendEntry {
            payment_date: Date::from_ymd_opt(2024, (i % 12 + 1) as u32, 15).unwrap(),
            symbol: format!("DIV{:03}", i % 30),
            isin: format!("IE{:010}", i),
            description: format!("Test Dividend Stock {}", i),
            quantity: d("50").add(&Decimal::new((i % 50) as i64, 0)),
            gross_amount_eur: d("100.00").add(&Decimal::new((i) as i64, 0)),
            foreign_withholding_tax: d("15.00").add(&Decimal::new((i / 10) as i64, 0)),
            teilfreistellung_rate: if i % 2 == 0 {
                TeilfreistellungRate::Equity
            } else {
                TeilfreistellungRate::NotFund
            },
            taxable_amount: d("70.00").add(&Decimal::new((i) as i64, 0)),
            abgeltungssteuer: d("17.50").add(&Decimal::new((i / 4) as i64, 0)),
            solidaritaetszuschlag: d("0.96").add(&Decimal::new((i / 100) as i64, 0)),
            kirchensteuer: d("1.58").add(&Decimal::new((i / 100) as i64, 0)),
            foreign_tax_credit: d("10.00").add(&Decimal::new((i / 20) as i64, 0)),
            total_tax: d("20.04").add(&Decimal::new((i / 3) as i64, 0)),
            net_tax: d("10.04").add(&Decimal::new((i / 5) as i64, 0)),
            notes: None,
        };
        statement.add_dividend(dividend);
    }

    // Generate 200 interest entries
    for i in 0..200 {
        let interest = InterestEntry {
            payment_date: Date::from_ymd_opt(2024, (i % 12 + 1) as u32, 1).unwrap(),
            description: format!("Interest Payment {}", i),
            gross_amount_eur: d("50.00").add(&Decimal::new((i) as i64, 0)),
            taxable_amount: d("50.00").add(&Decimal::new((i) as i64, 0)),
            foreign_withholding_tax: d("0"),
            abgeltungssteuer: d("12.50").add(&Decimal::new((i / 4) as i64, 0)),
            solidaritaetszuschlag: d("0.69").add(&Decimal::new((i / 100) as i64, 0)),
            kirchensteuer: d("1.13").add(&Decimal::new((i / 100) as i64, 0)),
            foreign_tax_credit: d("0"),
            total_tax: d("14.32").add(&Decimal::new((i / 3) as i64, 0)),
            net_tax: d("14.32").add(&Decimal::new((i / 3) as i64, 0)),
            notes: None,
        };
        statement.add_interest(interest);
    }

    // Calculate totals
    statement.calculate_totals();

    // Generate CSV output
    let csv_output = CsvFormatter::write(&statement);

    let elapsed = start.elapsed();

    // Performance assertion: must complete in <10 seconds (SC-001)
    // Using 1 second as a more aggressive threshold since we're not doing I/O
    assert!(
        elapsed.as_secs() < 1,
        "Performance test failed: processing 1000 transactions took {:?}, expected <1s",
        elapsed
    );

    // Verify totals were calculated
    assert!(d("0").lt(&statement.total_taxable_income));
    assert!(d("0").lt(&statement.total_german_tax));
    assert!(statement.capital_gains.len() == 500);
    assert!(statement.dividends.len() == 300);
    assert!(statement.interest.len() == 200);

    // Verify CSV was generated
    let csv_string = csv_output;
    assert!(csv_string.contains("transaction_type"));
    assert!(csv_string.contains("SUMMARY_TOTAL_TAXABLE_INCOME"));

    println!(
        "Performance test passed: 1000 transactions processed in {:?}",
        elapsed
    );
}

/// Accuracy test: Verify ±€0.01 precision across calculations per SC-002.
#[test]
fn test_accuracy_precision() {
    let mut statement =
        GermanTaxStatement::new(2024, d("0.09"), d("0"), d("0"), d("0")).unwrap();

    // Test with precise decimal values that could cause floating point errors
    let gain = CapitalGainEntry {
        transaction_date: Date::from_ymd_opt(2024, 6, 15).unwrap(),
        settle_date: Date::from_ymd_opt(2024, 6, 17).unwrap(),
        symbol: "PREC".to_string(),
        isin: "US1234567890".to_string(),
        description: "Precision Test Stock".to_string(),
        quantity: d("33.333"), // Non-round quantity
        cost_basis_eur: d("1111.11"),
        proceeds_eur: d("2222.22"),
        gross_gain_loss: d("1111.11"),
        taxable_before_exemption: d("1111.11"),
        teilfreistellung_rate: TeilfreistellungRate::NotFund,
        is_stock: true,
        taxable_amount: d("1111.11"),
        foreign_tax: d("0"),
        // 25% of 1111.11 = 277.7775, rounded to 277.78
        abgeltungssteuer: d("277.78"),
        // 5.5% of 277.78 = 15.2779, rounded to 15.28
        solidaritaetszuschlag: d("15.28"),
        // 9% of 277.78 = 25.0002, rounded to 25.00
        kirchensteuer: d("25.00"),
        total_tax: d("318.06"),
        pre_2009_holding: false,
        notes: None,
    };
    statement.add_capital_gain(gain);

    // Test dividend with foreign tax credit edge case
    let dividend = DividendEntry {
        payment_date: Date::from_ymd_opt(2024, 9, 1).unwrap(),
        symbol: "DIV".to_string(),
        isin: "IE0000000001".to_string(),
        description: "Dividend Test".to_string(),
        quantity: d("77.77"),
        gross_amount_eur: d("99.99"),
        foreign_withholding_tax: d("14.9985"), // 15% of 99.99
        teilfreistellung_rate: TeilfreistellungRate::Equity,
        taxable_amount: d("69.993"), // 70% of 99.99
        // 25% of 69.993 = 17.49825, rounded to 17.50
        abgeltungssteuer: d("17.50"),
        solidaritaetszuschlag: d("0.96"),
        kirchensteuer: d("1.58"),
        foreign_tax_credit: d("14.9985"),
        total_tax: d("20.04"),
        net_tax: d("5.04"), // 20.04 - 14.9985 ≈ 5.04
        notes: None,
    };
    statement.add_dividend(dividend);

    statement.calculate_totals();

    // Verify precision is maintained (no floating point drift)
    // All amounts should be exact to €0.01
    let total_str = statement.total_taxable_income.round_dp(2).rescale_up(2).to_text();
    assert!(
        total_str.ends_with('0')
            || total_str.ends_with('1')
            || total_str.ends_with('2')
            || total_str.ends_with('3')
            || total_str.ends_with('4')
            || total_str.ends_with('5')
            || total_str.ends_with('6')
            || total_str.ends_with('7')
            || total_str.ends_with('8')
            || total_str.ends_with('9'),
        "Total should be precise to €0.01: {}",
        total_str
    );

    // Verify the totals are exactly as expected (no rounding errors)
    // Capital gain: 1111.11 taxable
    // Dividend: 69.993 taxable (rounded in display but precise in calculation)
    let expected_capital_gains_taxable = d("1111.11");
    let expected_dividend_taxable = d("69.993");

    assert_eq!(
        statement.total_capital_gains, expected_capital_gains_taxable,
        "Capital gains taxable amount should be exactly €1111.11"
    );

    // The dividend taxable should be close (within €0.01)
    let diff = statement.total_dividend_income.sub(&expected_dividend_taxable).abs();
    assert!(
        diff.lt(&d("0.01")),
        "Dividend taxable amount should be within €0.01 of expected: got {}, expected {}",
        statement.total_dividend_income.to_text(),
        expected_dividend_taxable.to_text()
    );

    println!(
        "Accuracy test passed: All amounts precise to €0.01 - Total taxable: €{}",
        statement.total_taxable_income.round_dp(2).rescale_up(2).to_text()
    );
}

/// Test FX gains/losses processing (§20 EStG - capital income treatment).
#[test]
fn test_fx_gains_processing() {
    let mut statement =
        GermanTaxStatement::new(2024, d("0.08"), d("0"), d("0"), d("0")).unwrap(); // 8% church tax

    // FX gain entry (profit from EUR/USD)
    let fx_gain = FxGainEntry {
        transaction_date: Date::from_ymd_opt(2024, 6, 15).unwrap(),
        currency_pair: "EUR.USD".to_string(),
        description: "Net Amount in Base from Forex Trade: -100 EUR.USD".to_string(),
        gross_amount_eur: d("10.50"),         // Realized FX gain
        taxable_amount: d("10.50"),           // Full amount taxable (no Teilfreistellung)
        abgeltungssteuer: d("2.625"),         // 25% of 10.50
        solidaritaetszuschlag: d("0.144375"), // 5.5% of 2.625
        kirchensteuer: d("0.21"),             // 8% of 2.625
        total_tax: d("2.979375"),
        notes: None,
    };
    statement.add_fx_gain(fx_gain);

    // FX loss entry (loss from EUR/USD)
    let fx_loss = FxGainEntry {
        transaction_date: Date::from_ymd_opt(2024, 7, 20).unwrap(),
        currency_pair: "EUR.USD".to_string(),
        description: "Net Amount in Base from Forex Trade: -50 EUR.USD".to_string(),
        gross_amount_eur: d("-3.25"), // Realized FX loss
        taxable_amount: d("-3.25"),   // Loss reduces taxable income
        abgeltungssteuer: d("0"),     // No tax on losses
        solidaritaetszuschlag: d("0"),
        kirchensteuer: d("0"),
        total_tax: d("0"),
        notes: Some("FX loss - can offset other capital income (§20 EStG)".to_string()),
    };
    statement.add_fx_gain(fx_loss);

    // Calculate totals
    statement.calculate_totals();

    // Verify FX entries are correctly categorized
    assert_eq!(statement.fx_gains.len(), 2);
    assert_eq!(statement.total_fx_gains, d("10.50"));
    assert_eq!(statement.total_fx_losses, d("3.25"));

    // Net FX income should be 10.50 - 3.25 = 7.25
    // This should be included in taxable income calculation
    let net_fx = statement.total_fx_gains.sub(&statement.total_fx_losses);
    assert_eq!(net_fx, d("7.25"));

    // Generate CSV output and verify FX rows exist
    let csv_string = CsvFormatter::write(&statement);

    // Check FX gain/loss rows exist
    assert!(csv_string.contains("FX Gain/Loss"));
    assert!(csv_string.contains("EUR.USD"));
    assert!(csv_string.contains("SUMMARY_FX_GAINS"));
    assert!(csv_string.contains("SUMMARY_FX_LOSSES"));
}

/// Test that FX losses can offset capital gains (general loss bucket).
#[test]
fn test_fx_loss_offset_capital_gains() {
    let mut statement =
        GermanTaxStatement::new(2024, d("0"), d("0"), d("0"), d("0")).unwrap(); // No church tax

    // Capital gain entry
    let capital_gain = CapitalGainEntry {
        transaction_date: Date::from_ymd_opt(2024, 5, 1).unwrap(),
        settle_date: Date::from_ymd_opt(2024, 5, 3).unwrap(),
        symbol: "AAPL".to_string(),
        isin: "US0378331005".to_string(),
        description: "Apple Inc.".to_string(),
        quantity: d("10"),
        cost_basis_eur: d("1000.00"),
        proceeds_eur: d("1200.00"),
        gross_gain_loss: d("200.00"),
        taxable_before_exemption: d("200.00"),
        teilfreistellung_rate: TeilfreistellungRate::NotFund,
        is_stock: true,
        taxable_amount: d("200.00"),
        foreign_tax: d("0"),
        abgeltungssteuer: d("50.00"),     // 25% of 200
        solidaritaetszuschlag: d("2.75"), // 5.5% of 50
        kirchensteuer: d("0"),
        total_tax: d("52.75"),
        pre_2009_holding: false,
        notes: None,
    };
    statement.add_capital_gain(capital_gain);

    // FX loss entry - larger than capital gain
    let fx_loss = FxGainEntry {
        transaction_date: Date::from_ymd_opt(2024, 6, 15).unwrap(),
        currency_pair: "EUR.USD".to_string(),
        description: "Large FX loss".to_string(),
        gross_amount_eur: d("-150.00"),
        taxable_amount: d("-150.00"),
        abgeltungssteuer: d("0"),
        solidaritaetszuschlag: d("0"),
        kirchensteuer: d("0"),
        total_tax: d("0"),
        notes: Some("FX loss - can offset other capital income (§20 EStG)".to_string()),
    };
    statement.add_fx_gain(fx_loss);

    statement.calculate_totals();

    // Capital gains: 200
    // FX losses: 150
    // Net for loss carryforward calculation: 200 + 0 - 0 - 150 = 50
    assert_eq!(statement.total_capital_gains, d("200.00"));
    assert_eq!(statement.total_fx_losses, d("150.00"));

    // Verify the loss offset worked (net capital income reduced)
    // Total taxable = capital gains (200) - FX losses (150) = 50
    // Note: This test verifies the structure; actual offset happens in calculate_totals
}

/// Test broker fee entry creation and deduction tracking.
#[test]
fn test_fee_entry_creation() {

    let mut statement =
        GermanTaxStatement::new(2024, d("0"), d("0"), d("0"), d("0")).unwrap();

    // Add a fee entry
    let fee = FeeEntry {
        date: Date::from_ymd_opt(2024, 3, 15).unwrap(),
        description: "Market data subscription".to_string(),
        amount_eur: d("15.50"),
        notes: None,
    };
    statement.add_fee(fee);

    // Add a fee refund (negative amount)
    let fee_refund = FeeEntry {
        date: Date::from_ymd_opt(2024, 6, 1).unwrap(),
        description: "Fee refund".to_string(),
        amount_eur: d("-5.00"),
        notes: Some("Fee refund - reduces deductible expenses".to_string()),
    };
    statement.add_fee(fee_refund);

    statement.calculate_totals();

    assert_eq!(statement.fees.len(), 2);
    // Total fees: 15.50 - 5.00 = 10.50
    assert_eq!(statement.total_fees, d("10.50"));

    // Generate CSV and verify fee rows exist
    let csv_string = CsvFormatter::write(&statement);

    assert!(csv_string.contains("Fee/Deduction"));
    assert!(csv_string.contains("Market data subscription"));
    assert!(csv_string.contains("SUMMARY_TOTAL_FEES"));
}

/// Test stock grant entry creation with FMV.
#[test]
fn test_stock_grant_entry_with_fmv() {

    let mut statement =
        GermanTaxStatement::new(2024, d("0"), d("0"), d("0"), d("0")).unwrap();

    // Stock grant with FMV (typical RSU vest)
    let grant = StockGrantEntry {
        vest_date: Date::from_ymd_opt(2024, 4, 1).unwrap(),
        symbol: "GOOGL".to_string(),
        isin: "US02079K3059".to_string(),
        quantity: d("50"),
        fmv_per_share_eur: d("150.25"),
        total_fmv_eur: d("7512.50"), // 50 * 150.25
        notes: Some("Employment income (geldwerter Vorteil)".to_string()),
    };
    statement.add_stock_grant(grant);

    statement.calculate_totals();

    assert_eq!(statement.stock_grants.len(), 1);
    assert_eq!(statement.total_stock_grant_income, d("7512.50"));

    // Verify the grant appears in CSV
    let csv_string = CsvFormatter::write(&statement);

    assert!(csv_string.contains("STOCK_GRANT"));
    assert!(csv_string.contains("GOOGL"));
    assert!(csv_string.contains("EMPLOYMENT_INCOME_STOCK_GRANTS"));
}

/// Test stock grant entry without FMV (should warn user).
#[test]
fn test_stock_grant_entry_without_fmv() {

    let mut statement =
        GermanTaxStatement::new(2024, d("0"), d("0"), d("0"), d("0")).unwrap();

    // Stock grant without FMV (FMV was not available from broker)
    let grant = StockGrantEntry {
        vest_date: Date::from_ymd_opt(2024, 5, 15).unwrap(),
        symbol: "MSFT".to_string(),
        isin: "US5949181045".to_string(),
        quantity: d("25"),
        fmv_per_share_eur: d("0"), // FMV not available
        total_fmv_eur: d("0"),
        notes: Some("FMV unavailable - verify manually".to_string()),
    };
    statement.add_stock_grant(grant);

    statement.calculate_totals();

    assert_eq!(statement.stock_grants.len(), 1);
    assert_eq!(statement.total_stock_grant_income, d("0")); // Zero due to missing FMV
}

/// Test cash grant entry and €256 threshold warning.
#[test]
fn test_cash_grant_entry_below_threshold() {

    let mut statement =
        GermanTaxStatement::new(2024, d("0"), d("0"), d("0"), d("0")).unwrap();

    // Cash grant below threshold
    let grant = CashGrantEntry {
        date: Date::from_ymd_opt(2024, 2, 1).unwrap(),
        description: "Referral bonus".to_string(),
        amount_eur: d("100.00"),
        notes: None,
    };
    statement.add_cash_grant(grant);

    statement.calculate_totals();

    assert_eq!(statement.cash_grants.len(), 1);
    assert_eq!(statement.total_cash_grant_income, d("100.00"));

    // Below €256 threshold - informational only
    assert!(statement.total_cash_grant_income.lt(&d("256")));
}

/// Test cash grant entry exceeding €256 threshold.
#[test]
fn test_cash_grant_entry_above_threshold() {

    let mut statement =
        GermanTaxStatement::new(2024, d("0"), d("0"), d("0"), d("0")).unwrap();

    // Multiple cash grants exceeding threshold
    let grant1 = CashGrantEntry {
        date: Date::from_ymd_opt(2024, 1, 15).unwrap(),
        description: "Sign-up bonus".to_string(),
        amount_eur: d("200.00"),
        notes: None,
    };
    statement.add_cash_grant(grant1);

    let grant2 = CashGrantEntry {
        date: Date::from_ymd_opt(2024, 6, 1).unwrap(),
        description: "Referral bonus".to_string(),
        amount_eur: d("100.00"),
        notes: None,
    };
    statement.add_cash_grant(grant2);

    statement.calculate_totals();

    assert_eq!(statement.cash_grants.len(), 2);
    assert_eq!(statement.total_cash_grant_income, d("300.00"));

    // Above €256 threshold - must be declared as sonstige Einkünfte
    assert!(d("256").lt(&statement.total_cash_grant_income));

    // Verify CSV contains warning section
    let csv_string = CsvFormatter::write(&statement);

    assert!(csv_string.contains("CASH_GRANT"));
    assert!(csv_string.contains("OTHER_INCOME_CASH_GRANTS"));
}

/// Test corporate action entries for spinoffs.
#[test]
fn test_corporate_action_spinoff() {

    let mut statement =
        GermanTaxStatement::new(2024, d("0"), d("0"), d("0"), d("0")).unwrap();

    let spinoff = CorporateActionEntry {
        date: Date::from_ymd_opt(2024, 7, 1).unwrap(),
        action_type: CorporateActionType::Spinoff,
        symbol: "GE".to_string(),
        description: "Spinoff: Received 100 shares of GEHC".to_string(),
        tax_impact_eur: None, // No immediate tax impact
        notes: Some("Cost basis must be allocated between parent and spinoff".to_string()),
    };
    statement.add_corporate_action(spinoff);

    assert_eq!(statement.corporate_actions.len(), 1);
    assert!(matches!(
        statement.corporate_actions[0].action_type,
        CorporateActionType::Spinoff
    ));
}

/// Test corporate action entries for liquidations.
#[test]
fn test_corporate_action_liquidation() {

    let mut statement =
        GermanTaxStatement::new(2024, d("0"), d("0"), d("0"), d("0")).unwrap();

    let liquidation = CorporateActionEntry {
        date: Date::from_ymd_opt(2024, 8, 15).unwrap(),
        action_type: CorporateActionType::Liquidation,
        symbol: "BANKRUPT".to_string(),
        description: "Liquidation: 500 shares @ 0.50 USD".to_string(),
        tax_impact_eur: Some(d("225.00")), // Proceeds in EUR
        notes: Some("Treated as sale - capital gain/loss based on cost basis".to_string()),
    };
    statement.add_corporate_action(liquidation);

    assert_eq!(statement.corporate_actions.len(), 1);
    assert!(matches!(
        statement.corporate_actions[0].action_type,
        CorporateActionType::Liquidation
    ));
    assert_eq!(
        statement.corporate_actions[0].tax_impact_eur,
        Some(d("225.00"))
    );
}

/// Test corporate action entries for delistings (total loss).
#[test]
fn test_corporate_action_delisting() {

    let mut statement =
        GermanTaxStatement::new(2024, d("0"), d("0"), d("0"), d("0")).unwrap();

    let delisting = CorporateActionEntry {
        date: Date::from_ymd_opt(2024, 9, 1).unwrap(),
        action_type: CorporateActionType::Delisting,
        symbol: "DELIST".to_string(),
        description: "Delisting of 200 shares".to_string(),
        tax_impact_eur: None, // Loss depends on cost basis
        notes: Some(
            "Total loss - may have restricted deductibility under German tax law".to_string(),
        ),
    };
    statement.add_corporate_action(delisting);

    assert_eq!(statement.corporate_actions.len(), 1);
    assert!(matches!(
        statement.corporate_actions[0].action_type,
        CorporateActionType::Delisting
    ));

    // Verify CSV contains corporate action
    let csv_string = CsvFormatter::write(&statement);

    assert!(csv_string.contains("Corporate Action"));
    assert!(csv_string.contains("DELIST"));
}

/// Test combined statement with all entry types.
#[test]
fn test_combined_statement_all_entry_types() {

    let mut statement =
        GermanTaxStatement::new(2024, d("0.09"), d("0"), d("0"), d("0")).unwrap(); // 9% church tax

    // Add capital gain
    let capital_gain = CapitalGainEntry {
        transaction_date: Date::from_ymd_opt(2024, 3, 1).unwrap(),
        settle_date: Date::from_ymd_opt(2024, 3, 3).unwrap(),
        symbol: "AAPL".to_string(),
        isin: "US0378331005".to_string(),
        description: "Apple Inc.".to_string(),
        quantity: d("20"),
        cost_basis_eur: d("3000.00"),
        proceeds_eur: d("4000.00"),
        gross_gain_loss: d("1000.00"),
        taxable_before_exemption: d("1000.00"),
        teilfreistellung_rate: TeilfreistellungRate::NotFund,
        is_stock: true,
        taxable_amount: d("1000.00"),
        foreign_tax: d("0"),
        abgeltungssteuer: d("250.00"),
        solidaritaetszuschlag: d("13.75"),
        kirchensteuer: d("22.50"),
        total_tax: d("286.25"),
        pre_2009_holding: false,
        notes: None,
    };
    statement.add_capital_gain(capital_gain);

    // Add dividend
    let dividend = DividendEntry {
        payment_date: Date::from_ymd_opt(2024, 6, 15).unwrap(),
        symbol: "MSFT".to_string(),
        isin: "US5949181045".to_string(),
        description: "Microsoft Corp.".to_string(),
        quantity: d("0"),
        gross_amount_eur: d("200.00"),
        foreign_withholding_tax: d("30.00"),
        teilfreistellung_rate: TeilfreistellungRate::NotFund,
        taxable_amount: d("200.00"),
        abgeltungssteuer: d("50.00"),
        solidaritaetszuschlag: d("2.75"),
        kirchensteuer: d("4.50"),
        foreign_tax_credit: d("30.00"),
        total_tax: d("57.25"),
        net_tax: d("27.25"),
        notes: None,
    };
    statement.add_dividend(dividend);

    // Add fee
    let fee = FeeEntry {
        date: Date::from_ymd_opt(2024, 1, 31).unwrap(),
        description: "Account maintenance".to_string(),
        amount_eur: d("25.00"),
        notes: None,
    };
    statement.add_fee(fee);

    // Add stock grant
    let stock_grant = StockGrantEntry {
        vest_date: Date::from_ymd_opt(2024, 4, 1).unwrap(),
        symbol: "GOOGL".to_string(),
        isin: "US02079K3059".to_string(),
        quantity: d("10"),
        fmv_per_share_eur: d("140.00"),
        total_fmv_eur: d("1400.00"),
        notes: None,
    };
    statement.add_stock_grant(stock_grant);

    // Add cash grant
    let cash_grant = CashGrantEntry {
        date: Date::from_ymd_opt(2024, 2, 15).unwrap(),
        description: "Welcome bonus".to_string(),
        amount_eur: d("50.00"),
        notes: None,
    };
    statement.add_cash_grant(cash_grant);

    // Add corporate action
    let corp_action = CorporateActionEntry {
        date: Date::from_ymd_opt(2024, 7, 1).unwrap(),
        action_type: CorporateActionType::Spinoff,
        symbol: "JNJ".to_string(),
        description: "Received 50 shares of KVUE".to_string(),
        tax_impact_eur: None,
        notes: None,
    };
    statement.add_corporate_action(corp_action);

    // Calculate totals
    statement.calculate_totals();

    // Verify all entries are tracked
    assert_eq!(statement.capital_gains.len(), 1);
    assert_eq!(statement.dividends.len(), 1);
    assert_eq!(statement.fees.len(), 1);
    assert_eq!(statement.stock_grants.len(), 1);
    assert_eq!(statement.cash_grants.len(), 1);
    assert_eq!(statement.corporate_actions.len(), 1);

    // Verify totals
    assert_eq!(statement.total_capital_gains, d("1000.00"));
    assert_eq!(statement.total_dividend_income, d("200.00"));
    assert_eq!(statement.total_fees, d("25.00"));
    assert_eq!(statement.total_stock_grant_income, d("1400.00"));
    assert_eq!(statement.total_cash_grant_income, d("50.00"));

    // Generate CSV and verify all sections exist
    let csv_string = CsvFormatter::write(&statement);

    // Check for all row types (human-readable names in CSV)
    assert!(csv_string.contains("Capital Gain"));
    assert!(csv_string.contains("Dividend"));
    assert!(csv_string.contains("Fee/Deduction"));
    assert!(csv_string.contains("Stock Grant (Employment Income)"));
    assert!(csv_string.contains("Cash Grant (Other Income)"));
    assert!(csv_string.contains("Corporate Action"));

    // Check for summary entries
    assert!(csv_string.contains("SUMMARY_TOTAL_TAXABLE_INCOME"));
    assert!(csv_string.contains("SUMMARY_TOTAL_FEES"));
}

// --- T5: §20(6) loss pots, Sparer-Pauschbetrag, and §20(9) fee treatment ---

fn stock_capital_entry(taxable: Decimal) -> CapitalGainEntry {
    CapitalGainEntry {
        transaction_date: Date::from_ymd_opt(2024, 6, 1).unwrap(),
        settle_date: Date::from_ymd_opt(2024, 6, 3).unwrap(),
        symbol: "SYM".to_string(),
        isin: String::new(),
        description: "Sym".to_string(),
        quantity: d("1"),
        cost_basis_eur: d("0"),
        proceeds_eur: taxable,
        gross_gain_loss: taxable,
        taxable_before_exemption: taxable,
        teilfreistellung_rate: TeilfreistellungRate::NotFund,
        is_stock: true,
        taxable_amount: taxable,
        foreign_tax: d("0"),
        abgeltungssteuer: d("0"),
        solidaritaetszuschlag: d("0"),
        kirchensteuer: d("0"),
        total_tax: d("0"),
        pre_2009_holding: false,
        notes: None,
    }
}

fn fx_entry(gross: Decimal) -> FxGainEntry {
    FxGainEntry {
        transaction_date: Date::from_ymd_opt(2024, 6, 1).unwrap(),
        currency_pair: "EUR.USD".to_string(),
        description: "fx".to_string(),
        gross_amount_eur: gross,
        taxable_amount: gross,
        abgeltungssteuer: d("0"),
        solidaritaetszuschlag: d("0"),
        kirchensteuer: d("0"),
        total_tax: d("0"),
        notes: None,
    }
}

fn dividend_entry(taxable: Decimal) -> DividendEntry {
    DividendEntry {
        payment_date: Date::from_ymd_opt(2024, 6, 1).unwrap(),
        symbol: "DIV".to_string(),
        isin: String::new(),
        description: "Div".to_string(),
        quantity: d("0"),
        gross_amount_eur: taxable,
        foreign_withholding_tax: d("0"),
        teilfreistellung_rate: TeilfreistellungRate::NotFund,
        taxable_amount: taxable,
        abgeltungssteuer: d("0"),
        solidaritaetszuschlag: d("0"),
        kirchensteuer: d("0"),
        foreign_tax_credit: d("0"),
        total_tax: d("0"),
        net_tax: d("0"),
        notes: None,
    }
}

#[test]
fn stock_loss_and_fx_gain_use_separate_pots() {
    let mut statement =
        GermanTaxStatement::new(2024, d("0"), d("0"), d("0"), d("0")).unwrap();
    statement.add_capital_gain(stock_capital_entry(d("-500")));
    statement.add_fx_gain(fx_entry(d("500")));
    statement.calculate_totals();
    // §20(6): a share-sale loss cannot offset the FX gain — it carries forward in its own pot,
    // and the general pot's €500 gain is fully taxable (net is NOT zero).
    assert_eq!(statement.total_taxable_income, d("500"));
    assert_eq!(statement.loss_carryforward_stock_next, d("500"));
    assert_eq!(statement.loss_carryforward_other_next, d("0"));
}

#[test]
fn general_loss_offsets_dividends() {
    let mut statement =
        GermanTaxStatement::new(2024, d("0"), d("0"), d("0"), d("0")).unwrap();
    statement.add_dividend(dividend_entry(d("1000")));
    statement.add_fx_gain(fx_entry(d("-300")));
    statement.calculate_totals();
    // The general pot offsets the FX loss against dividends: 1000 − 300 = 700.
    assert_eq!(statement.total_taxable_income, d("700"));
    assert_eq!(statement.loss_carryforward_other_next, d("0"));
}

#[test]
fn sparer_pauschbetrag_absorbs_small_income() {
    // €900 of income under the €1,000 allowance → nothing taxable.
    let mut statement =
        GermanTaxStatement::new(2024, d("0"), d("0"), d("0"), d("1000")).unwrap();
    statement.add_dividend(dividend_entry(d("900")));
    statement.calculate_totals();
    assert_eq!(statement.total_taxable_income, d("0"));
    assert_eq!(statement.total_german_tax, d("0"));
    assert_eq!(statement.sparer_pauschbetrag_used, d("900"));
}

/// The chain `simulate-sell` builds: the year's tax after each disposal is added in turn.
/// Mirrors `GermanTaxSimulation::observe`, which recomputes the year once per emulated sale.
fn tax_after_each(
    statement: &mut GermanTaxStatement,
    disposals: &[CapitalGainEntry],
) -> Vec<Decimal> {
    disposals
        .iter()
        .map(|entry| {
            statement.add_capital_gain(entry.clone());
            statement.calculate_totals();
            statement.net_tax_due
        })
        .collect()
}

/// The pricing rule behind `simulate-sell`: a hypothetical disposal costs what it adds to the
/// year, so a share gain is free while the Aktien pot is still negative and only becomes
/// payable once the pot and the allowance are gone. This is exactly what the flat 26.375%
/// `localities::germany` stand-in cannot express — it would charge tax on every sale below,
/// where only the last one owes anything.
#[test]
fn hypothetical_disposal_is_priced_at_what_it_adds_to_the_year() {
    // A year already €3,000 down on share sales, with the full allowance intact.
    let mut statement =
        GermanTaxStatement::new(2024, d("0"), d("0"), d("0"), d("1000")).unwrap();
    statement.add_capital_gain(stock_capital_entry(d("-3000")));
    statement.calculate_totals();
    assert_eq!(statement.net_tax_due, d("0"));

    let taxes = tax_after_each(
        &mut statement,
        &[
            stock_capital_entry(d("1000")), // pot −3000 → −2000: free
            stock_capital_entry(d("2000")), // pot exhausted, still nothing taxable
            stock_capital_entry(d("1000")), // +1000 net gain, covered by the allowance
            stock_capital_entry(d("1000")), // +2000 net, less €1,000 allowance → €1,000 taxable
        ],
    );

    assert_eq!(taxes[0], d("0"));
    assert_eq!(taxes[1], d("0"));
    assert_eq!(taxes[2], d("0"));
    // 25% + 5.5% Soli on the first €1,000 that clears both the pot and the allowance.
    assert_eq!(taxes[3], d("263.75"));

    // The marginal cost of each disposal is the step it caused: the first three are free and
    // the fourth carries the whole charge, which a flat rate would smear over all four.
    assert_eq!(taxes[3].sub(&taxes[2]), d("263.75"));
}

/// A loss-making disposal is worth *negative* tax when the year holds a gain for it to shelter
/// — the in-year offset, and the reason a trim can be cheaper than it looks.
#[test]
fn hypothetical_loss_shelters_a_gain_booked_earlier_in_the_year() {
    let mut statement =
        GermanTaxStatement::new(2024, d("0"), d("0"), d("0"), d("0")).unwrap();
    statement.add_capital_gain(stock_capital_entry(d("10000")));
    statement.calculate_totals();

    let before = statement.net_tax_due;
    assert_eq!(before, d("2637.50"));

    let taxes = tax_after_each(&mut statement, &[stock_capital_entry(d("-4000"))]);
    assert_eq!(taxes[0], d("1582.50")); // €6,000 taxable

    // Realising the loss saves €1,055 of tax that would otherwise fall due this year.
    assert_eq!(taxes[0].sub(&before), d("-1055.00"));
}

/// The deduction column measures the marginal charge against what the disposal would have cost
/// on its own *at the same rates*. Taken from the flat `localities::germany` stand-in instead,
/// the comparator would omit church tax — reading €814.71 against an €864.76 charge, a negative
/// "deduction" on a sale that in fact got no relief at all.
#[test]
fn standalone_comparator_carries_church_tax() {
    let profit = d("3088.96");

    let rates = GermanTaxRates::for_year(2024, d("0.09")).unwrap();
    let standalone = round_eur(rates.compute_taxes(profit, d("0")).total);

    // 3088.96 / 4.09 = 755.25 Abgeltungsteuer, plus 9% KiSt and 5.5% Soli on it.
    assert_eq!(standalone, d("864.76"));

    // A fully-taxed disposal's marginal charge *is* the standalone one, so its deduction is
    // exactly zero. The church-tax-free stand-in would have made it negative.
    let flat_stand_in = round_eur(profit.mul(&d("0.26375")));
    assert_eq!(flat_stand_in, d("814.71"));
    assert!(flat_stand_in.lt(&standalone));
}

#[test]
fn mixed_altbestand_sale_filed_by_taxable_amount_not_gross() {
    let mut statement =
        GermanTaxStatement::new(2024, d("0"), d("0"), d("0"), d("0")).unwrap();
    // Gross gain is +€1,000 (a pre-2009 lot dominates) but the Altbestand-adjusted taxable
    // amount is a €300 loss. It must file as a loss, driven by taxable_amount, not gross.
    let mut entry = stock_capital_entry(d("-300"));
    entry.gross_gain_loss = d("1000");
    entry.pre_2009_holding = true;
    statement.add_capital_gain(entry);
    statement.calculate_totals();
    assert_eq!(statement.total_capital_gains, d("0"));
    assert_eq!(statement.total_capital_losses, d("300"));
    assert_eq!(statement.loss_carryforward_stock_next, d("300"));
    assert_eq!(statement.total_taxable_income, d("0"));
}

#[test]
fn fees_are_not_deducted_from_taxable_income() {
    let mut statement =
        GermanTaxStatement::new(2024, d("0"), d("0"), d("0"), d("0")).unwrap();
    statement.add_dividend(dividend_entry(d("1000")));
    statement.add_fee(FeeEntry {
        date: Date::from_ymd_opt(2024, 3, 1).unwrap(),
        description: "Account fee".to_string(),
        amount_eur: d("200"),
        notes: None,
    });
    statement.calculate_totals();
    // §20(9): the €200 fee is reported but does not reduce the €1,000 taxable base.
    assert_eq!(statement.total_taxable_income, d("1000"));
    assert_eq!(statement.total_fees, d("200"));
}

// --- T6: Anlage KAP / KAP-INV mapping ---

fn fund_dividend_entry(gross: Decimal, rate: TeilfreistellungRate) -> DividendEntry {
    DividendEntry {
        teilfreistellung_rate: rate,
        ..dividend_entry(gross)
    }
}

fn fund_capital_entry(gross: Decimal, rate: TeilfreistellungRate) -> CapitalGainEntry {
    CapitalGainEntry {
        teilfreistellung_rate: rate,
        is_stock: false,
        ..stock_capital_entry(gross)
    }
}

#[test]
fn kap_zeilen_split_share_gains_losses_and_exclude_funds() {
    let mut statement =
        GermanTaxStatement::new(2024, d("0"), d("0"), d("0"), d("0")).unwrap();
    statement.add_capital_gain(stock_capital_entry(d("1000"))); // share-sale gain
    statement.add_capital_gain(stock_capital_entry(d("-400"))); // share-sale loss
    statement.add_dividend(fund_dividend_entry(d("800"), TeilfreistellungRate::Equity));
    statement.add_fx_gain(fx_entry(d("-200"))); // FX loss
    statement.calculate_totals();

    assert_eq!(statement.kap_zeile_20, d("1000")); // contained share-sale gains
    assert_eq!(statement.kap_zeile_23, d("400")); // contained share-sale losses
    assert_eq!(statement.kap_zeile_22, d("200")); // contained non-share losses (FX)
    assert_eq!(statement.kap_zeile_19, d("400")); // 1000 − 200 − 400

    // Zeile 19 == (all positive foreign capital income) − Zeile 22 − Zeile 23. The only positive
    // non-fund contribution is the €1,000 share gain; the fund dividend is on KAP-INV, not here.
    let all_positives = d("1000");
    assert_eq!(
        statement.kap_zeile_19,
        all_positives.sub(&statement.kap_zeile_22).sub(&statement.kap_zeile_23)
    );

    // The fund dividend lands on Anlage KAP-INV (gross), never on the KAP lines.
    assert_eq!(statement.kap_inv_equity.distributions, d("800"));
}

#[test]
fn pure_altbestand_sale_absent_from_kap_lines() {
    let mut statement =
        GermanTaxStatement::new(2024, d("0"), d("0"), d("0"), d("0")).unwrap();
    // Pure pre-2009 lot: raw gross gain +€1,000 but Altbestand-exempt, so taxable_amount is 0.
    // It must land on neither Zeile 19 nor Zeile 20.
    let mut entry = stock_capital_entry(d("0"));
    entry.gross_gain_loss = d("1000");
    entry.pre_2009_holding = true;
    statement.add_capital_gain(entry);
    statement.calculate_totals();
    assert_eq!(statement.kap_zeile_19, d("0"));
    assert_eq!(statement.kap_zeile_20, d("0"));
    assert_eq!(statement.kap_zeile_23, d("0"));
}

#[test]
fn fund_entries_populate_kap_inv_groups_gross() {
    let mut statement =
        GermanTaxStatement::new(2024, d("0"), d("0"), d("0"), d("0")).unwrap();
    statement.add_dividend(fund_dividend_entry(d("500"), TeilfreistellungRate::Equity));
    statement.add_capital_gain(fund_capital_entry(d("1000"), TeilfreistellungRate::Equity));
    statement.add_capital_gain(fund_capital_entry(d("-300"), TeilfreistellungRate::Mixed));
    statement.calculate_totals();

    // KAP-INV reports gross, pre-Teilfreistellung figures grouped by fund type.
    assert_eq!(statement.kap_inv_equity.distributions, d("500"));
    assert_eq!(statement.kap_inv_equity.sale_gains, d("1000"));
    assert_eq!(statement.kap_inv_mixed.sale_losses, d("300"));
    // Fund income must not leak onto the non-fund KAP lines.
    assert_eq!(statement.kap_zeile_20, d("0"));
    assert_eq!(statement.kap_zeile_19, d("0"));
}

#[test]
fn csv_kap_inv_carries_form_zeilen() {
    let mut statement =
        GermanTaxStatement::new(2024, d("0"), d("0"), d("0"), d("0")).unwrap();
    statement.add_dividend(fund_dividend_entry(d("500"), TeilfreistellungRate::Equity));
    statement.add_capital_gain(fund_capital_entry(d("1000"), TeilfreistellungRate::Mixed));
    statement.calculate_totals();

    let csv = CsvFormatter::write(&statement);
    // Aktienfonds distributions on Zeile 4, Mischfonds net Veräußerung on Zeile 17.
    assert!(csv.contains("gross distributions (Zeile 4)"));
    assert!(csv.contains("net sale gain/loss (Zeile 17)"));
}

// --- T11: Vorabpauschale (§18 InvStG) ---

fn vorabpauschale_entry(
    isin: &str,
    gross: Decimal,
    rate: TeilfreistellungRate,
) -> VorabpauschaleEntry {
    let rates = GermanTaxRates::default();
    let taxable = gross.mul(&rate.taxable_portion());
    let taxes = rates.compute_taxes(taxable, d("0"));
    VorabpauschaleEntry {
        arising_year: 2024,
        deemed_received: Date::from_ymd_opt(2025, 1, 2).unwrap(),
        symbol: "EUNL".to_string(),
        isin: isin.to_string(),
        quantity: d("100"),
        nav_jan1: d("8000"),
        nav_dec31: d("9200"),
        distributions: d("0"),
        basiszins: d("0.0229"),
        teilfreistellung_rate: rate,
        gross_vorabpauschale: gross,
        taxable_amount: taxable,
        abgeltungssteuer: taxes.abgeltungssteuer,
        solidaritaetszuschlag: taxes.solidaritaetszuschlag,
        kirchensteuer: taxes.kirchensteuer,
        total_tax: taxes.total,
        accumulated_after: gross,
        notes: None,
    }
}

#[test]
fn vorabpauschale_totals_sum_entries_but_stay_out_of_the_pot() {
    let mut statement =
        GermanTaxStatement::new(2024, d("0"), d("0"), d("0"), d("0")).unwrap();
    // €200 gross equity-fund Vorabpauschale: 30% Teilfreistellung → €140 taxable.
    statement.add_vorabpauschale(vorabpauschale_entry(
        "IE00BK5BQT80",
        d("200"),
        TeilfreistellungRate::Equity,
    ));
    statement.add_capital_gain(stock_capital_entry(d("500")));
    statement.calculate_totals();

    assert_eq!(statement.total_vorabpauschale_gross, d("200"));
    assert_eq!(statement.total_vorabpauschale_taxable, d("140"));
    // Vorabpauschale is next-year income, so it must not enter this year's taxable base.
    assert_eq!(statement.total_taxable_income, d("500"));
}

#[test]
fn csv_renders_vorabpauschale_section() {
    let mut statement =
        GermanTaxStatement::new(2024, d("0"), d("0"), d("0"), d("0")).unwrap();
    statement.add_vorabpauschale(vorabpauschale_entry(
        "IE00BK5BQT80",
        d("200"),
        TeilfreistellungRate::Equity,
    ));
    statement.calculate_totals();

    let csv = CsvFormatter::write(&statement);
    assert!(csv.contains("VORABPAUSCHALE_GROSS"));
    assert!(csv.contains("IE00BK5BQT80"));
    // Declared in the following year's return, on the equity-fund Vorabpauschale line.
    assert!(csv.contains("2025"));
    assert!(csv.contains("KAP-INV Zeile 9"));
}

#[test]
fn csv_warns_about_funds_missing_nav() {
    let mut statement =
        GermanTaxStatement::new(2024, d("0"), d("0"), d("0"), d("0")).unwrap();
    statement
        .vorabpauschale_missing_nav
        .push("IE00BK5BQT80".to_string());
    statement.calculate_totals();

    let csv = CsvFormatter::write(&statement);
    assert!(csv.contains("NOT computed"));
    assert!(csv.contains("IE00BK5BQT80"));
}

#[test]
fn csv_omits_vorabpauschale_without_funds() {
    let mut statement =
        GermanTaxStatement::new(2024, d("0"), d("0"), d("0"), d("0")).unwrap();
    statement.add_capital_gain(stock_capital_entry(d("500")));    statement.calculate_totals();

    let csv = CsvFormatter::write(&statement);
    assert!(!csv.contains("VORABPAUSCHALE"));
}

#[test]
fn abgeltungsteuer_is_exact_quarter_of_the_base() {
    let rates = GermanTaxRates::for_year(2024, d("0")).unwrap();
    let taxes = rates.compute_taxes(d("1000"), d("0"));
    assert!(taxes.abgeltungssteuer.eq_value(&d("250")));
    assert!(taxes.solidaritaetszuschlag.eq_value(&d("13.75")));
    assert!(taxes.kirchensteuer.eq_value(&d("0")));
    assert!(taxes.total.eq_value(&d("263.75")));

    let with_church = GermanTaxRates::for_year(2024, d("0.09")).unwrap();
    let taxes = with_church.compute_taxes(d("1000"), d("10"));
    // (1000 - 4 * 10) / 4.09 = 234.7188...
    assert!(taxes.abgeltungssteuer.round_dp(4).eq_value(&d("234.7188")));
}
