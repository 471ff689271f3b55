use investments::analysis::sell_simulation::{GermanTaxSimulation, SimulationError};
use investments::date::Date;
use investments::decimal::Decimal;
use investments::tax_statement::germany::{CapitalGainEntry, GermanTaxStatement};
use investments::taxes::germany::TeilfreistellungRate;

fn d(text: &str) -> Decimal {
    Decimal::parse(text).unwrap()
}

fn gain(taxable: Decimal) -> CapitalGainEntry {
    CapitalGainEntry {
        transaction_date: Date::from_ymd_opt(2025, 6, 1).unwrap(),
        settle_date: Date::from_ymd_opt(2025, 6, 3).unwrap(),
        symbol: "SYM".to_string(),
        isin: String::new(),
        description: "Sym".to_string(),
        quantity: d("1"),
        cost_basis_eur: d("0"),
        proceeds_eur: taxable,
        gross_gain_loss: taxable,
        taxable_before_exemption: taxable,
        teilfreistellung_rate: TeilfreistellungRate::NotFund,
        is_stock: true,
        taxable_amount: taxable,
        foreign_tax: d("0"),
        abgeltungssteuer: d("0"),
        solidaritaetszuschlag: d("0"),
        kirchensteuer: d("0"),
        total_tax: d("0"),
        pre_2009_holding: false,
        notes: None,
    }
}

fn year(church: &str, net_tax_due: &str, gains: Vec<CapitalGainEntry>) -> GermanTaxStatement {
    let mut st = GermanTaxStatement::new(2025, d(church), d("0"), d("0"), d("0")).unwrap();
    st.net_tax_due = d(net_tax_due);
    st.capital_gains = gains;
    st
}

/// Each disposal is priced at what it adds to the year; the total is taken end to end.
#[test]
fn disposals_are_priced_at_the_difference_they_make() {
    let before = year("0", "100", vec![gain(d("500"))]);
    let mut simulation = GermanTaxSimulation::new(2025, before);
    assert_eq!(simulation.total(), d("0"));
    assert_eq!(simulation.after().net_tax_due, d("100"));

    let first = year("0", "110.555", vec![gain(d("500")), gain(d("40"))]);
    assert_eq!(simulation.observe(first, &vec![false, true]), Ok(()));
    // A loss shelters the earlier gain: the year's tax goes down.
    let second = year("0", "90", vec![gain(d("500")), gain(d("40")), gain(d("-80"))]);
    assert_eq!(simulation.observe(second, &vec![false, true, true]), Ok(()));

    assert_eq!(simulation.marginal(0), d("10.56"));
    assert_eq!(simulation.marginal(1), d("-20.56"));
    assert_eq!(simulation.total(), d("-10"));
    // 40 € alone at 25% plus 5.5% solidarity surcharge.
    assert_eq!(simulation.standalone(0), d("10.55"));
    // A loss on its own costs nothing.
    assert_eq!(simulation.standalone(1), d("0"));
    assert_eq!(simulation.after().net_tax_due, d("90"));
}

/// The stand-alone comparator uses the year's own rates, church tax included.
#[test]
fn standalone_cost_carries_church_tax() {
    let mut simulation = GermanTaxSimulation::new(2025, year("0.09", "0", vec![]));
    let after = year("0.09", "864.76", vec![gain(d("3088.96"))]);
    assert_eq!(simulation.observe(after, &vec![true]), Ok(()));
    // 3088.96 / 4.09 = 755.25 Abgeltungsteuer, plus 9% KiSt and 5.5% Soli on it.
    assert_eq!(simulation.standalone(0), d("864.76"));
    assert_eq!(simulation.marginal(0), d("864.76"));
}

/// A recomputed year whose entries do not pair with its trades is refused and changes nothing.
#[test]
fn mismatched_entries_are_refused() {
    let mut simulation = GermanTaxSimulation::new(2025, year("0", "100", vec![]));
    let broken = year("0", "120", vec![gain(d("40"))]);
    let error = simulation.observe(broken, &vec![false, true]).unwrap_err();
    assert_eq!(
        error,
        SimulationError::EntryCountMismatch { year: 2025, entries: 1, trades: 2 }
    );
    assert_eq!(
        error.message(),
        "German tax simulation: 2025 yielded 1 capital gain entries for 2 trades"
    );
    assert_eq!(simulation.total(), d("0"));
    assert_eq!(simulation.after().net_tax_due, d("100"));
}

#[test]
fn too_few_trades_are_refused() {
    let mut simulation = GermanTaxSimulation::new(2025, year("0", "0", vec![]));
    let error = simulation.observe(year("0", "0", vec![]), &vec![]).unwrap_err();
    assert_eq!(
        error,
        SimulationError::TooFewTrades { year: 2025, trades: 0, simulated: 1 }
    );
    assert_eq!(
        error.message(),
        "German tax simulation: 2025 has only 0 trades for 1 simulated sales"
    );
}

#[test]
fn simulated_sales_must_trail_the_real_ones() {
    let mut simulation = GermanTaxSimulation::new(2025, year("0", "0", vec![]));
    let shuffled = year("0", "10", vec![gain(d("40")), gain(d("50"))]);
    let error = simulation.observe(shuffled, &vec![true, false]).unwrap_err();
    assert_eq!(error, SimulationError::NotTrailing { year: 2025 });
    assert_eq!(
        error.message(),
        "German tax simulation: the simulated sales aren't the trailing 2025 trades"
    );
}
