use investments::date::Date;
use investments::decimal::Decimal;
use investments::tax_statement::fx_fifo::{CurrencyFxResult, FxRealization};
use investments::broker_statement::interest::ForeignCashFlow;
use investments::config::ForeignCurrencyTaxation;
use investments::tax_statement::germany::processor::{
    foreign_activity_without_ledger, held_over_one_year, route_fx_results, route_fx_section20,
    route_fx_section23,
};
use investments::tax_statement::germany::{CsvFormatter, GermanTaxStatement};

fn d(text: &str) -> Decimal {
    Decimal::parse(text).unwrap()
}

fn date(y: i32, m: u32, day: u32) -> Date {
    Date::from_ymd_opt(y, m, day).unwrap()
}

/// Build one taxable/borrowed FX realization for the §23 routing tests.
fn realization(acquired: (i32, u32, u32), disposed: (i32, u32, u32), amount: Decimal) -> FxRealization {
    FxRealization {
        date: date(disposed.0, disposed.1, disposed.2),
        acquisition_date: date(acquired.0, acquired.1, acquired.2),
        amount,
        activity_code: "FOREX".to_string(),
    }
}

fn usd(taxable: Vec<FxRealization>, non_taxable: Vec<FxRealization>) -> CurrencyFxResult {
    CurrencyFxResult {
        currency: "USD".to_string(),
        taxable,
        non_taxable,
        ledger: Vec::new(),
    }
}

fn fresh(year: i32) -> GermanTaxStatement {
    GermanTaxStatement::new(year, d("0"), d("0"), d("0"), d("0")).unwrap()
}

/// §23 routing splits held-currency disposals by the one-year Spekulationsfrist, drops
/// non-deductible long-held losses, flags borrowed-currency realizations, and year-filters.
#[test]
fn section23_routes_realizations_by_holding_period() {
    let result = usd(
        vec![
            realization((2025, 1, 10), (2025, 6, 10), d("100")), // short-term gain
            realization((2025, 2, 1), (2025, 7, 1), d("-30")),   // short-term loss
            realization((2023, 1, 5), (2025, 1, 10), d("50")),   // >1yr gain → tax-free
            realization((2023, 3, 1), (2025, 3, 5), d("-20")),   // >1yr loss → dropped
            realization((2024, 1, 1), (2024, 12, 31), d("999")), // other year → filtered
        ],
        vec![
            realization((2025, 4, 1), (2025, 5, 1), d("15")), // borrowed → manual review
            realization((2024, 1, 1), (2024, 6, 1), d("77")), // other year → filtered
        ],
    );

    let mut statement = fresh(2025);
    let has_income = route_fx_section23(&mut statement, &vec![result], 2025);

    assert!(has_income);
    let s = &statement.section23;
    assert_eq!(s.short_term_gains, d("100"));
    assert_eq!(s.short_term_losses, d("30"));
    assert_eq!(s.short_term_net(), d("70"));
    assert_eq!(s.long_term_tax_free, d("50"));
    assert_eq!(s.borrowed_review, d("15"));

    // §23 must stay isolated from the §20 path: no FX gain entries, no non-taxable margin.
    assert!(statement.fx_gains.is_empty());
    assert_eq!(statement.non_taxable_margin_fx, d("0"));
}

/// The Spekulationsfrist is inclusive of the first anniversary: a disposal exactly one year
/// after acquisition is still taxable (≤ 1 year); one day later is tax-free (> 1 year).
#[test]
fn section23_one_year_boundary_is_taxable() {
    let on_anniversary = usd(vec![realization((2024, 6, 10), (2025, 6, 10), d("40"))], vec![]);
    let mut statement = fresh(2025);
    route_fx_section23(&mut statement, &vec![on_anniversary], 2025);
    assert_eq!(statement.section23.short_term_gains, d("40"));
    assert_eq!(statement.section23.long_term_tax_free, d("0"));

    let day_after = usd(vec![realization((2024, 6, 10), (2025, 6, 11), d("40"))], vec![]);
    let mut statement = fresh(2025);
    route_fx_section23(&mut statement, &vec![day_after], 2025);
    assert_eq!(statement.section23.short_term_gains, d("0"));
    assert_eq!(statement.section23.long_term_tax_free, d("40"));
}

/// The §23 buckets surface in the CSV under Anlage SO with the Freigrenze and borrowed-review flag.
#[test]
fn section23_renders_anlage_so_csv() {
    let result = usd(
        vec![realization((2025, 1, 10), (2025, 6, 10), d("100"))],
        vec![realization((2025, 4, 1), (2025, 5, 1), d("15"))],
    );
    let mut statement = fresh(2025);
    route_fx_section23(&mut statement, &vec![result], 2025);
    statement.calculate_totals();

    let csv = CsvFormatter::write(&statement);
    assert!(csv.contains("ANLAGE SO (§23 EStG)"));
    assert!(csv.contains("SECTION23_SHORT_TERM_NET"));
    assert!(csv.contains("SECTION23_FREIGRENZE"));
    assert!(csv.contains("SECTION23_BORROWED_REVIEW"));
    // €1000 Freigrenze applies from 2024 onward.
    assert!(csv.contains("1000"));
}

/// Nothing in the year: no bucket is set and the routing reports no income.
#[test]
fn section23_reports_nothing_outside_the_year() {
    let result = usd(
        vec![realization((2023, 1, 10), (2024, 6, 10), d("100"))],
        vec![realization((2024, 4, 1), (2024, 5, 1), d("15"))],
    );
    let mut statement = fresh(2025);
    assert!(!route_fx_section23(&mut statement, &vec![result], 2025));
    assert_eq!(statement.section23.short_term_gains, d("0"));
    assert_eq!(statement.section23.borrowed_review, d("0"));
}

/// Each bucket is summed at full precision and rounded to cents once.
#[test]
fn section23_buckets_round_once() {
    let result = usd(
        vec![
            realization((2025, 1, 10), (2025, 6, 10), d("0.004")),
            realization((2025, 1, 10), (2025, 6, 11), d("0.004")),
        ],
        vec![],
    );
    let mut statement = fresh(2025);
    assert!(route_fx_section23(&mut statement, &vec![result], 2025));
    assert_eq!(statement.section23.short_term_gains, d("0.01"));
}

/// A year after 29 February is 28 February of the next year (chrono's month arithmetic), so the
/// first of March is already more than a year.
#[test]
fn holding_period_from_a_leap_day() {
    assert!(!held_over_one_year(date(2024, 2, 29), date(2025, 2, 28)));
    assert!(held_over_one_year(date(2024, 2, 29), date(2025, 3, 1)));
    assert!(!held_over_one_year(date(2024, 6, 10), date(2025, 6, 10)));
    assert!(held_over_one_year(date(2024, 6, 10), date(2025, 6, 11)));
    assert!(!held_over_one_year(date(2025, 6, 10), date(2024, 6, 11)));
}

/// §20 routing: each held-currency result of the year is its own cent-rounded FX entry; borrowed
/// results are summed at full precision into the non-taxable margin and rounded once.
#[test]
fn section20_routes_each_result_to_an_entry() {
    let result = usd(
        vec![
            realization((2025, 1, 10), (2025, 6, 10), d("10.005")),
            realization((2025, 2, 1), (2025, 7, 1), d("-4")),
            realization((2024, 1, 1), (2024, 12, 31), d("999")),
        ],
        vec![
            realization((2025, 4, 1), (2025, 5, 1), d("0.004")),
            realization((2025, 4, 1), (2025, 5, 2), d("0.004")),
        ],
    );
    let mut statement = fresh(2025);
    assert!(route_fx_section20(&mut statement, &vec![result], 2025));
    assert_eq!(statement.fx_gains.len(), 2);
    assert_eq!(statement.fx_gains[0].gross_amount_eur, d("10.01"));
    assert_eq!(statement.fx_gains[0].currency_pair, "EUR.USD");
    assert_eq!(
        statement.fx_gains[0].description,
        "§20 Fremdwährungsgewinn — Verwendung (FOREX)"
    );
    assert_eq!(statement.fx_gains[0].notes, None);
    assert_eq!(statement.fx_gains[1].gross_amount_eur, d("-4"));
    assert_eq!(
        statement.fx_gains[1].notes.as_deref(),
        Some("FX loss - can offset other capital income (§20 EStG)")
    );
    assert_eq!(statement.non_taxable_margin_fx, d("0.01"));
    assert_eq!(statement.section23.short_term_gains, d("0"));
}

#[test]
fn detects_foreign_activity_without_a_ledger() {
    let usd_flow = ForeignCashFlow {
        currency: "USD".to_string(),
        date: date(2024, 6, 1),
        transaction_id: String::new(),
        activity_code: "DIV".to_string(),
        amount: d("10"),
        balance: d("10"),
        eur_execution: None,
    };

    // A foreign dividend with no ledger to compute FX from → flagged.
    assert!(foreign_activity_without_ledger(&vec![], false, &vec!["USD".to_string()]));
    // EUR-only activity → nothing to compute, not flagged.
    assert!(!foreign_activity_without_ledger(&vec![], false, &vec!["EUR".to_string()]));
    // No activity at all → not flagged.
    assert!(!foreign_activity_without_ledger(&vec![], false, &vec![]));
    // Ledger present → the FIFO runs, so not flagged even with a foreign dividend.
    assert!(!foreign_activity_without_ledger(
        &vec![usd_flow],
        false,
        &vec!["USD".to_string()]
    ));
    // A currency exchange without a ledger → flagged.
    assert!(foreign_activity_without_ledger(&vec![], true, &vec![]));
}

/// The account's treatment picks the path: §20 entries or §23 buckets, never both.
#[test]
fn fx_results_follow_the_account_treatment() {
    let result = || usd(vec![realization((2025, 1, 10), (2025, 6, 10), d("100"))], vec![]);

    let mut statement = fresh(2025);
    assert!(route_fx_results(
        &mut statement,
        &vec![result()],
        2025,
        ForeignCurrencyTaxation::InterestBearing
    ));
    assert_eq!(statement.fx_gains.len(), 1);
    assert_eq!(statement.section23.short_term_gains, d("0"));

    let mut statement = fresh(2025);
    assert!(route_fx_results(
        &mut statement,
        &vec![result()],
        2025,
        ForeignCurrencyTaxation::NonInterestBearing
    ));
    assert!(statement.fx_gains.is_empty());
    assert_eq!(statement.section23.short_term_gains, d("100"));
}
