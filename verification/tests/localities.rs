use investments::broker_statement::{IdleCashInterest, InterestKind};
use investments::currency::Cash;
use investments::date::Date;
use investments::decimal::Decimal;
use investments::localities::{
    get_russian_central_bank_min_last_working_day, us_dividend_tax_rate, Jurisdiction, RateSourceKind,
};

fn d(text: &str) -> Decimal {
    Decimal::parse(text).unwrap()
}

#[test]
fn jurisdictions_take_the_rates_their_authority_requires() {
    let spain = Jurisdiction::Spain.traits();
    assert_eq!(spain.code, "ES");
    assert_eq!(spain.currency, "EUR");
    assert_eq!(spain.rate_source, RateSourceKind::Ecb);
    assert_eq!(Jurisdiction::Germany.traits().rate_source, RateSourceKind::Ecb);
    assert_eq!(Jurisdiction::Russia.traits().rate_source, RateSourceKind::Cbr);
    assert_eq!(Jurisdiction::Russia.traits().tax_precision, 0);
    assert_eq!(Jurisdiction::Usa.traits().name, "USA");
}

#[test]
fn us_dividend_withholding_rose_in_august_2024() {
    assert_eq!(us_dividend_tax_rate(Date::from_ymd_opt(2024, 8, 15).unwrap()), d("0.1"));
    assert_eq!(us_dividend_tax_rate(Date::from_ymd_opt(2024, 8, 16).unwrap()), d("0.3"));
    assert_eq!(us_dividend_tax_rate(Date::from_ymd_opt(2025, 1, 1).unwrap()), d("0.3"));
    assert_eq!(us_dividend_tax_rate(Date::from_ymd_opt(2023, 12, 31).unwrap()), d("0.1"));
}

#[test]
fn interest_keeps_its_label_where_the_statement_has_one() {
    let date = Date::from_ymd_opt(2024, 6, 1).unwrap();
    let plain = IdleCashInterest::new(date, Cash::new("USD", d("-1.5")));
    assert_eq!(plain.kind, None);
    assert_eq!(plain.amount.currency, "USD");
    let typed = IdleCashInterest::new_typed(date, Cash::new("EUR", d("2")), InterestKind::Paid);
    assert_eq!(typed.kind, Some(InterestKind::Paid));
    assert_eq!(typed.amount.amount, d("2"));
}

#[test]
fn central_bank_rates_are_certain_some_days_back() {
    let f = get_russian_central_bank_min_last_working_day;
    let ymd = |y, m, d| Date::from_ymd_opt(y, m, d).unwrap();
    // New Year holidays: eleven days back, but not before December 29.
    assert_eq!(f(ymd(2024, 1, 5)), ymd(2023, 12, 29));
    assert_eq!(f(ymd(2024, 1, 11)), ymd(2023, 12, 31));
    assert_eq!(f(ymd(2024, 1, 12)), ymd(2024, 1, 1));
    // The first days of April 2020.
    assert_eq!(f(ymd(2020, 4, 3)), ymd(2020, 3, 28));
    assert_eq!(f(ymd(2020, 4, 7)), ymd(2020, 4, 2));
    // Otherwise five days back, across month ends and leap days.
    assert_eq!(f(ymd(2024, 3, 3)), ymd(2024, 2, 27));
    assert_eq!(f(ymd(2023, 3, 3)), ymd(2023, 2, 26));
    assert_eq!(f(ymd(2024, 1, 13)), ymd(2024, 1, 8));
}

/// The Spain traits (the `Country` part of the original check needs the Spanish tax module).
#[test]
fn spain_country_traits() {
    let traits = Jurisdiction::Spain.traits();
    assert_eq!(traits.name, "Spain");
    assert_eq!(traits.code, "ES");
    assert_eq!(traits.currency, "EUR");
    assert_eq!(traits.tax_precision, 2);
    assert!(traits.rate_source == RateSourceKind::Ecb);
}
