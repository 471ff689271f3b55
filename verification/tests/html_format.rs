use investments::decimal::Decimal;
use investments::tax_statement::html::builder::{escape, table, Align, Cell, Column, Row};
use investments::tax_statement::html::format::{days, eur, pct, pct_observed, qty, rate};
use investments::tax_statement::output_format::OutputFormat;

fn d(text: &str) -> Decimal {
    Decimal::parse(text).unwrap()
}

#[test]
fn punctuate_groups_thousands_and_swaps_separators() {
    assert_eq!(eur(d("1234567.891")), "1.234.567,89");
    assert_eq!(eur(d("-1234.5")), "-1.234,50");
    assert_eq!(eur(d("0.5")), "0,50");
    assert_eq!(eur(d("999")), "999,00");
    assert_eq!(eur(d("1000")), "1.000,00");
}

#[test]
fn punctuate_rounds_half_away_from_zero_and_drops_negative_zero() {
    assert_eq!(eur(d("-0.125")), "-0,13");
    assert_eq!(eur(d("-0.001")), "0,00");
    assert_eq!(eur(d("0")), "0,00");
}

#[test]
fn quantities_rates_and_percentages() {
    assert_eq!(qty(d("35.8539")), "35,8539");
    assert_eq!(qty(d("17.0000")), "17");
    assert_eq!(qty(d("1234")), "1.234");
    assert_eq!(rate(d("0.85871234")), "0,8587");
    assert_eq!(rate(d("1")), "1,0000");
    assert_eq!(pct(d("0.15")), "15 %");
    assert_eq!(pct(d("0.055")), "5,5 %");
    assert_eq!(pct_observed(d("0.14994")), "15 %");
    assert_eq!(pct_observed(d("0.2635")), "26,4 %");
}

#[test]
fn days_are_plain_integers() {
    assert_eq!(days(0), "0");
    assert_eq!(days(366), "366");
    assert_eq!(days(-3), "-3");
}

#[test]
fn output_format_follows_the_extension() {
    for path in ["a.html", "a.htm", "a.HTML", "a.Htm"] {
        assert!(
            matches!(OutputFormat::from_path(path), OutputFormat::Html),
            "{path} should select the HTML report"
        );
    }
    for path in ["a.csv", "a.CSV", "a.txt", "a", "a.html.csv"] {
        assert!(
            matches!(OutputFormat::from_path(path), OutputFormat::Csv),
            "{path} should select the CSV statement"
        );
    }
    assert_eq!(OutputFormat::Csv.description(), "statement (CSV)");
    assert_eq!(OutputFormat::Html.description(), "report (HTML)");
}

#[test]
fn markup_is_escaped() {
    assert_eq!(escape("<a href=\"x\">Tom & Jerry's</a>"), "&lt;a href=&quot;x&quot;&gt;Tom &amp; Jerry&#39;s&lt;/a&gt;");
    let cell = Cell::num("-1.234,50");
    assert!(cell.negative);
    assert_eq!(cell.align, Align::Right);
    assert!(!Cell::num("1,00").negative);
    assert_eq!(Cell::text("a<b").html, "a&lt;b");
}

#[test]
fn tables_pad_short_rows() {
    let columns = vec![
        Column { title: "Name", align: Align::Left },
        Column { title: "Amount", align: Align::Right },
    ];
    let rows = vec![Row::data(vec![Cell::text("x")]), Row::total(vec![Cell::text("Sum"), Cell::num("-2")])];
    let mut out = String::new();
    table(&mut out, &columns, &rows);
    assert_eq!(
        out,
        "<table>\n<thead><tr><th class=\"col\">Name</th><th class=\"col num\">Amount</th></tr></thead>\n<tbody>\n\
<tr class=\"data\"><td class=\"cell\">x</td><td class=\"cell\"></td></tr>\n\
<tr class=\"total\"><td class=\"cell\">Sum</td><td class=\"cell num neg\">-2</td></tr>\n\
</tbody>\n</table>\n"
    );
}
