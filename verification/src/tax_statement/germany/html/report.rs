//! The whole printable German report: document head with the stylesheet, the title block, the
//! table of contents and every section that has something to show, in reading order.
use vstd::prelude::*;

use crate::tax_statement::eur::eur_ok;
use crate::tax_statement::germany::statement::GermanTaxStatement;
use crate::tax_statement::html::builder::{escape, escape_html};
use crate::tax_statement::html::style::CSS;
use crate::text::{int_text, push_int};

use super::activity_section::{activity_after, activity_ok, all_rows, by_activity, shown};
use super::bookings_section::{bookings, bookings_after, bookings_ok};
use super::fund_section::{fund_section_after, fund_section_ok, vorabpauschale};
use super::fx_section::{fx, fx_after, fx_ok};
use super::notes::{notes, notes_after, notes_ok};
use super::open_lots_section::{open_lots, open_lots_after, open_lots_ok};
use super::sales_section::{sales, sales_after, sales_ok};
use super::securities::{securities, securities_after};
use super::security_section::{by_security, security_after, security_ok};
use super::summary::{computation_ok, forms_ok, tax_computation, tax_computation_after, tax_forms, tax_forms_after};
use super::title::{title_block, title_text};
use super::trades_section::{trades, trades_after, trades_ok};
use super::withholding_section::{withholding, withholding_after, withholding_ok};
use super::ReportMeta;

verus! {

/// What every section and the title block need of the figures.
pub open spec fn report_ok(st: GermanTaxStatement, meta: ReportMeta) -> bool {
    &&& forms_ok(st) && computation_ok(st) && activity_ok(st) && security_ok(st)
    &&& bookings_ok(st) && withholding_ok(st) && sales_ok(st) && trades_ok(st) && fx_ok(st)
    &&& open_lots_ok(st) && fund_section_ok(st) && notes_ok(st)
    &&& eur_ok(st.kap_zeile_19) && eur_ok(st.total_taxable_income) && eur_ok(st.net_tax_due)
    &&& eur_ok(st.kap_zeile_41)
    &&& meta.generated_at.hour < 24 && meta.generated_at.minute < 60
}

/// The text of each section on its own.
#[verifier::opaque]
pub open spec fn forms_part(st: GermanTaxStatement) -> Seq<char> {
    tax_forms_after(Seq::empty(), st)
}

#[verifier::opaque]
pub open spec fn computation_part(st: GermanTaxStatement) -> Seq<char> {
    tax_computation_after(Seq::empty(), st)
}

#[verifier::opaque]
pub open spec fn activity_part(st: GermanTaxStatement) -> Seq<char> {
    activity_after(Seq::empty(), st)
}

#[verifier::opaque]
pub open spec fn security_part(st: GermanTaxStatement) -> Seq<char> {
    security_after(Seq::empty(), st)
}

#[verifier::opaque]
pub open spec fn bookings_part(st: GermanTaxStatement) -> Seq<char> {
    bookings_after(Seq::empty(), st)
}

#[verifier::opaque]
pub open spec fn withholding_part(st: GermanTaxStatement) -> Seq<char> {
    withholding_after(Seq::empty(), st)
}

#[verifier::opaque]
pub open spec fn sales_part(st: GermanTaxStatement) -> Seq<char> {
    sales_after(Seq::empty(), st)
}

#[verifier::opaque]
pub open spec fn trades_part(st: GermanTaxStatement) -> Seq<char> {
    trades_after(Seq::empty(), st)
}

#[verifier::opaque]
pub open spec fn fx_part(st: GermanTaxStatement) -> Seq<char> {
    fx_after(Seq::empty(), st)
}

#[verifier::opaque]
pub open spec fn open_lots_part(st: GermanTaxStatement, meta: ReportMeta) -> Seq<char> {
    open_lots_after(Seq::empty(), st, meta)
}

#[verifier::opaque]
pub open spec fn fund_part(st: GermanTaxStatement) -> Seq<char> {
    fund_section_after(Seq::empty(), st)
}

#[verifier::opaque]
pub open spec fn securities_part(st: GermanTaxStatement) -> Seq<char> {
    securities_after(Seq::empty(), st)
}

#[verifier::opaque]
pub open spec fn notes_part(st: GermanTaxStatement, meta: ReportMeta) -> Seq<char> {
    notes_after(Seq::empty(), st, meta)
}

/// The `i`-th section in reading order: its anchor, its title in the contents, whether it is
/// shown, and its text.
pub open spec fn part(i: int, st: GermanTaxStatement, meta: ReportMeta) -> (Seq<char>, Seq<char>, bool, Seq<char>) {
    if i == 0 {
        ("steuerformulare"@, "Übersicht für die Steuerformulare"@, true, forms_part(st))
    } else if i == 1 {
        ("steuerberechnung"@, "Steuerberechnung (Abgeltungsteuer)"@, true, computation_part(st))
    } else if i == 2 {
        (
            "aktivitaet"@,
            "Übersicht nach Aktivität und Assetkategorie"@,
            shown(all_rows(st)).len() > 0,
            activity_part(st),
        )
    } else if i == 3 {
        (
            "wertpapiere"@,
            "Gewinne und Verluste nach Wertpapier"@,
            st.capital_gains@.len() > 0 || st.dividends@.len() > 0,
            security_part(st),
        )
    } else if i == 4 {
        ("buchungen"@, "Barwirksame Buchungen"@, st.report.bookings@.len() > 0, bookings_part(st))
    } else if i == 5 {
        ("quellensteuer"@, "Quellensteuer-Übersicht"@, st.report.withholding@.len() > 0, withholding_part(st))
    } else if i == 6 {
        (
            "wertpapiergeschaefte"@,
            "Gewinne und Verluste aus Wertpapiergeschäften"@,
            st.report.sales@.len() > 0,
            sales_part(st),
        )
    } else if i == 7 {
        ("wertpapiertransaktionen"@, "Wertpapiertransaktionen"@, st.report.trades@.len() > 0, trades_part(st))
    } else if i == 8 {
        ("fremdwaehrung"@, "Fremdwährungsgewinne/-verluste"@, st.report.fx_rows@.len() > 0, fx_part(st))
    } else if i == 9 {
        (
            "offene-positionen"@,
            "Offene Positionen zum Jahresende"@,
            st.report.open_lots@.len() > 0,
            open_lots_part(st, meta),
        )
    } else if i == 10 {
        (
            "vorabpauschale"@,
            "Vorabpauschale (§18 InvStG)"@,
            !(st.vorabpauschale@.len() == 0 && st.vorabpauschale_missing_nav@.len() == 0),
            fund_part(st),
        )
    } else if i == 11 {
        ("wertpapieruebersicht"@, "Wertpapierübersicht"@, st.report.securities@.len() > 0, securities_part(st))
    } else {
        ("hinweise"@, "Hinweise und Warnungen"@, true, notes_part(st, meta))
    }
}

/// The number of sections.
pub open spec fn part_count() -> nat {
    13
}

/// A line of the table of contents.
pub open spec fn toc_line(id: Seq<char>, title: Seq<char>) -> Seq<char> {
    "<li><a href=\"#"@ + id + "\">"@ + escape_html(title) + "</a></li>\n"@
}

/// The texts of the shown sections among the first `n`, in order.
pub open spec fn body_upto(st: GermanTaxStatement, meta: ReportMeta, n: nat) -> Seq<char>
    decreases n,
{
    if n == 0 {
        Seq::empty()
    } else {
        let s = part(n - 1, st, meta);
        body_upto(st, meta, (n - 1) as nat) + if s.2 {
            s.3
        } else {
            Seq::empty()
        }
    }
}

/// The contents lines of the shown sections among the first `n`, in order.
pub open spec fn toc_upto(st: GermanTaxStatement, meta: ReportMeta, n: nat) -> Seq<char>
    decreases n,
{
    if n == 0 {
        Seq::empty()
    } else {
        let s = part(n - 1, st, meta);
        toc_upto(st, meta, (n - 1) as nat) + if s.2 {
            toc_line(s.0, s.1)
        } else {
            Seq::empty()
        }
    }
}

/// The document head: language, title with the year, the stylesheet.
pub open spec fn report_head(year: i32) -> Seq<char> {
    "<!DOCTYPE html>\n<html lang=\"de\">\n<head>\n<meta charset=\"utf-8\">\n\
         <meta name=\"viewport\" content=\"width=device-width, initial-scale=1\">\n\
         <title>Informativer Steuerbericht "@ + int_text(year as int) + "</title>\n<style>"@ + CSS@
        + "</style>\n</head>\n<body>\n"@
}

/// The whole document.
pub open spec fn report_text(st: GermanTaxStatement, meta: ReportMeta) -> Seq<char> {
    report_head(meta.year) + title_text(st, meta) + "<nav id=\"inhalt\">\n<h2 class=\"first\">Inhalt</h2>\n<ol class=\"toc\">\n"@
        + toc_upto(st, meta, part_count()) + "</ol>\n</nav>\n"@ + body_upto(st, meta, part_count())
        + "</body>\n</html>\n"@
}

/// Keep a section that has something to show: its text into the body, its line into the contents.
fn add_section(body: &mut String, toc: &mut String, id: &str, title: &str, shown: bool, text: &str)
    ensures
        final(body)@ == old(body)@ + if shown {
            text@
        } else {
            Seq::empty()
        },
        final(toc)@ == old(toc)@ + if shown {
            toc_line(id@, title@)
        } else {
            Seq::empty()
        },
{
    if shown {
        toc.append("<li><a href=\"#");
        toc.append(id);
        toc.append("\">");
        toc.append(escape(title).as_str());
        toc.append("</a></li>\n");
        body.append(text);
        assert(toc@ =~= old(toc)@ + toc_line(id@, title@));
    } else {
        assert(toc@ =~= old(toc)@ + Seq::<char>::empty());
        assert(body@ =~= old(body)@ + Seq::<char>::empty());
    }
}

fn add_forms_section(body: &mut String, toc: &mut String, st: &GermanTaxStatement, meta: &ReportMeta)
    requires
        report_ok(*st, *meta),
        old(body)@ == body_upto(*st, *meta, 0),
        old(toc)@ == toc_upto(*st, *meta, 0),
    ensures
        final(body)@ == body_upto(*st, *meta, 1),
        final(toc)@ == toc_upto(*st, *meta, 1),
{
    let mut buffer = String::new();
    let shown = tax_forms(&mut buffer, st);
    assert(buffer@ == forms_part(*st)) by {
        reveal(forms_part);
    }
    add_section(body, toc, "steuerformulare", "Übersicht für die Steuerformulare", shown, buffer.as_str());
}

fn add_computation_section(body: &mut String, toc: &mut String, st: &GermanTaxStatement, meta: &ReportMeta)
    requires
        report_ok(*st, *meta),
        old(body)@ == body_upto(*st, *meta, 1),
        old(toc)@ == toc_upto(*st, *meta, 1),
    ensures
        final(body)@ == body_upto(*st, *meta, 2),
        final(toc)@ == toc_upto(*st, *meta, 2),
{
    let mut buffer = String::new();
    let shown = tax_computation(&mut buffer, st);
    assert(buffer@ == computation_part(*st)) by {
        reveal(computation_part);
    }
    add_section(body, toc, "steuerberechnung", "Steuerberechnung (Abgeltungsteuer)", shown, buffer.as_str());
}

fn add_activity_section(body: &mut String, toc: &mut String, st: &GermanTaxStatement, meta: &ReportMeta)
    requires
        report_ok(*st, *meta),
        old(body)@ == body_upto(*st, *meta, 2),
        old(toc)@ == toc_upto(*st, *meta, 2),
    ensures
        final(body)@ == body_upto(*st, *meta, 3),
        final(toc)@ == toc_upto(*st, *meta, 3),
{
    let mut buffer = String::new();
    let shown = by_activity(&mut buffer, st);
    assert(buffer@ == activity_part(*st)) by {
        reveal(activity_part);
    }
    add_section(body, toc, "aktivitaet", "Übersicht nach Aktivität und Assetkategorie", shown, buffer.as_str());
}

fn add_security_section(body: &mut String, toc: &mut String, st: &GermanTaxStatement, meta: &ReportMeta)
    requires
        report_ok(*st, *meta),
        old(body)@ == body_upto(*st, *meta, 3),
        old(toc)@ == toc_upto(*st, *meta, 3),
    ensures
        final(body)@ == body_upto(*st, *meta, 4),
        final(toc)@ == toc_upto(*st, *meta, 4),
{
    let mut buffer = String::new();
    let shown = by_security(&mut buffer, st);
    assert(buffer@ == security_part(*st)) by {
        reveal(security_part);
    }
    add_section(body, toc, "wertpapiere", "Gewinne und Verluste nach Wertpapier", shown, buffer.as_str());
}

fn add_bookings_section(body: &mut String, toc: &mut String, st: &GermanTaxStatement, meta: &ReportMeta)
    requires
        report_ok(*st, *meta),
        old(body)@ == body_upto(*st, *meta, 4),
        old(toc)@ == toc_upto(*st, *meta, 4),
    ensures
        final(body)@ == body_upto(*st, *meta, 5),
        final(toc)@ == toc_upto(*st, *meta, 5),
{
    let mut buffer = String::new();
    let shown = bookings(&mut buffer, st);
    assert(buffer@ == bookings_part(*st)) by {
        reveal(bookings_part);
    }
    add_section(body, toc, "buchungen", "Barwirksame Buchungen", shown, buffer.as_str());
}

fn add_withholding_section(body: &mut String, toc: &mut String, st: &GermanTaxStatement, meta: &ReportMeta)
    requires
        report_ok(*st, *meta),
        old(body)@ == body_upto(*st, *meta, 5),
        old(toc)@ == toc_upto(*st, *meta, 5),
    ensures
        final(body)@ == body_upto(*st, *meta, 6),
        final(toc)@ == toc_upto(*st, *meta, 6),
{
    let mut buffer = String::new();
    let shown = withholding(&mut buffer, st);
    assert(buffer@ == withholding_part(*st)) by {
        reveal(withholding_part);
    }
    add_section(body, toc, "quellensteuer", "Quellensteuer-Übersicht", shown, buffer.as_str());
}

fn add_sales_section(body: &mut String, toc: &mut String, st: &GermanTaxStatement, meta: &ReportMeta)
    requires
        report_ok(*st, *meta),
        old(body)@ == body_upto(*st, *meta, 6),
        old(toc)@ == toc_upto(*st, *meta, 6),
    ensures
        final(body)@ == body_upto(*st, *meta, 7),
        final(toc)@ == toc_upto(*st, *meta, 7),
{
    let mut buffer = String::new();
    let shown = sales(&mut buffer, st);
    assert(buffer@ == sales_part(*st)) by {
        reveal(sales_part);
    }
    add_section(body, toc, "wertpapiergeschaefte", "Gewinne und Verluste aus Wertpapiergeschäften", shown, buffer.as_str());
}

fn add_trades_section(body: &mut String, toc: &mut String, st: &GermanTaxStatement, meta: &ReportMeta)
    requires
        report_ok(*st, *meta),
        old(body)@ == body_upto(*st, *meta, 7),
        old(toc)@ == toc_upto(*st, *meta, 7),
    ensures
        final(body)@ == body_upto(*st, *meta, 8),
        final(toc)@ == toc_upto(*st, *meta, 8),
{
    let mut buffer = String::new();
    let shown = trades(&mut buffer, st);
    assert(buffer@ == trades_part(*st)) by {
        reveal(trades_part);
    }
    add_section(body, toc, "wertpapiertransaktionen", "Wertpapiertransaktionen", shown, buffer.as_str());
}

fn add_fx_section(body: &mut String, toc: &mut String, st: &GermanTaxStatement, meta: &ReportMeta)
    requires
        report_ok(*st, *meta),
        old(body)@ == body_upto(*st, *meta, 8),
        old(toc)@ == toc_upto(*st, *meta, 8),
    ensures
        final(body)@ == body_upto(*st, *meta, 9),
        final(toc)@ == toc_upto(*st, *meta, 9),
{
    let mut buffer = String::new();
    let shown = fx(&mut buffer, st);
    assert(buffer@ == fx_part(*st)) by {
        reveal(fx_part);
    }
    add_section(body, toc, "fremdwaehrung", "Fremdwährungsgewinne/-verluste", shown, buffer.as_str());
}

fn add_open_lots_section(body: &mut String, toc: &mut String, st: &GermanTaxStatement, meta: &ReportMeta)
    requires
        report_ok(*st, *meta),
        old(body)@ == body_upto(*st, *meta, 9),
        old(toc)@ == toc_upto(*st, *meta, 9),
    ensures
        final(body)@ == body_upto(*st, *meta, 10),
        final(toc)@ == toc_upto(*st, *meta, 10),
{
    let mut buffer = String::new();
    let shown = open_lots(&mut buffer, st, meta);
    assert(buffer@ == open_lots_part(*st, *meta)) by {
        reveal(open_lots_part);
    }
    add_section(body, toc, "offene-positionen", "Offene Positionen zum Jahresende", shown, buffer.as_str());
}

fn add_fund_section(body: &mut String, toc: &mut String, st: &GermanTaxStatement, meta: &ReportMeta)
    requires
        report_ok(*st, *meta),
        old(body)@ == body_upto(*st, *meta, 10),
        old(toc)@ == toc_upto(*st, *meta, 10),
    ensures
        final(body)@ == body_upto(*st, *meta, 11),
        final(toc)@ == toc_upto(*st, *meta, 11),
{
    let mut buffer = String::new();
    let shown = vorabpauschale(&mut buffer, st);
    assert(buffer@ == fund_part(*st)) by {
        reveal(fund_part);
    }
    add_section(body, toc, "vorabpauschale", "Vorabpauschale (§18 InvStG)", shown, buffer.as_str());
}

fn add_securities_section(body: &mut String, toc: &mut String, st: &GermanTaxStatement, meta: &ReportMeta)
    requires
        report_ok(*st, *meta),
        old(body)@ == body_upto(*st, *meta, 11),
        old(toc)@ == toc_upto(*st, *meta, 11),
    ensures
        final(body)@ == body_upto(*st, *meta, 12),
        final(toc)@ == toc_upto(*st, *meta, 12),
{
    let mut buffer = String::new();
    let shown = securities(&mut buffer, st);
    assert(buffer@ == securities_part(*st)) by {
        reveal(securities_part);
    }
    add_section(body, toc, "wertpapieruebersicht", "Wertpapierübersicht", shown, buffer.as_str());
}

fn add_notes_section(body: &mut String, toc: &mut String, st: &GermanTaxStatement, meta: &ReportMeta)
    requires
        report_ok(*st, *meta),
        old(body)@ == body_upto(*st, *meta, 12),
        old(toc)@ == toc_upto(*st, *meta, 12),
    ensures
        final(body)@ == body_upto(*st, *meta, 13),
        final(toc)@ == toc_upto(*st, *meta, 13),
{
    let mut buffer = String::new();
    let shown = notes(&mut buffer, st, meta);
    assert(buffer@ == notes_part(*st, *meta)) by {
        reveal(notes_part);
    }
    add_section(body, toc, "hinweise", "Hinweise und Warnungen", shown, buffer.as_str());
}

/// Every section in reading order.
fn all_sections(body: &mut String, toc: &mut String, st: &GermanTaxStatement, meta: &ReportMeta)
    requires
        report_ok(*st, *meta),
        old(body)@ == Seq::<char>::empty(),
        old(toc)@ == Seq::<char>::empty(),
    ensures
        final(body)@ == body_upto(*st, *meta, 13),
        final(toc)@ == toc_upto(*st, *meta, 13),
{
    add_forms_section(body, toc, st, meta);
    add_computation_section(body, toc, st, meta);
    add_activity_section(body, toc, st, meta);
    add_security_section(body, toc, st, meta);
    add_bookings_section(body, toc, st, meta);
    add_withholding_section(body, toc, st, meta);
    add_sales_section(body, toc, st, meta);
    add_trades_section(body, toc, st, meta);
    add_fx_section(body, toc, st, meta);
    add_open_lots_section(body, toc, st, meta);
    add_fund_section(body, toc, st, meta);
    add_securities_section(body, toc, st, meta);
    add_notes_section(body, toc, st, meta);
}

/// The report as one HTML document.
pub fn render(st: &GermanTaxStatement, meta: &ReportMeta) -> (r: String)
    requires
        report_ok(*st, *meta),
    ensures
        r@ == report_text(*st, *meta),
{
    let mut body = String::new();
    let mut toc = String::new();
    all_sections(&mut body, &mut toc, st, meta);
    let mut out = <String as StringExecFns>::from_str("<!DOCTYPE html>\n<html lang=\"de\">\n<head>\n<meta charset=\"utf-8\">\n\
         <meta name=\"viewport\" content=\"width=device-width, initial-scale=1\">\n\
         <title>Informativer Steuerbericht ");
    push_int(&mut out, meta.year as i64);
    out.append("</title>\n<style>");
    out.append(CSS);
    out.append("</style>\n</head>\n<body>\n");
    assert(out@ =~= report_head(meta.year));
    title_block(&mut out, st, meta);
    out.append("<nav id=\"inhalt\">\n<h2 class=\"first\">Inhalt</h2>\n<ol class=\"toc\">\n");
    out.append(toc.as_str());
    out.append("</ol>\n</nav>\n");
    out.append(body.as_str());
    out.append("</body>\n</html>\n");
    assert(out@ =~= report_text(*st, *meta));
    out
}

/// The printable report of a German tax statement.
pub struct HtmlReport;

impl HtmlReport {
    /// Append the report to `out`.
    pub fn write(statement: &GermanTaxStatement, meta: &ReportMeta, out: &mut String)
        requires
            report_ok(*statement, *meta),
        ensures
            final(out)@ == old(out)@ + report_text(*statement, *meta),
    {
        let text = render(statement, meta);
        out.append(text.as_str());
    }
}

} // verus!
