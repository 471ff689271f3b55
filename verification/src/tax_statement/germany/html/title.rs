//! The title page of the German report: year, broker and account, the period covered, four key
//! figures, the disclaimer and how the report was made.
use vstd::prelude::*;

use crate::date::{datetime_text, dotted_text};
use crate::tax_statement::eur::eur_ok;
use crate::tax_statement::germany::statement::GermanTaxStatement;
use crate::tax_statement::html::builder::{b, bold, escape, escape_html, p, p_text};
use crate::tax_statement::html::{kpi, kpi_text};
use crate::text::{int_text, push_int};

use super::format::{date, datetime};
use super::ReportMeta;

verus! {

/// The chips under the heading: broker, depot, account when known, and the period.
#[verifier::opaque]
pub open spec fn chips_text(meta: ReportMeta) -> Seq<char> {
    "<ul class=\"chips\">\n"@ + "<li class=\"chip\">"@ + escape_html(meta.broker_name@) + "</li>\n"@
        + "<li class=\"chip\">Depot: "@ + escape_html(meta.portfolio_name@) + "</li>\n"@ + (match meta.account_id {
        Some(id) => "<li class=\"chip\">Konto-ID: "@ + escape_html(id@) + "</li>\n"@,
        None => Seq::empty(),
    }) + "<li class=\"chip\">Zeitraum: "@ + dotted_text(meta.period.first()) + " – "@ + dotted_text(
        meta.period.last(),
    ) + "</li>\n"@ + "</ul>\n"@
}

/// The four key figures: KAP line 19, taxable income, tax due, creditable foreign tax.
#[verifier::opaque]
pub open spec fn kpis_text(st: GermanTaxStatement) -> Seq<char> {
    "<div class=\"kpis\">\n"@ + kpi_text("Anlage KAP Zeile 19"@, st.kap_zeile_19, "Ausländische Kapitalerträge"@)
        + kpi_text(
        "Steuerpflichtig"@,
        st.total_taxable_income,
        "nach Verlustverrechnung und Sparer-Pauschbetrag"@,
    ) + kpi_text(
        "Voraussichtliche Steuer"@,
        st.net_tax_due,
        "Abgeltungsteuer inkl. Zuschläge, nach Anrechnung"@,
    ) + kpi_text("Anrechenbare Quellensteuer"@, st.kap_zeile_41, "Anlage KAP Zeile 41"@) + "</div>\n"@
}

#[verifier::opaque]
pub open spec fn disclaimer_text() -> Seq<char> {
    "<div class=\"disclaimer\">\n<h3>⚠️ Hinweis &amp; Haftungsausschluss</h3>\n"@ + p_text(
        "Dieser Bericht wurde nach "@ + bold("bestem Wissen und mit großer Sorgfalt"@) + " aus den Kontoauszügen Ihres Brokers erstellt. Bitte \
             beachten Sie, dass es sich um eine "@ + bold("automatisierte Auswertung"@) + " handelt und Sie die Angaben vor Verwendung in \
             Ihrer Steuererklärung prüfen sollten."@,
    ) + p_text(
        "Der Bericht stellt "@ + bold("keine steuerliche Beratung"@) + " dar, sondern unterstützt Privatanleger bei der eigenständigen \
             Erstellung ihrer Steuererklärung – ähnlich den Jahresübersichten, die von Banken oder \
             Brokern bereitgestellt werden. Verbindlich sind ausschließlich Ihre eigene \
             Steuererklärung sowie die Beurteilung durch Ihr Finanzamt. Es wird empfohlen, beim \
             Finanzamt zusätzlich die "@ + bold("offiziellen Kontoauszüge"@) + " als Nachweis einzureichen."@,
    ) + p_text(
        "Für die Vollständigkeit und Richtigkeit der dargestellten Informationen kann "@ + bold(
            "keine Haftung"@,
        ) + " \
             übernommen werden."@,
    ) + "</div>\n"@
}

#[verifier::opaque]
pub open spec fn basis_text(meta: ReportMeta) -> Seq<char> {
    p_text(
        "Dieser Bericht wurde auf Basis der von "@ + bold(meta.broker_name@) + " exportierten Kontoauszüge erstellt. Er \
             dient als technische Aufbereitung und Zusammenfassung sämtlicher im Steuerjahr \
             angefallenen Transaktionen, Erträge und Verluste. Die Daten wurden automatisiert \
             verarbeitet, nach den Vorgaben des "@ + bold("deutschen Steuerrechts"@) + " analysiert und den entsprechenden Zeilen der \
             Steuerformulare (insbesondere "@ + bold("Anlage KAP"@) + ", "@ + bold("Anlage KAP-INV"@)
            + " und "@ + bold("Anlage SO"@) + ") zugeordnet. Veräußerungsgewinne werden \
             nach dem FIFO-Prinzip ermittelt."@,
    ) + p_text(
        "Alle Beträge werden mit dem "@ + bold("EZB-Referenzkurs"@) + " des Buchungstags in EUR umgerechnet (bei echten \
             Devisengeschäften mit dem tatsächlichen Ausführungskurs)."@,
    )
}

#[verifier::opaque]
pub open spec fn heading_text(year: int) -> Seq<char> {
    "<header class=\"hero\">\n"@ + "<p class=\"eyebrow\">Steuerjahr "@ + int_text(year)
        + " · Einkünfte aus Kapitalvermögen</p>\n"@ + "<h1>Informativer Steuerbericht für "@ + int_text(year)
        + "</h1>\n"@
}

#[verifier::opaque]
pub open spec fn made_text(st: GermanTaxStatement, meta: ReportMeta) -> Seq<char> {
    "<p class=\"meta\">Erstellt am "@ + datetime_text(meta.generated_at)
        + " mit <code>investments</code> (Steuerjahr "@ + int_text(st.year as int) + ").</p>\n"@
        + "</header>\n"@
}

/// The title page.
pub open spec fn title_text(st: GermanTaxStatement, meta: ReportMeta) -> Seq<char> {
    heading_text(st.year as int) + chips_text(meta) + kpis_text(st) + disclaimer_text() + basis_text(meta)
        + made_text(st, meta)
}

fn write_chips(out: &mut String, meta: &ReportMeta)
    ensures
        final(out)@ == old(out)@ + chips_text(*meta),
{
    out.append("<ul class=\"chips\">\n");
    out.append("<li class=\"chip\">");
    out.append(escape(meta.broker_name.as_str()).as_str());
    out.append("</li>\n");
    out.append("<li class=\"chip\">Depot: ");
    out.append(escape(meta.portfolio_name.as_str()).as_str());
    out.append("</li>\n");
    match &meta.account_id {
        Some(id) => {
            out.append("<li class=\"chip\">Konto-ID: ");
            out.append(escape(id.as_str()).as_str());
            out.append("</li>\n");
        },
        None => {},
    }
    out.append("<li class=\"chip\">Zeitraum: ");
    out.append(date(meta.period.first_date()).as_str());
    out.append(" – ");
    out.append(date(meta.period.last_date()).as_str());
    out.append("</li>\n");
    out.append("</ul>\n");
    assert(out@ =~= old(out)@ + chips_text(*meta)) by {
        reveal(chips_text);
    }
}

fn write_kpis(out: &mut String, st: &GermanTaxStatement)
    requires
        eur_ok(st.kap_zeile_19),
        eur_ok(st.total_taxable_income),
        eur_ok(st.net_tax_due),
        eur_ok(st.kap_zeile_41),
    ensures
        final(out)@ == old(out)@ + kpis_text(*st),
{
    out.append("<div class=\"kpis\">\n");
    kpi(out, "Anlage KAP Zeile 19", st.kap_zeile_19, "Ausländische Kapitalerträge");
    kpi(out, "Steuerpflichtig", st.total_taxable_income, "nach Verlustverrechnung und Sparer-Pauschbetrag");
    kpi(out, "Voraussichtliche Steuer", st.net_tax_due, "Abgeltungsteuer inkl. Zuschläge, nach Anrechnung");
    kpi(out, "Anrechenbare Quellensteuer", st.kap_zeile_41, "Anlage KAP Zeile 41");
    out.append("</div>\n");
    assert(out@ =~= old(out)@ + kpis_text(*st)) by {
        reveal(kpis_text);
    }
}

fn write_disclaimer(out: &mut String)
    ensures
        final(out)@ == old(out)@ + disclaimer_text(),
{
    out.append("<div class=\"disclaimer\">\n<h3>⚠️ Hinweis &amp; Haftungsausschluss</h3>\n");
    let mut text = <String as StringExecFns>::from_str("Dieser Bericht wurde nach ");
    text.append(b("bestem Wissen und mit großer Sorgfalt").as_str());
    text.append(
        " aus den Kontoauszügen Ihres Brokers erstellt. Bitte \
             beachten Sie, dass es sich um eine ",
    );
    text.append(b("automatisierte Auswertung").as_str());
    text.append(
        " handelt und Sie die Angaben vor Verwendung in \
             Ihrer Steuererklärung prüfen sollten.",
    );
    p(out, text.as_str());
    let mut text = <String as StringExecFns>::from_str("Der Bericht stellt ");
    text.append(b("keine steuerliche Beratung").as_str());
    text.append(
        " dar, sondern unterstützt Privatanleger bei der eigenständigen \
             Erstellung ihrer Steuererklärung – ähnlich den Jahresübersichten, die von Banken oder \
             Brokern bereitgestellt werden. Verbindlich sind ausschließlich Ihre eigene \
             Steuererklärung sowie die Beurteilung durch Ihr Finanzamt. Es wird empfohlen, beim \
             Finanzamt zusätzlich die ",
    );
    text.append(b("offiziellen Kontoauszüge").as_str());
    text.append(" als Nachweis einzureichen.");
    p(out, text.as_str());
    let mut text = <String as StringExecFns>::from_str(
        "Für die Vollständigkeit und Richtigkeit der dargestellten Informationen kann ",
    );
    text.append(b("keine Haftung").as_str());
    text.append(
        " \
             übernommen werden.",
    );
    p(out, text.as_str());
    out.append("</div>\n");
    assert(out@ =~= old(out)@ + disclaimer_text()) by {
        reveal(disclaimer_text);
    }
}

fn write_basis(out: &mut String, meta: &ReportMeta)
    ensures
        final(out)@ == old(out)@ + basis_text(*meta),
{
    let mut text = <String as StringExecFns>::from_str("Dieser Bericht wurde auf Basis der von ");
    text.append(b(meta.broker_name.as_str()).as_str());
    text.append(
        " exportierten Kontoauszüge erstellt. Er \
             dient als technische Aufbereitung und Zusammenfassung sämtlicher im Steuerjahr \
             angefallenen Transaktionen, Erträge und Verluste. Die Daten wurden automatisiert \
             verarbeitet, nach den Vorgaben des ",
    );
    text.append(b("deutschen Steuerrechts").as_str());
    text.append(
        " analysiert und den entsprechenden Zeilen der \
             Steuerformulare (insbesondere ",
    );
    text.append(b("Anlage KAP").as_str());
    text.append(", ");
    text.append(b("Anlage KAP-INV").as_str());
    text.append(" und ");
    text.append(b("Anlage SO").as_str());
    text.append(
        ") zugeordnet. Veräußerungsgewinne werden \
             nach dem FIFO-Prinzip ermittelt.",
    );
    p(out, text.as_str());
    let mut text = <String as StringExecFns>::from_str("Alle Beträge werden mit dem ");
    text.append(b("EZB-Referenzkurs").as_str());
    text.append(
        " des Buchungstags in EUR umgerechnet (bei echten \
             Devisengeschäften mit dem tatsächlichen Ausführungskurs).",
    );
    p(out, text.as_str());
    assert(out@ =~= old(out)@ + basis_text(*meta)) by {
        reveal(basis_text);
    }
}

/// The title page of the report.
#[verifier::spinoff_prover]
#[verifier::rlimit(30)]
pub fn title_block(out: &mut String, st: &GermanTaxStatement, meta: &ReportMeta)
    requires
        eur_ok(st.kap_zeile_19),
        eur_ok(st.total_taxable_income),
        eur_ok(st.net_tax_due),
        eur_ok(st.kap_zeile_41),
        meta.generated_at.hour < 24,
        meta.generated_at.minute < 60,
    ensures
        final(out)@ == old(out)@ + title_text(*st, *meta),
{
    let ghost p0 = out@;
    out.append("<header class=\"hero\">\n");
    out.append("<p class=\"eyebrow\">Steuerjahr ");
    push_int(out, st.year as i64);
    out.append(" · Einkünfte aus Kapitalvermögen</p>\n");
    out.append("<h1>Informativer Steuerbericht für ");
    push_int(out, st.year as i64);
    out.append("</h1>\n");
    assert(out@ =~= p0 + heading_text(st.year as int)) by {
        reveal(heading_text);
    }
    let ghost p1 = out@;
    write_chips(out, meta);
    let ghost p2 = out@;
    write_kpis(out, st);
    let ghost p3 = out@;
    write_disclaimer(out);
    let ghost p4 = out@;
    write_basis(out, meta);
    let ghost p5 = out@;
    out.append("<p class=\"meta\">Erstellt am ");
    out.append(datetime(meta.generated_at).as_str());
    out.append(" mit <code>investments</code> (Steuerjahr ");
    push_int(out, st.year as i64);
    out.append(").</p>\n");
    out.append("</header>\n");
    assert(out@ =~= p5 + made_text(*st, *meta)) by {
        reveal(made_text);
    }
    assert(out@ =~= p0 + heading_text(st.year as int) + chips_text(*meta) + kpis_text(*st) + disclaimer_text()
        + basis_text(*meta) + made_text(*st, *meta));
}

} // verus!
