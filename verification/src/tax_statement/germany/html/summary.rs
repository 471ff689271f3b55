//! Summary sections of the German report: the tax-form lines, the tax computation, the
//! Vorabpauschale and the notes. Every figure is the statement's own value through `format_eur`,
//! re-punctuated for German readers; no section computes a tax figure itself.
use vstd::prelude::*;

use crate::decimal::Decimal;
use crate::tax_statement::eur::{eur_ok, eur_text};
use crate::tax_statement::germany::csv_formatter::{kap_inv_zeilen, spec_kap_inv_zeilen};
use crate::tax_statement::germany::statement::{GermanTaxStatement, KapInvGroup, Section23};
use crate::tax_statement::html::builder::{
    b, bold, col, columns_view, empty_cell, h3_text, note, note_text, num_cell, p, p_text, raw_cell,
    section_end, section_start, section_start_text, strings_view, table, table_after, text_cell, ul,
    ul_text, Align, Cell, Column, ColumnView, Row, RowKind, RowView,
};
use crate::tax_statement::html::format::punctuated;
use crate::taxes::germany::TeilfreistellungRate;
use crate::text::{int_text, push_int};

use super::format::eur;

verus! {

/// An amount as the report prints it: cents, German punctuation.
pub open spec fn eur_str(v: Decimal) -> Seq<char> {
    punctuated(eur_text(v))
}

/// A form line: its label (trusted HTML) and the amount.
pub open spec fn line_view(label: Seq<char>, value: Decimal) -> RowView {
    RowView { kind: RowKind::Data, cells: seq![raw_cell(label), num_cell(eur_str(value))] }
}

pub open spec fn when(cond: bool, row: RowView) -> Seq<RowView> {
    if cond {
        seq![row]
    } else {
        seq![]
    }
}

fn line(label: String, value: Decimal) -> (r: Row)
    requires
        eur_ok(value),
    ensures
        r@ == line_view(label@, value),
{
    let mut cells = Vec::new();
    cells.push(Cell::raw(label));
    let amount = eur(value);
    cells.push(Cell::num(amount.as_str()));
    let r = Row::data(cells);
    assert(r@.cells =~= line_view(label@, value).cells);
    r
}

/// Append a form line.
fn push_line(rows: &mut Vec<Row>, label: String, value: Decimal)
    requires
        eur_ok(value),
    ensures
        crate::tax_statement::html::builder::rows_view(final(rows)@)
            == crate::tax_statement::html::builder::rows_view(old(rows)@).push(line_view(label@, value)),
{
    let row = line(label, value);
    rows.push(row);
    assert(crate::tax_statement::html::builder::rows_view(rows@) =~= crate::tax_statement::html::builder::rows_view(old(rows)@).push(line_view(label@, value)));
}

/// The fund class a KAP-INV line names.
pub open spec fn fund_group_text(rate: TeilfreistellungRate) -> Seq<char> {
    match rate {
        TeilfreistellungRate::Equity => "Aktienfonds"@,
        TeilfreistellungRate::Mixed => "Mischfonds"@,
        TeilfreistellungRate::Bond => "sonstige Investmentfonds"@,
        TeilfreistellungRate::NotFund => "Aktien"@,
    }
}

fn fund_group_label(rate: TeilfreistellungRate) -> (r: &'static str)
    ensures
        r@ == fund_group_text(rate),
{
    match rate {
        TeilfreistellungRate::Equity => "Aktienfonds",
        TeilfreistellungRate::Mixed => "Mischfonds",
        TeilfreistellungRate::Bond => "sonstige Investmentfonds",
        TeilfreistellungRate::NotFund => "Aktien",
    }
}

/// What the forms section prints of a fund group must fit the amount formatter.
pub open spec fn group_ok(g: KapInvGroup) -> bool {
    &&& eur_ok(g.distributions)
    &&& eur_ok(g.sale_gains)
    &&& eur_ok(g.sale_losses)
    &&& eur_ok(g.sale_gains.spec_sub(g.sale_losses))
}

/// The KAP-INV lines of one fund group: distributions when there are any, then the net sale result
/// when there was a gain or a loss.
pub open spec fn kap_inv_rows(rate: TeilfreistellungRate, g: KapInvGroup) -> Seq<RowView> {
    match spec_kap_inv_zeilen(rate) {
        None => seq![],
        Some((zeile_dist, _zeile_vap, zeile_sale)) => {
            let label = fund_group_text(rate);
            when(
                g.distributions.units() != 0,
                line_view(
                    "Anlage KAP-INV Zeile "@ + int_text(zeile_dist as int) + " – Ausschüttungen "@
                        + label + " (brutto)"@,
                    g.distributions,
                ),
            ) + when(
                g.sale_gains.units() != 0 || g.sale_losses.units() != 0,
                line_view(
                    "Anlage KAP-INV Zeile "@ + int_text(zeile_sale as int)
                        + " – Gewinne/Verluste aus der Veräußerung von "@ + label
                        + " (brutto, netto aus Gewinnen "@ + eur_str(g.sale_gains) + " und Verlusten "@
                        + eur_str(g.sale_losses) + ")"@,
                    g.sale_gains.spec_sub(g.sale_losses),
                ),
            )
        },
    }
}

fn push_kap_inv_rows(rows: &mut Vec<Row>, rate: TeilfreistellungRate, g: KapInvGroup) -> (r: bool)
    requires
        group_ok(g),
    ensures
        crate::tax_statement::html::builder::rows_view(final(rows)@)
            == crate::tax_statement::html::builder::rows_view(old(rows)@) + kap_inv_rows(rate, g),
        r == (kap_inv_rows(rate, g).len() > 0),
{
    let ghost start = crate::tax_statement::html::builder::rows_view(rows@);
    let zeilen = kap_inv_zeilen(rate);
    let (zeile_dist, zeile_sale) = match zeilen {
        Some((d, _v, s)) => (d, s),
        None => {
            assert(kap_inv_rows(rate, g) =~= seq![]);
            assert(start + kap_inv_rows(rate, g) =~= start);
            return false;
        },
    };
    let label = fund_group_label(rate);
    let mut any = false;
    if !g.distributions.is_zero() {
        any = true;
        let mut text = <String as StringExecFns>::from_str("Anlage KAP-INV Zeile ");
        push_int(&mut text, zeile_dist as i64);
        text.append(" – Ausschüttungen ");
        text.append(label);
        text.append(" (brutto)");
        push_line(rows, text, g.distributions);
    }
    let ghost middle = crate::tax_statement::html::builder::rows_view(rows@);
    if !g.sale_gains.is_zero() || !g.sale_losses.is_zero() {
        any = true;
        let net = g.sale_gains.sub(&g.sale_losses);
        let mut text = <String as StringExecFns>::from_str("Anlage KAP-INV Zeile ");
        push_int(&mut text, zeile_sale as i64);
        text.append(" – Gewinne/Verluste aus der Veräußerung von ");
        text.append(label);
        text.append(" (brutto, netto aus Gewinnen ");
        text.append(eur(g.sale_gains).as_str());
        text.append(" und Verlusten ");
        text.append(eur(g.sale_losses).as_str());
        text.append(")");
        push_line(rows, text, net);
    }
    assert(crate::tax_statement::html::builder::rows_view(rows@) =~= start + kap_inv_rows(rate, g));
    any
}

/// What the forms section prints must fit the amount formatter.
pub open spec fn forms_ok(st: GermanTaxStatement) -> bool {
    &&& eur_ok(st.kap_zeile_19) && eur_ok(st.kap_zeile_20) && eur_ok(st.kap_zeile_22)
    &&& eur_ok(st.kap_zeile_23) && eur_ok(st.kap_zeile_41)
    &&& group_ok(st.kap_inv_equity) && group_ok(st.kap_inv_mixed) && group_ok(st.kap_inv_other)
    &&& eur_ok(st.section23.short_term_gains) && eur_ok(st.section23.short_term_losses)
    &&& eur_ok(st.section23.short_term_gains.spec_sub(st.section23.short_term_losses))
    &&& eur_ok(st.section23.long_term_tax_free) && eur_ok(st.section23.borrowed_review)
    &&& eur_ok(st.total_stock_grant_income) && eur_ok(st.total_cash_grant_income)
    &&& eur_ok(st.non_taxable_margin_fx) && eur_ok(st.total_vorabpauschale_gross)
    &&& st.year < i32::MAX
}

pub open spec fn forms_intro() -> Seq<char> {
    section_start_text("steuerformulare"@, "Übersicht für die Steuerformulare"@) + p_text(
        "Diese Tabelle zeigt eine "@ + bold("Jahresübersicht aller steuerlich relevanten Beträge"@)
            + ", aufgeschlüsselt nach den "@ + bold("Zeilen der deutschen Steuerformulare"@)
            + " (Anlage KAP, Anlage KAP-INV \
             und Anlage SO). Die Werte sind das Ergebnis der Auswertung Ihrer Transaktionsdaten. \
             Sie berücksichtigen u. a.:"@,
    ) + ul_text(
        seq![
            bold("Kapitaleinkünfte"@) + " wie Dividenden, Zinsen und Gewinne aus Aktienveräußerungen,"@,
            bold("Verluste"@)
                + ", getrennt nach Aktienverkäufen und sonstigen Kapitalanlagen (§20 Abs. 6 EStG),"@,
            bold("Anrechenbare ausländische Quellensteuer"@)
                + " (§32d Abs. 5 EStG, pauschal bis 15 % des Bruttoertrags),"@,
            bold("Investmentfonds-Erträge"@)
                + " (Ausschüttungen, Veräußerungsgewinne, Vorabpauschale) nach InvStG,"@,
            bold("Sonstige Einkünfte nach §23 EStG"@)
                + ", z. B. Fremdwährungsgewinne eines unverzinslichen Kontos."@,
        ],
    )
}

fn write_forms_intro(out: &mut String)
    ensures
        final(out)@ == old(out)@ + forms_intro(),
{
    section_start(out, "steuerformulare", "Übersicht für die Steuerformulare");
    let mut text = <String as StringExecFns>::from_str("Diese Tabelle zeigt eine ");
    text.append(b("Jahresübersicht aller steuerlich relevanten Beträge").as_str());
    text.append(", aufgeschlüsselt nach den ");
    text.append(b("Zeilen der deutschen Steuerformulare").as_str());
    text.append(
        " (Anlage KAP, Anlage KAP-INV \
             und Anlage SO). Die Werte sind das Ergebnis der Auswertung Ihrer Transaktionsdaten. \
             Sie berücksichtigen u. a.:",
    );
    p(out, text.as_str());
    let mut items: Vec<String> = Vec::new();
    let mut item = b("Kapitaleinkünfte");
    item.append(" wie Dividenden, Zinsen und Gewinne aus Aktienveräußerungen,");
    items.push(item);
    let mut item = b("Verluste");
    item.append(", getrennt nach Aktienverkäufen und sonstigen Kapitalanlagen (§20 Abs. 6 EStG),");
    items.push(item);
    let mut item = b("Anrechenbare ausländische Quellensteuer");
    item.append(" (§32d Abs. 5 EStG, pauschal bis 15 % des Bruttoertrags),");
    items.push(item);
    let mut item = b("Investmentfonds-Erträge");
    item.append(" (Ausschüttungen, Veräußerungsgewinne, Vorabpauschale) nach InvStG,");
    items.push(item);
    let mut item = b("Sonstige Einkünfte nach §23 EStG");
    item.append(", z. B. Fremdwährungsgewinne eines unverzinslichen Kontos.");
    items.push(item);
    let ghost before_list = out@;
    ul(out, &items);
    proof {
        crate::tax_statement::html::builder::lemma_list_items_prefix(before_list + "<ul>\n"@, strings_view(items@));
        crate::tax_statement::html::builder::lemma_list_items_prefix("<ul>\n"@, strings_view(items@));
        assert(strings_view(items@) =~= seq![
            bold("Kapitaleinkünfte"@) + " wie Dividenden, Zinsen und Gewinne aus Aktienveräußerungen,"@,
            bold("Verluste"@)
                + ", getrennt nach Aktienverkäufen und sonstigen Kapitalanlagen (§20 Abs. 6 EStG),"@,
            bold("Anrechenbare ausländische Quellensteuer"@)
                + " (§32d Abs. 5 EStG, pauschal bis 15 % des Bruttoertrags),"@,
            bold("Investmentfonds-Erträge"@)
                + " (Ausschüttungen, Veräußerungsgewinne, Vorabpauschale) nach InvStG,"@,
            bold("Sonstige Einkünfte nach §23 EStG"@)
                + ", z. B. Fremdwährungsgewinne eines unverzinslichen Kontos."@,
        ]);
        assert(out@ =~= old(out)@ + forms_intro());
    }
}

/// A two-column table: the form line and its amount.
pub open spec fn form_columns() -> Seq<ColumnView> {
    seq![
        ColumnView { title: "Steuerformular"@, align: Align::Left },
        ColumnView { title: "Betrag (EUR)"@, align: Align::Right },
    ]
}

/// The §23 lines: gains, losses and the net against the Freigrenze, then the tax-free long-term
/// gains and the borrowed-currency result when there are any. Nothing when every bucket is zero.
pub open spec fn section23_rows(st: GermanTaxStatement) -> Seq<RowView> {
    let s = st.section23;
    if s.short_term_gains.units() == 0 && s.short_term_losses.units() == 0
        && s.long_term_tax_free.units() == 0 && s.borrowed_review.units() == 0 {
        seq![]
    } else {
        seq![
            line_view(
                "Anlage SO Zeilen 41–47 – Private Veräußerungsgeschäfte (§23 EStG, Fremdwährung ≤ 1 \
             Jahr): Gewinne"@,
                s.short_term_gains,
            ),
            line_view(
                "Anlage SO Zeilen 41–47 – Private Veräußerungsgeschäfte (§23 EStG, Fremdwährung ≤ 1 \
             Jahr): Verluste"@,
                s.short_term_losses.spec_neg(),
            ),
            line_view(
                "Anlage SO – Netto (Freigrenze "@ + int_text(st.year as int) + ": "@ + eur_str(
                    Decimal::spec_new(if st.year >= 2024 { 1000int } else { 600int }, 0),
                ) + " für alle privaten Veräußerungsgeschäfte des \
                 Jahres)"@,
                s.short_term_gains.spec_sub(s.short_term_losses),
            ),
        ] + when(
            s.long_term_tax_free.units() != 0,
            line_view(
                "ℹ Steuerfrei – Fremdwährungsgewinne mit mehr als einem Jahr Haltedauer (§23 Abs. 1 \
                 Nr. 2 EStG)"@,
                s.long_term_tax_free,
            ),
        ) + when(
            s.borrowed_review.units() != 0,
            line_view(
                "⚠️ Prüfen – Realisierung aus Fremdwährungskredit (§23; die §20-Ausnahme gilt hier \
                 nicht)"@,
                s.borrowed_review,
            ),
        )
    }
}

/// The Anlage KAP lines: line 19 always, lines 20, 22, 23 and 41 when not zero.
pub open spec fn kap_lines(st: GermanTaxStatement) -> Seq<RowView> {
    seq![
        line_view(
            "Anlage KAP Zeile 19 – Ausländische Kapitalerträge (ohne Beträge aus den Zeilen 26a und 52)"@,
            st.kap_zeile_19,
        ),
    ] + when(
        st.kap_zeile_20.units() != 0,
        line_view(
            "Anlage KAP Zeile 20 – In Zeile 19 enthaltene Gewinne aus Aktienveräußerungen i. S. d. \
             §20 Abs. 2 Satz 1 Nr. 1 EStG"@,
            st.kap_zeile_20,
        ),
    ) + when(
        st.kap_zeile_22.units() != 0,
        line_view(
            "Anlage KAP Zeile 22 – In den Zeilen 18 und 19 enthaltene Verluste ohne Verluste aus \
             der Veräußerung von Aktien"@,
            st.kap_zeile_22,
        ),
    ) + when(
        st.kap_zeile_23.units() != 0,
        line_view(
            "Anlage KAP Zeile 23 – In den Zeilen 18 und 19 enthaltene Verluste aus der Veräußerung \
             von Aktien i. S. d. §20 Abs. 2 Satz 1 Nr. 1 EStG"@,
            st.kap_zeile_23,
        ),
    ) + when(
        st.kap_zeile_41.units() != 0,
        line_view(
            "Anlage KAP Zeile 41 – Anrechenbare noch nicht angerechnete ausländische Steuern"@,
            st.kap_zeile_41,
        ),
    )
}

/// The Anlage N, §22 Nr. 3, margin-loan and Vorabpauschale lines, each when not zero.
pub open spec fn other_lines(st: GermanTaxStatement) -> Seq<RowView> {
    when(
        st.total_stock_grant_income.units() != 0,
        line_view(
            "Anlage N – Arbeitslohn: geldwerter Vorteil aus Aktienzuteilungen (Marktwert bei \
             Vesting)"@,
            st.total_stock_grant_income,
        ),
    ) + when(
        st.total_cash_grant_income.units() != 0,
        line_view(
            "Anlage SO – Sonstige Einkünfte (§22 Nr. 3 EStG): Bargeldzuwendungen (Freigrenze 256 \
             EUR)"@,
            st.total_cash_grant_income,
        ),
    ) + when(
        st.non_taxable_margin_fx.units() != 0,
        line_view(
            "ℹ Nicht steuerbar – Tilgung eines Fremdwährungskredits (Margin Loan)"@,
            st.non_taxable_margin_fx,
        ),
    ) + when(
        st.total_vorabpauschale_gross.units() != 0,
        line_view(
            "ℹ Vorabpauschale "@ + int_text(st.year as int) + " (§18 InvStG, brutto) – Zufluss am "@
                + first_deemed_text(st) + ", in der \
                 Steuererklärung "@ + int_text(st.year + 1) + " anzugeben"@,
            st.total_vorabpauschale_gross,
        ),
    )
}

/// The lines of the forms table, in the order the forms ask for them: Anlage KAP, KAP-INV per fund
/// group, Anlage SO (§23), Anlage N, §22 Nr. 3, and the informational margin-loan and
/// Vorabpauschale lines. A line whose figure is zero is left out, but for KAP line 19.
pub open spec fn form_rows(st: GermanTaxStatement) -> Seq<RowView> {
    kap_lines(st) + kap_inv_rows(TeilfreistellungRate::Equity, st.kap_inv_equity) + kap_inv_rows(
        TeilfreistellungRate::Mixed,
        st.kap_inv_mixed,
    ) + kap_inv_rows(TeilfreistellungRate::Bond, st.kap_inv_other) + section23_rows(st) + other_lines(st)
}

/// The date the first Vorabpauschale is deemed received, empty when there is none.
pub open spec fn first_deemed_text(st: GermanTaxStatement) -> Seq<char> {
    if st.vorabpauschale@.len() > 0 {
        crate::date::dotted_text(st.vorabpauschale@[0].deemed_received)
    } else {
        Seq::empty()
    }
}

pub open spec fn has_kap_inv(st: GermanTaxStatement) -> bool {
    kap_inv_rows(TeilfreistellungRate::Equity, st.kap_inv_equity).len() > 0
        || kap_inv_rows(TeilfreistellungRate::Mixed, st.kap_inv_mixed).len() > 0
        || kap_inv_rows(TeilfreistellungRate::Bond, st.kap_inv_other).len() > 0
}

/// The section: intro, the table of form lines, the gross-values note when a KAP-INV line is
/// present.
pub open spec fn tax_forms_after(p: Seq<char>, st: GermanTaxStatement) -> Seq<char> {
    table_after(p + forms_intro(), form_columns(), form_rows(st)) + (if has_kap_inv(st) {
        note_text(
            "info"@,
            "Anlage KAP-INV verlangt Bruttowerte; das Finanzamt wendet die Teilfreistellung \
             (§20 InvStG) selbst an. Die Steuerberechnung in diesem Bericht berücksichtigt sie \
             bereits."@,
        )
    } else {
        Seq::empty()
    }) + "</section>\n"@
}

fn push_when(rows: &mut Vec<Row>, cond: bool, label: &str, value: Decimal)
    requires
        eur_ok(value),
    ensures
        crate::tax_statement::html::builder::rows_view(final(rows)@)
            == crate::tax_statement::html::builder::rows_view(old(rows)@) + when(cond, line_view(label@, value)),
{
    if cond {
        push_line(rows, <String as StringExecFns>::from_str(label), value);
        assert(crate::tax_statement::html::builder::rows_view(old(rows)@).push(line_view(label@, value))
            =~= crate::tax_statement::html::builder::rows_view(old(rows)@) + when(cond, line_view(label@, value)));
    } else {
        assert(crate::tax_statement::html::builder::rows_view(old(rows)@)
            =~= crate::tax_statement::html::builder::rows_view(old(rows)@) + when(cond, line_view(label@, value)));
    }
}

#[verifier::spinoff_prover]
#[verifier::rlimit(40)]
fn push_section23_rows(rows: &mut Vec<Row>, st: &GermanTaxStatement)
    requires
        forms_ok(*st),
    ensures
        crate::tax_statement::html::builder::rows_view(final(rows)@)
            == crate::tax_statement::html::builder::rows_view(old(rows)@) + section23_rows(*st),
{
    let ghost start = crate::tax_statement::html::builder::rows_view(rows@);
    let s = &st.section23;
    if s.is_empty() {
        assert(start + section23_rows(*st) =~= start);
        return;
    }
    push_line(
        rows,
        <String as StringExecFns>::from_str(
            "Anlage SO Zeilen 41–47 – Private Veräußerungsgeschäfte (§23 EStG, Fremdwährung ≤ 1 \
             Jahr): Gewinne",
        ),
        s.short_term_gains,
    );
    let losses = s.short_term_losses.neg();
    push_line(
        rows,
        <String as StringExecFns>::from_str(
            "Anlage SO Zeilen 41–47 – Private Veräußerungsgeschäfte (§23 EStG, Fremdwährung ≤ 1 \
             Jahr): Verluste",
        ),
        losses,
    );
    let mut text = <String as StringExecFns>::from_str("Anlage SO – Netto (Freigrenze ");
    push_int(&mut text, st.year as i64);
    text.append(": ");
    text.append(eur(Section23::freigrenze(st.year)).as_str());
    text.append(" für alle privaten Veräußerungsgeschäfte des \
                 Jahres)");
    let net = s.short_term_net();
    push_line(rows, text, net);
    push_when(
        rows,
        !s.long_term_tax_free.is_zero(),
        "ℹ Steuerfrei – Fremdwährungsgewinne mit mehr als einem Jahr Haltedauer (§23 Abs. 1 \
                 Nr. 2 EStG)",
        s.long_term_tax_free,
    );
    push_when(
        rows,
        !s.borrowed_review.is_zero(),
        "⚠️ Prüfen – Realisierung aus Fremdwährungskredit (§23; die §20-Ausnahme gilt hier \
                 nicht)",
        s.borrowed_review,
    );
    assert(crate::tax_statement::html::builder::rows_view(rows@) =~= start + section23_rows(*st));
}

fn push_kap_lines(rows: &mut Vec<Row>, st: &GermanTaxStatement)
    requires
        forms_ok(*st),
    ensures
        crate::tax_statement::html::builder::rows_view(final(rows)@)
            == crate::tax_statement::html::builder::rows_view(old(rows)@) + kap_lines(*st),
{
    let ghost start = crate::tax_statement::html::builder::rows_view(rows@);
    push_line(
        rows,
        <String as StringExecFns>::from_str(
            "Anlage KAP Zeile 19 – Ausländische Kapitalerträge (ohne Beträge aus den Zeilen 26a und 52)",
        ),
        st.kap_zeile_19,
    );
    push_when(
        rows,
        !st.kap_zeile_20.is_zero(),
        "Anlage KAP Zeile 20 – In Zeile 19 enthaltene Gewinne aus Aktienveräußerungen i. S. d. \
             §20 Abs. 2 Satz 1 Nr. 1 EStG",
        st.kap_zeile_20,
    );
    push_when(
        rows,
        !st.kap_zeile_22.is_zero(),
        "Anlage KAP Zeile 22 – In den Zeilen 18 und 19 enthaltene Verluste ohne Verluste aus \
             der Veräußerung von Aktien",
        st.kap_zeile_22,
    );
    push_when(
        rows,
        !st.kap_zeile_23.is_zero(),
        "Anlage KAP Zeile 23 – In den Zeilen 18 und 19 enthaltene Verluste aus der Veräußerung \
             von Aktien i. S. d. §20 Abs. 2 Satz 1 Nr. 1 EStG",
        st.kap_zeile_23,
    );
    push_when(
        rows,
        !st.kap_zeile_41.is_zero(),
        "Anlage KAP Zeile 41 – Anrechenbare noch nicht angerechnete ausländische Steuern",
        st.kap_zeile_41,
    );
    assert(crate::tax_statement::html::builder::rows_view(rows@) =~= start + kap_lines(*st));
}

#[verifier::spinoff_prover]
#[verifier::rlimit(40)]
fn push_other_lines(rows: &mut Vec<Row>, st: &GermanTaxStatement)
    requires
        forms_ok(*st),
    ensures
        crate::tax_statement::html::builder::rows_view(final(rows)@)
            == crate::tax_statement::html::builder::rows_view(old(rows)@) + other_lines(*st),
{
    let ghost start = crate::tax_statement::html::builder::rows_view(rows@);
    push_when(
        rows,
        !st.total_stock_grant_income.is_zero(),
        "Anlage N – Arbeitslohn: geldwerter Vorteil aus Aktienzuteilungen (Marktwert bei \
             Vesting)",
        st.total_stock_grant_income,
    );
    push_when(
        rows,
        !st.total_cash_grant_income.is_zero(),
        "Anlage SO – Sonstige Einkünfte (§22 Nr. 3 EStG): Bargeldzuwendungen (Freigrenze 256 \
             EUR)",
        st.total_cash_grant_income,
    );
    push_when(
        rows,
        !st.non_taxable_margin_fx.is_zero(),
        "ℹ Nicht steuerbar – Tilgung eines Fremdwährungskredits (Margin Loan)",
        st.non_taxable_margin_fx,
    );
    let mut text = <String as StringExecFns>::from_str("ℹ Vorabpauschale ");
    push_int(&mut text, st.year as i64);
    text.append(" (§18 InvStG, brutto) – Zufluss am ");
    if st.vorabpauschale.len() > 0 {
        text.append(super::format::date(st.vorabpauschale[0].deemed_received).as_str());
    }
    text.append(", in der \
                 Steuererklärung ");
    push_int(&mut text, (st.year + 1) as i64);
    text.append(" anzugeben");
    push_when(rows, !st.total_vorabpauschale_gross.is_zero(), text.as_str(), st.total_vorabpauschale_gross);
    assert(crate::tax_statement::html::builder::rows_view(rows@) =~= start + other_lines(*st));
}

/// Section: Übersicht für die Steuerformulare. Always shown.
#[verifier::spinoff_prover]
pub fn tax_forms(out: &mut String, st: &GermanTaxStatement) -> (r: bool)
    requires
        forms_ok(*st),
    ensures
        r,
        final(out)@ == tax_forms_after(old(out)@, *st),
{
    write_forms_intro(out);
    let mut columns: Vec<Column> = Vec::new();
    columns.push(col("Steuerformular", Align::Left));
    columns.push(col("Betrag (EUR)", Align::Right));
    proof {
        assert(columns_view(columns@) =~= form_columns());
    }
    let mut rows: Vec<Row> = Vec::new();
    push_kap_lines(&mut rows, st);
    let equity = push_kap_inv_rows(&mut rows, TeilfreistellungRate::Equity, st.kap_inv_equity);
    let mixed = push_kap_inv_rows(&mut rows, TeilfreistellungRate::Mixed, st.kap_inv_mixed);
    let other = push_kap_inv_rows(&mut rows, TeilfreistellungRate::Bond, st.kap_inv_other);
    let has_kap_inv = equity || mixed || other;
    push_section23_rows(&mut rows, st);
    push_other_lines(&mut rows, st);
    proof {
        assert(crate::tax_statement::html::builder::rows_view(rows@) =~= form_rows(*st));
    }
    table(out, &columns, &rows);
    if has_kap_inv {
        note(
            out,
            "info",
            "Anlage KAP-INV verlangt Bruttowerte; das Finanzamt wendet die Teilfreistellung \
             (§20 InvStG) selbst an. Die Steuerberechnung in diesem Bericht berücksichtigt sie \
             bereits.",
        );
    }
    section_end(out);
    proof {
        assert(out@ =~= tax_forms_after(old(out)@, *st));
    }
    true
}

/// What the computation section prints must fit the amount formatter.
pub open spec fn computation_ok(st: GermanTaxStatement) -> bool {
    &&& eur_ok(st.total_capital_gains) && eur_ok(st.total_capital_losses)
    &&& eur_ok(st.total_dividend_income) && eur_ok(st.total_interest_income)
    &&& eur_ok(st.total_fx_gains) && eur_ok(st.total_fx_losses)
    &&& eur_ok(st.loss_carryforward_stock_prior) && eur_ok(st.loss_carryforward_other_prior)
    &&& eur_ok(st.sparer_pauschbetrag) && eur_ok(st.sparer_pauschbetrag_used)
    &&& eur_ok(st.total_taxable_income) && eur_ok(st.total_abgeltungssteuer)
    &&& eur_ok(st.total_solidaritaetszuschlag) && eur_ok(st.total_kirchensteuer)
    &&& eur_ok(st.total_german_tax) && eur_ok(st.total_foreign_tax)
    &&& eur_ok(st.total_foreign_tax_credit) && eur_ok(st.net_tax_due)
    &&& eur_ok(st.loss_carryforward_stock_next) && eur_ok(st.loss_carryforward_other_next)
    &&& eur_ok(st.total_fees) && eur_ok(st.tax_rates.church_tax_rate)
}

pub open spec fn computation_intro() -> Seq<char> {
    section_start_text("steuerberechnung"@, "Steuerberechnung (Abgeltungsteuer)"@) + p_text(
        "Schätzung der Abgeltungsteuer nach §32d EStG auf die in diesem Bericht ermittelten \
             Kapitalerträge: Verlustverrechnung nach Töpfen (§20 Abs. 6 EStG), \
             Sparer-Pauschbetrag, Anrechnung ausländischer Quellensteuer (§32d Abs. 5 EStG). \
             "@ + bold("Maßgeblich ist allein die Festsetzung durch das Finanzamt."@),
    )
}

pub open spec fn computation_columns() -> Seq<ColumnView> {
    seq![
        ColumnView { title: "Position"@, align: Align::Left },
        ColumnView { title: "Betrag (EUR)"@, align: Align::Right },
    ]
}

/// A row of plain text and an amount, of the given kind.
pub open spec fn sum_view(kind: RowKind, label: Seq<char>, value: Decimal) -> RowView {
    RowView { kind, cells: seq![text_cell(label), num_cell(eur_str(value))] }
}

/// The income side: the year's figures per kind, the carryforwards brought in, the allowance and
/// the part of it used, down to the taxable income.
pub open spec fn income_lines(st: GermanTaxStatement) -> Seq<RowView> {
    seq![
        line_view("Veräußerungsgewinne"@, st.total_capital_gains),
        line_view("Veräußerungsverluste"@, st.total_capital_losses.spec_neg()),
        line_view("Dividenden und Ausschüttungen"@, st.total_dividend_income),
        line_view("Zinsen"@, st.total_interest_income),
        line_view("Fremdwährungsgewinne (§20 EStG)"@, st.total_fx_gains),
        line_view("Fremdwährungsverluste (§20 EStG)"@, st.total_fx_losses.spec_neg()),
    ] + when(
        st.loss_carryforward_stock_prior.units() != 0,
        line_view("Verlustvortrag Aktien aus Vorjahren"@, st.loss_carryforward_stock_prior.spec_neg()),
    ) + when(
        st.loss_carryforward_other_prior.units() != 0,
        line_view(
            "Verlustvortrag sonstige Kapitalerträge aus Vorjahren"@,
            st.loss_carryforward_other_prior.spec_neg(),
        ),
    ) + seq![
        line_view("Sparer-Pauschbetrag (§20 Abs. 9 EStG)"@, st.sparer_pauschbetrag),
        line_view("davon in Anspruch genommen"@, st.sparer_pauschbetrag_used.spec_neg()),
        sum_view(
            RowKind::Subtotal,
            "Steuerpflichtige Kapitalerträge (nach Verlustverrechnung und Sparer-Pauschbetrag)"@,
            st.total_taxable_income,
        ),
    ]
}

/// The tax side: each tax with its rate, the German total, the foreign tax and its credit, the
/// tax due, then what is carried into the next year and the fees.
pub open spec fn tax_lines(st: GermanTaxStatement) -> Seq<RowView> {
    seq![
        line_view(
            "Abgeltungsteuer ("@ + crate::tax_statement::html::format::pct_text(Decimal::spec_new(25, 2), 2)
                + ")"@,
            st.total_abgeltungssteuer,
        ),
        line_view(
            "Solidaritätszuschlag ("@ + crate::tax_statement::html::format::pct_text(
                Decimal::spec_new(55, 3),
                2,
            ) + " der Abgeltungsteuer)"@,
            st.total_solidaritaetszuschlag,
        ),
    ] + when(
        st.tax_rates.church_tax_rate.units() != 0,
        line_view(
            "Kirchensteuer ("@ + crate::tax_statement::html::format::pct_text(st.tax_rates.church_tax_rate, 2)
                + " der Abgeltungsteuer)"@,
            st.total_kirchensteuer,
        ),
    ) + seq![
        sum_view(RowKind::Subtotal, "Deutsche Steuer gesamt"@, st.total_german_tax),
        line_view("Gezahlte ausländische Quellensteuer"@, st.total_foreign_tax),
        line_view(
            "davon anrechenbar (§32d Abs. 5 EStG; bereits in der Steuer berücksichtigt)"@,
            st.total_foreign_tax_credit,
        ),
        sum_view(RowKind::Total, "Voraussichtliche Steuerschuld (nach Anrechnung)"@, st.net_tax_due),
    ] + when(
        st.loss_carryforward_stock_next.units() != 0,
        line_view("Verlustvortrag Aktien in das Folgejahr"@, st.loss_carryforward_stock_next),
    ) + when(
        st.loss_carryforward_other_next.units() != 0,
        line_view("Verlustvortrag sonstige Kapitalerträge in das Folgejahr"@, st.loss_carryforward_other_next),
    ) + when(
        st.total_fees.units() != 0,
        line_view("Gebühren (informativ; kein Werbungskostenabzug nach §20 Abs. 9 EStG)"@, st.total_fees),
    )
}

pub open spec fn tax_computation_after(p: Seq<char>, st: GermanTaxStatement) -> Seq<char> {
    table_after(p + computation_intro(), computation_columns(), income_lines(st) + tax_lines(st))
        + "</section>\n"@
}

fn push_sum(rows: &mut Vec<Row>, kind: RowKind, label: &str, value: Decimal)
    requires
        eur_ok(value),
    ensures
        crate::tax_statement::html::builder::rows_view(final(rows)@)
            == crate::tax_statement::html::builder::rows_view(old(rows)@).push(sum_view(kind, label@, value)),
{
    let mut cells = Vec::new();
    cells.push(Cell::text(label));
    let amount = eur(value);
    cells.push(Cell::num(amount.as_str()));
    let row = Row { kind, cells };
    assert(row@.cells =~= sum_view(kind, label@, value).cells);
    rows.push(row);
    assert(crate::tax_statement::html::builder::rows_view(rows@)
        =~= crate::tax_statement::html::builder::rows_view(old(rows)@).push(sum_view(kind, label@, value)));
}

#[verifier::spinoff_prover]
#[verifier::rlimit(30)]
fn push_income_lines(rows: &mut Vec<Row>, st: &GermanTaxStatement)
    requires
        computation_ok(*st),
    ensures
        crate::tax_statement::html::builder::rows_view(final(rows)@)
            == crate::tax_statement::html::builder::rows_view(old(rows)@) + income_lines(*st),
{
    let ghost start = crate::tax_statement::html::builder::rows_view(rows@);
    push_line(rows, <String as StringExecFns>::from_str("Veräußerungsgewinne"), st.total_capital_gains);
    push_line(rows, <String as StringExecFns>::from_str("Veräußerungsverluste"), st.total_capital_losses.neg());
    push_line(rows, <String as StringExecFns>::from_str("Dividenden und Ausschüttungen"), st.total_dividend_income);
    push_line(rows, <String as StringExecFns>::from_str("Zinsen"), st.total_interest_income);
    push_line(rows, <String as StringExecFns>::from_str("Fremdwährungsgewinne (§20 EStG)"), st.total_fx_gains);
    push_line(rows, <String as StringExecFns>::from_str("Fremdwährungsverluste (§20 EStG)"), st.total_fx_losses.neg());
    push_when(
        rows,
        !st.loss_carryforward_stock_prior.is_zero(),
        "Verlustvortrag Aktien aus Vorjahren",
        st.loss_carryforward_stock_prior.neg(),
    );
    push_when(
        rows,
        !st.loss_carryforward_other_prior.is_zero(),
        "Verlustvortrag sonstige Kapitalerträge aus Vorjahren",
        st.loss_carryforward_other_prior.neg(),
    );
    push_line(rows, <String as StringExecFns>::from_str("Sparer-Pauschbetrag (§20 Abs. 9 EStG)"), st.sparer_pauschbetrag);
    push_line(rows, <String as StringExecFns>::from_str("davon in Anspruch genommen"), st.sparer_pauschbetrag_used.neg());
    push_sum(
        rows,
        RowKind::Subtotal,
        "Steuerpflichtige Kapitalerträge (nach Verlustverrechnung und Sparer-Pauschbetrag)",
        st.total_taxable_income,
    );
    assert(crate::tax_statement::html::builder::rows_view(rows@) =~= start + income_lines(*st));
}

/// A statutory rate `m / 10^s` (`25 %`, `5,5 %`).
fn fixed_rate(m: i64, s: u32) -> (r: Decimal)
    requires
        0 <= m <= 100,
        2 <= s <= 3,
    ensures
        r == Decimal::spec_new(m as int, s as nat),
        eur_ok(r),
{
    let r = Decimal::new(m, s);
    proof {
        reveal_with_fuel(crate::decimal::pow10, 29);
        let p = crate::decimal::pow10((28 - s) as nat);
        assert(0 < p <= 100_000_000_000_000_000_000_000_000);
        assert(0 <= r.units() <= 100 * 100_000_000_000_000_000_000_000_000) by (nonlinear_arith)
            requires
                r.units() == m * p,
                0 <= m <= 100,
                0 < p <= 100_000_000_000_000_000_000_000_000,
        ;
    }
    r
}

fn pct_label(prefix: &str, fraction: Decimal, suffix: &str) -> (r: String)
    requires
        eur_ok(fraction),
    ensures
        r@ == prefix@ + crate::tax_statement::html::format::pct_text(fraction, 2) + suffix@,
{
    let mut label = <String as StringExecFns>::from_str(prefix);
    label.append(super::format::pct(fraction).as_str());
    label.append(suffix);
    label
}

#[verifier::spinoff_prover]
#[verifier::rlimit(30)]
fn push_tax_lines(rows: &mut Vec<Row>, st: &GermanTaxStatement)
    requires
        computation_ok(*st),
    ensures
        crate::tax_statement::html::builder::rows_view(final(rows)@)
            == crate::tax_statement::html::builder::rows_view(old(rows)@) + tax_lines(*st),
{
    let ghost start = crate::tax_statement::html::builder::rows_view(rows@);
    push_line(rows, pct_label("Abgeltungsteuer (", fixed_rate(25, 2), ")"), st.total_abgeltungssteuer);
    push_line(
        rows,
        pct_label("Solidaritätszuschlag (", fixed_rate(55, 3), " der Abgeltungsteuer)"),
        st.total_solidaritaetszuschlag,
    );
    let church = st.tax_rates.church_tax_rate;
    let label = pct_label("Kirchensteuer (", church, " der Abgeltungsteuer)");
    push_when(rows, !church.is_zero(), label.as_str(), st.total_kirchensteuer);
    push_sum(rows, RowKind::Subtotal, "Deutsche Steuer gesamt", st.total_german_tax);
    push_line(rows, <String as StringExecFns>::from_str("Gezahlte ausländische Quellensteuer"), st.total_foreign_tax);
    push_line(
        rows,
        <String as StringExecFns>::from_str("davon anrechenbar (§32d Abs. 5 EStG; bereits in der Steuer berücksichtigt)"),
        st.total_foreign_tax_credit,
    );
    push_sum(rows, RowKind::Total, "Voraussichtliche Steuerschuld (nach Anrechnung)", st.net_tax_due);
    push_when(
        rows,
        !st.loss_carryforward_stock_next.is_zero(),
        "Verlustvortrag Aktien in das Folgejahr",
        st.loss_carryforward_stock_next,
    );
    push_when(
        rows,
        !st.loss_carryforward_other_next.is_zero(),
        "Verlustvortrag sonstige Kapitalerträge in das Folgejahr",
        st.loss_carryforward_other_next,
    );
    push_when(
        rows,
        !st.total_fees.is_zero(),
        "Gebühren (informativ; kein Werbungskostenabzug nach §20 Abs. 9 EStG)",
        st.total_fees,
    );
    assert(crate::tax_statement::html::builder::rows_view(rows@) =~= start + tax_lines(*st));
}

/// Section: Steuerberechnung (Abgeltungsteuer). Always shown.
pub fn tax_computation(out: &mut String, st: &GermanTaxStatement) -> (r: bool)
    requires
        computation_ok(*st),
    ensures
        r,
        final(out)@ == tax_computation_after(old(out)@, *st),
{
    section_start(out, "steuerberechnung", "Steuerberechnung (Abgeltungsteuer)");
    let mut text = <String as StringExecFns>::from_str(
        "Schätzung der Abgeltungsteuer nach §32d EStG auf die in diesem Bericht ermittelten \
             Kapitalerträge: Verlustverrechnung nach Töpfen (§20 Abs. 6 EStG), \
             Sparer-Pauschbetrag, Anrechnung ausländischer Quellensteuer (§32d Abs. 5 EStG). \
             ",
    );
    text.append(b("Maßgeblich ist allein die Festsetzung durch das Finanzamt.").as_str());
    p(out, text.as_str());
    let ghost after_intro = out@;
    let mut columns: Vec<Column> = Vec::new();
    columns.push(col("Position", Align::Left));
    columns.push(col("Betrag (EUR)", Align::Right));
    proof {
        assert(columns_view(columns@) =~= computation_columns());
        assert(after_intro =~= old(out)@ + computation_intro());
    }
    let mut rows: Vec<Row> = Vec::new();
    push_income_lines(&mut rows, st);
    push_tax_lines(&mut rows, st);
    proof {
        assert(crate::tax_statement::html::builder::rows_view(rows@) =~= income_lines(*st) + tax_lines(*st));
    }
    table(out, &columns, &rows);
    section_end(out);
    true
}

/// A data row of a table whose first cell is `label`.
pub open spec fn labelled(row: RowView, label: Seq<char>) -> bool {
    row.kind == RowKind::Data && row.cells.len() > 0 && row.cells[0] == raw_cell(label)
}

/// The row label of the stock pot's loss carried into the next year.
pub open spec fn stock_carry_label() -> Seq<char> {
    "Verlustvortrag Aktien in das Folgejahr"@
}

/// The row label of the general pot's loss carried into the next year.
pub open spec fn other_carry_label() -> Seq<char> {
    "Verlustvortrag sonstige Kapitalerträge in das Folgejahr"@
}

spec fn vs_len(st: GermanTaxStatement) -> int {
    if st.loss_carryforward_stock_next.units() != 0 { 1 } else { 0 }
}

spec fn vo_len(st: GermanTaxStatement) -> int {
    if st.loss_carryforward_other_next.units() != 0 { 1 } else { 0 }
}

spec fn fe_len(st: GermanTaxStatement) -> int {
    if st.total_fees.units() != 0 { 1 } else { 0 }
}

/// §20(6) EStG in the report: the tax computation shows each pot's carryforward on a row of its
/// own. A row for the stock pot's carryforward is there exactly when that pot carries a loss into
/// the next year, and every such row shows the stock pot's carryforward; likewise for the general
/// pot. Neither row ever shows the other pot's figure.
#[verifier::rlimit(50)]
#[verifier::spinoff_prover]
pub proof fn carryforward_rows_show_their_own_pot(st: GermanTaxStatement)
    ensures
        (exists|i: int| 0 <= i < tax_lines(st).len() && #[trigger] labelled(tax_lines(st)[i], stock_carry_label()))
            <==> st.loss_carryforward_stock_next.units() != 0,
        forall|i: int|
            0 <= i < tax_lines(st).len() && #[trigger] labelled(tax_lines(st)[i], stock_carry_label())
                ==> tax_lines(st)[i].cells == seq![
                raw_cell(stock_carry_label()),
                num_cell(eur_str(st.loss_carryforward_stock_next)),
            ],
        (exists|i: int| 0 <= i < tax_lines(st).len() && #[trigger] labelled(tax_lines(st)[i], other_carry_label()))
            <==> st.loss_carryforward_other_next.units() != 0,
        forall|i: int|
            0 <= i < tax_lines(st).len() && #[trigger] labelled(tax_lines(st)[i], other_carry_label())
                ==> tax_lines(st)[i].cells == seq![
                raw_cell(other_carry_label()),
                num_cell(eur_str(st.loss_carryforward_other_next)),
            ],
{
    reveal_strlit("Verlustvortrag Aktien in das Folgejahr");
    reveal_strlit("Verlustvortrag sonstige Kapitalerträge in das Folgejahr");
    reveal_strlit("Abgeltungsteuer (");
    reveal_strlit("Solidaritätszuschlag (");
    reveal_strlit("Kirchensteuer (");
    reveal_strlit("Gezahlte ausländische Quellensteuer");
    reveal_strlit("davon anrechenbar (§32d Abs. 5 EStG; bereits in der Steuer berücksichtigt)");
    reveal_strlit("Gebühren (informativ; kein Werbungskostenabzug nach §20 Abs. 9 EStG)");
    let s = tax_lines(st);
    let sl = stock_carry_label();
    let ol = other_carry_label();
    assert(sl[15] == 'A' && ol[15] == 's');
    let head = s.subrange(0, s.len() - (vs_len(st) + vo_len(st) + fe_len(st)));
    let vs = when(st.loss_carryforward_stock_next.units() != 0, line_view(sl, st.loss_carryforward_stock_next));
    let vo = when(st.loss_carryforward_other_next.units() != 0, line_view(ol, st.loss_carryforward_other_next));
    let fe = when(
        st.total_fees.units() != 0,
        line_view("Gebühren (informativ; kein Werbungskostenabzug nach §20 Abs. 9 EStG)"@, st.total_fees),
    );
    assert(s =~= head + vs + vo + fe);
    assert forall|i: int| 0 <= i < head.len() implies !labelled(#[trigger] head[i], sl) && !labelled(head[i], ol) by {
        let c = head[i].cells[0].html;
        if head[i].kind == RowKind::Data {
            assert(c[0] != 'V');
        }
    }
    assert forall|i: int| 0 <= i < fe.len() implies !labelled(#[trigger] fe[i], sl) && !labelled(fe[i], ol) by {
        assert(fe[i].cells[0].html[0] == 'G');
    }
    assert forall|i: int| 0 <= i < vs.len() implies labelled(#[trigger] vs[i], sl) && !labelled(vs[i], ol) by {
        assert(vs[i].cells[0].html[15] == 'A');
    }
    assert forall|i: int| 0 <= i < vo.len() implies !labelled(#[trigger] vo[i], sl) && labelled(vo[i], ol) by {
        assert(vo[i].cells[0].html[15] == 's');
    }
    let a = head.len() as int;
    let b = a + vs.len() as int;
    let c = b + vo.len() as int;
    assert forall|i: int| 0 <= i < s.len() implies (#[trigger] labelled(s[i], sl) <==> a <= i < b) && (labelled(s[i], ol)
        <==> b <= i < c) by {
        if i < a {
            assert(s[i] == head[i]);
        } else if i < b {
            assert(s[i] == vs[i - a]);
        } else if i < c {
            assert(s[i] == vo[i - b]);
        } else {
            assert(s[i] == fe[i - c]);
        }
    }
    if st.loss_carryforward_stock_next.units() != 0 {
        assert(labelled(s[a], sl));
    }
    if st.loss_carryforward_other_next.units() != 0 {
        assert(labelled(s[b], ol));
    }
}

/// The figures of the tax side of the computation, each with the label of its row: each tax, the
/// foreign tax and its credit, what each pot carries into the next year, and the fees.
pub open spec fn tax_figures(st: GermanTaxStatement) -> Seq<(Seq<char>, Decimal)> {
    seq![
        (
            "Abgeltungsteuer ("@ + crate::tax_statement::html::format::pct_text(Decimal::spec_new(25, 2), 2) + ")"@,
            st.total_abgeltungssteuer,
        ),
        (
            "Solidaritätszuschlag ("@ + crate::tax_statement::html::format::pct_text(Decimal::spec_new(55, 3), 2)
                + " der Abgeltungsteuer)"@,
            st.total_solidaritaetszuschlag,
        ),
        (
            "Kirchensteuer ("@ + crate::tax_statement::html::format::pct_text(st.tax_rates.church_tax_rate, 2)
                + " der Abgeltungsteuer)"@,
            st.total_kirchensteuer,
        ),
        ("Gezahlte ausländische Quellensteuer"@, st.total_foreign_tax),
        ("davon anrechenbar (§32d Abs. 5 EStG; bereits in der Steuer berücksichtigt)"@, st.total_foreign_tax_credit),
        (stock_carry_label(), st.loss_carryforward_stock_next),
        (other_carry_label(), st.loss_carryforward_other_next),
        ("Gebühren (informativ; kein Werbungskostenabzug nach §20 Abs. 9 EStG)"@, st.total_fees),
    ]
}

proof fn lemma_tax_labels_distinct(st: GermanTaxStatement)
    ensures
        forall|a: int, b: int|
            0 <= a < 8 && 0 <= b < 8 && a != b ==> #[trigger] tax_figures(st)[a].0 != #[trigger] tax_figures(st)[b].0,
{
    reveal_strlit("Verlustvortrag Aktien in das Folgejahr");
    reveal_strlit("Verlustvortrag sonstige Kapitalerträge in das Folgejahr");
    reveal_strlit("Abgeltungsteuer (");
    reveal_strlit("Solidaritätszuschlag (");
    reveal_strlit("Kirchensteuer (");
    reveal_strlit("Gezahlte ausländische Quellensteuer");
    reveal_strlit("davon anrechenbar (§32d Abs. 5 EStG; bereits in der Steuer berücksichtigt)");
    reveal_strlit("Gebühren (informativ; kein Werbungskostenabzug nach §20 Abs. 9 EStG)");
    let f = tax_figures(st);
    assert(f[0].0[0] == 'A' && f[1].0[0] == 'S' && f[2].0[0] == 'K' && f[3].0[0] == 'G');
    assert(f[4].0[0] == 'd' && f[5].0[0] == 'V' && f[6].0[0] == 'V' && f[7].0[0] == 'G');
    assert(f[3].0[2] == 'z' && f[7].0[2] == 'b' && f[5].0[15] == 'A' && f[6].0[15] == 's');
    assert forall|a: int, b: int| 0 <= a < 8 && 0 <= b < 8 && a != b implies #[trigger] f[a].0 != #[trigger] f[b].0 by {
        if f[a].0 == f[b].0 {
            assert(f[a].0[0] == f[b].0[0]);
            assert(f[a].0[2] == f[b].0[2]);
            assert(f[a].0[15] == f[b].0[15]);
        }
    }
}

/// The tax side of the computation shows every figure on the row that names it: a data row
/// labelled as the Abgeltungsteuer, the Soli, the Kirchensteuer, the foreign tax, its credit, a
/// pot's carryforward or the fees shows exactly that figure.
#[verifier::rlimit(60)]
#[verifier::spinoff_prover]
pub proof fn tax_rows_show_their_own_figures(st: GermanTaxStatement)
    ensures
        forall|i: int, k: int|
            0 <= i < tax_lines(st).len() && 0 <= k < tax_figures(st).len() && #[trigger] labelled(
                tax_lines(st)[i],
                #[trigger] tax_figures(st)[k].0,
            ) ==> tax_lines(st)[i].cells == seq![
                raw_cell(tax_figures(st)[k].0),
                num_cell(eur_str(tax_figures(st)[k].1)),
            ],
{
    let s = tax_lines(st);
    let f = tax_figures(st);
    lemma_tax_labels_distinct(st);
    let ck: int = if st.tax_rates.church_tax_rate.units() != 0 { 1 } else { 0 };
    let a: int = 6 + ck;
    let b: int = a + vs_len(st);
    let c: int = b + vo_len(st);
    assert(s.len() == c + fe_len(st));
    assert forall|i: int, k: int|
        0 <= i < s.len() && 0 <= k < f.len() && #[trigger] labelled(s[i], #[trigger] f[k].0) implies s[i].cells == seq![
            raw_cell(f[k].0),
            num_cell(eur_str(f[k].1)),
        ] by {
        let j: int = if i == 0 {
            0
        } else if i == 1 {
            1
        } else if i == 2 && ck == 1 {
            2
        } else if i == 2 + ck + 1 {
            3
        } else if i == 2 + ck + 2 {
            4
        } else if a <= i < b {
            5
        } else if b <= i < c {
            6
        } else if i >= c {
            7
        } else {
            -1
        };
        if j >= 0 {
            assert(s[i] == line_view(f[j].0, f[j].1));
            assert(f[k].0 == f[j].0);
        } else {
            assert(s[i].kind != RowKind::Data);
        }
    }
}

} // verus!
