//! The Vorabpauschale section of the German report: the deemed fund income of the year (§18
//! InvStG), which is income of the next year and stays out of this year's form values.
use vstd::prelude::*;

use crate::date::dotted_text;
use crate::decimal::{quantity_bound, unit, Decimal};
use crate::tax_statement::eur::eur_ok;
use crate::tax_statement::germany::statement::{GermanTaxStatement, VorabpauschaleEntry};
use crate::tax_statement::html::builder::{
    b, bold, cells_view, col, columns_view, empty_cell, escape, escape_html, note, note_text, num_cell, p,
    p_text, rows_view, section_end, section_start, section_start_text, strings_view, table,
    table_after, text_cell, Align, Cell, CellView, Column, ColumnView, Row, RowKind, RowView,
};
use crate::tax_statement::html::format::{pct_text, punctuated};
use crate::taxes::germany::spec_rate;
use crate::text::{int_text, push_int};

use super::format::{date, eur, pct, qty};
use super::notes::{join, joined};
use super::summary::eur_str;

verus! {

/// The sum, in order from zero, of one figure of the entries.
pub open spec fn entry_sum(s: Seq<VorabpauschaleEntry>, f: spec_fn(VorabpauschaleEntry) -> Decimal) -> Decimal
    decreases s.len(),
{
    if s.len() == 0 {
        Decimal::spec_zero()
    } else {
        entry_sum(s.drop_last(), f).spec_add(f(s.last()))
    }
}

pub open spec fn gross_of(e: VorabpauschaleEntry) -> Decimal {
    e.gross_vorabpauschale
}

pub open spec fn taxable_of(e: VorabpauschaleEntry) -> Decimal {
    e.taxable_amount
}

pub open spec fn tax_of(e: VorabpauschaleEntry) -> Decimal {
    e.total_tax
}

pub open spec fn small(d: Decimal) -> bool {
    -quantity_bound() <= d.units() <= quantity_bound()
}

/// What the section prints must fit the formatter: at most 100 000 entries, each figure at most a
/// trillion euros.
pub open spec fn fund_section_ok(st: GermanTaxStatement) -> bool {
    &&& st.vorabpauschale@.len() <= 100_000
    &&& st.year < i32::MAX
    &&& forall|i: int| 0 <= i < st.vorabpauschale@.len() ==> entry_ok(#[trigger] st.vorabpauschale@[i])
}

pub open spec fn entry_ok(e: VorabpauschaleEntry) -> bool {
    &&& eur_ok(e.nav_jan1) && eur_ok(e.nav_dec31) && eur_ok(e.distributions) && eur_ok(e.basiszins)
    &&& eur_ok(e.accumulated_after)
    &&& small(e.gross_vorabpauschale) && small(e.taxable_amount) && small(e.total_tax)
}

pub open spec fn fund_columns() -> Seq<ColumnView> {
    seq![
        ColumnView { title: "Fonds"@, align: Align::Left },
        ColumnView { title: "ISIN"@, align: Align::Left },
        ColumnView { title: "Menge"@, align: Align::Right },
        ColumnView { title: "Wert 01.01."@, align: Align::Right },
        ColumnView { title: "Wert 31.12."@, align: Align::Right },
        ColumnView { title: "Ausschüttungen"@, align: Align::Right },
        ColumnView { title: "Basiszins"@, align: Align::Right },
        ColumnView { title: "Teilfreistellung"@, align: Align::Right },
        ColumnView { title: "Vorabpauschale brutto"@, align: Align::Right },
        ColumnView { title: "Steuerpflichtig"@, align: Align::Right },
        ColumnView { title: "Steuer (geschätzt)"@, align: Align::Right },
        ColumnView { title: "Kumuliert (§19)"@, align: Align::Right },
    ]
}

pub open spec fn fund_row(e: VorabpauschaleEntry) -> RowView {
    RowView {
        kind: RowKind::Data,
        cells: seq![
            text_cell(e.symbol@),
            text_cell(e.isin@),
            num_cell(punctuated(e.quantity.spec_round_dp(4).spec_normalized().text())),
            num_cell(eur_str(e.nav_jan1)),
            num_cell(eur_str(e.nav_dec31)),
            num_cell(eur_str(e.distributions)),
            num_cell(pct_text(e.basiszins, 2)),
            num_cell(pct_text(spec_rate(e.teilfreistellung_rate), 2)),
            num_cell(eur_str(e.gross_vorabpauschale)),
            num_cell(eur_str(e.taxable_amount)),
            num_cell(eur_str(e.total_tax)),
            num_cell(eur_str(e.accumulated_after)),
        ],
    }
}

/// The entries, then the total line of the gross, taxable and tax columns.
pub open spec fn fund_rows(s: Seq<VorabpauschaleEntry>) -> Seq<RowView> {
    s.map_values(|e: VorabpauschaleEntry| fund_row(e)).push(
        RowView {
            kind: RowKind::Total,
            cells: seq![
                text_cell("Gesamt"@),
                empty_cell(),
                empty_cell(),
                empty_cell(),
                empty_cell(),
                empty_cell(),
                empty_cell(),
                empty_cell(),
                num_cell(eur_str(entry_sum(s, |e: VorabpauschaleEntry| gross_of(e)))),
                num_cell(eur_str(entry_sum(s, |e: VorabpauschaleEntry| taxable_of(e)))),
                num_cell(eur_str(entry_sum(s, |e: VorabpauschaleEntry| tax_of(e)))),
                empty_cell(),
            ],
        },
    )
}

pub open spec fn fund_intro(year: int) -> Seq<char> {
    section_start_text("vorabpauschale"@, "Vorabpauschale (§18 InvStG)"@) + p_text(
        "Für Investmentfonds, die am 31.12."@ + int_text(year) + " gehalten wurden, gilt eine fiktive \
             Mindestbesteuerung: die "@ + bold("Vorabpauschale"@) + ". Sie ergibt sich aus dem Wert zu Jahresbeginn, dem \
             Basiszins und den Ausschüttungen des Jahres, ist auf den Wertzuwachs begrenzt und \
             gilt am ersten Werktag des Folgejahres als zugeflossen. Sie ist daher "@ + bold(
            "Einkunft des Jahres "@ + int_text(year + 1),
        ) + " und \
             "@ + bold("nicht in den Steuerformular-Werten"@) + " in diesem Bericht enthalten. Bei einem späteren Verkauf mindert die kumulierte \
             Vorabpauschale den Veräußerungsgewinn (§19 InvStG)."@,
    )
}

pub open spec fn deemed_note(st: GermanTaxStatement) -> Seq<char> {
    note_text(
        "info"@,
        "Zufluss am "@ + dotted_text(st.vorabpauschale@[0].deemed_received)
            + ": in der Steuererklärung "@ + int_text(st.year + 1) + " anzugeben (Anlage \
                 KAP-INV, Vorabpauschale-Zeilen je Fondsart). Den kumulierten Betrag je Fonds in \
                 <code>taxes.vorabpauschale_carryforward</code> der Konfiguration fortschreiben."@,
    )
}

pub open spec fn missing_nav_note(st: GermanTaxStatement) -> Seq<char> {
    note_text(
        "warn"@,
        "Für folgende zum Jahresende gehaltene Fonds konnte keine Vorabpauschale berechnet \
                 werden, weil die Rücknahmepreise zum 01.01. und 31.12. nicht konfiguriert sind \
                 (<code>taxes.fund_nav</code>): "@ + escape_html(
            joined(strings_view(st.vorabpauschale_missing_nav@), ", "@),
        ),
    )
}

/// The section: omitted without entries and without funds missing their NAVs.
pub open spec fn fund_section_after(p: Seq<char>, st: GermanTaxStatement) -> Seq<char> {
    if st.vorabpauschale@.len() == 0 && st.vorabpauschale_missing_nav@.len() == 0 {
        p
    } else {
        (if st.vorabpauschale@.len() > 0 {
            table_after(p + fund_intro(st.year as int), fund_columns(), fund_rows(st.vorabpauschale@))
                + deemed_note(st)
        } else {
            p + fund_intro(st.year as int)
        }) + (if st.vorabpauschale_missing_nav@.len() > 0 {
            missing_nav_note(st)
        } else {
            Seq::empty()
        }) + "</section>\n"@
    }
}

/// A running total after at most `k` entries.
pub open spec fn bounded(d: Decimal, k: int) -> bool {
    -k * (quantity_bound() + unit()) <= d.units() <= k * (quantity_bound() + unit())
}

pub proof fn lemma_sum_step(t: Decimal, c: Decimal, k: int)
    requires
        0 <= k < 100_000,
        bounded(t, k),
        small(c),
    ensures
        crate::decimal::in_range(t.units() + c.units()),
{
    let s = quantity_bound() + unit();
    assert(-100_000 * s <= t.units() <= 100_000 * s) by (nonlinear_arith)
        requires
            0 <= k < 100_000,
            -k * s <= t.units() <= k * s,
            s > 0,
    ;
}

pub proof fn lemma_sum_bounded(t: Decimal, c: Decimal, r: Decimal, k: int)
    requires
        0 <= k,
        bounded(t, k),
        small(c),
        -unit() <= r.units() - (t.units() + c.units()) <= unit(),
    ensures
        bounded(r, k + 1),
{
    let s = quantity_bound() + unit();
    assert((k + 1) * s == k * s + s) by (nonlinear_arith);
    assert((-(k + 1)) * s == -(k * s) - s) by (nonlinear_arith);
    assert((-k) * s == -(k * s)) by (nonlinear_arith);
}

pub proof fn lemma_bounded_is_eur(d: Decimal, k: int)
    requires
        0 <= k <= 500_000,
        bounded(d, k),
    ensures
        eur_ok(d),
{
    let s = quantity_bound() + unit();
    assert(-500_000 * s <= d.units() <= 500_000 * s) by (nonlinear_arith)
        requires
            0 <= k <= 500_000,
            -k * s <= d.units() <= k * s,
            s > 0,
    ;
}

/// Two running totals added (within a unit of rounding) stay within the sum of their bounds.
pub proof fn lemma_bounded_add(t: Decimal, a: int, c: Decimal, b: int)
    requires
        0 <= a,
        0 <= b,
        a + b <= 1_000_000,
        bounded(t, a),
        bounded(c, b),
    ensures
        crate::decimal::in_range(t.units() + c.units()),
        forall|r: Decimal| -unit() <= #[trigger] r.units() - (t.units() + c.units()) <= unit() ==> bounded(r, a + b + 1),
{
    let s = quantity_bound() + unit();
    assert((a + b + 1) * s == a * s + b * s + s) by (nonlinear_arith);
    assert((-(a + b + 1)) * s == -(a * s) - (b * s) - s) by (nonlinear_arith);
    assert((-a) * s == -(a * s)) by (nonlinear_arith);
    assert((-b) * s == -(b * s)) by (nonlinear_arith);
    assert(-1_000_000 * s <= t.units() + c.units() <= 1_000_000 * s) by (nonlinear_arith)
        requires
            -(a * s) <= t.units() <= a * s,
            -(b * s) <= c.units() <= b * s,
            a + b <= 1_000_000,
            0 <= a,
            0 <= b,
            s > 0,
    ;
}

/// A bound that holds of fewer steps holds of more.
pub proof fn lemma_bounded_more(d: Decimal, a: int, b: int)
    requires
        0 <= a <= b,
        bounded(d, a),
    ensures
        bounded(d, b),
{
    let s = quantity_bound() + unit();
    assert(a * s <= b * s) by (nonlinear_arith)
        requires
            0 <= a <= b,
            s > 0,
    ;
    assert((-a) * s == -(a * s)) by (nonlinear_arith);
    assert((-b) * s == -(b * s)) by (nonlinear_arith);
}

fn push_cell(cells: &mut Vec<Cell>, c: Cell)
    ensures
        cells_view(final(cells)@) == cells_view(old(cells)@).push(c@),
{
    cells.push(c);
    assert(cells_view(cells@) =~= cells_view(old(cells)@).push(c@));
}

fn fund_rate(e: &VorabpauschaleEntry) -> (r: Decimal)
    ensures
        r == spec_rate(e.teilfreistellung_rate),
        eur_ok(r),
{
    proof {
        reveal_with_fuel(crate::decimal::pow10, 29);
    }
    e.teilfreistellung_rate.rate()
}

fn entry_row(e: &VorabpauschaleEntry) -> (r: Row)
    requires
        entry_ok(*e),
    ensures
        r@ == fund_row(*e),
{
    let mut cells: Vec<Cell> = Vec::new();
    push_cell(&mut cells, Cell::text(e.symbol.as_str()));
    push_cell(&mut cells, Cell::text(e.isin.as_str()));
    push_cell(&mut cells, Cell::num(qty(e.quantity).as_str()));
    push_cell(&mut cells, Cell::num(eur(e.nav_jan1).as_str()));
    push_cell(&mut cells, Cell::num(eur(e.nav_dec31).as_str()));
    push_cell(&mut cells, Cell::num(eur(e.distributions).as_str()));
    push_cell(&mut cells, Cell::num(pct(e.basiszins).as_str()));
    push_cell(&mut cells, Cell::num(pct(fund_rate(e)).as_str()));
    push_cell(&mut cells, Cell::num(eur(e.gross_vorabpauschale).as_str()));
    push_cell(&mut cells, Cell::num(eur(e.taxable_amount).as_str()));
    push_cell(&mut cells, Cell::num(eur(e.total_tax).as_str()));
    push_cell(&mut cells, Cell::num(eur(e.accumulated_after).as_str()));
    let r = Row::data(cells);
    assert(r@.cells =~= fund_row(*e).cells);
    r
}

fn total_row(gross: Decimal, taxable: Decimal, tax: Decimal) -> (r: Row)
    requires
        eur_ok(gross),
        eur_ok(taxable),
        eur_ok(tax),
    ensures
        r@ == (RowView {
            kind: RowKind::Total,
            cells: seq![
                text_cell("Gesamt"@),
                empty_cell(),
                empty_cell(),
                empty_cell(),
                empty_cell(),
                empty_cell(),
                empty_cell(),
                empty_cell(),
                num_cell(eur_str(gross)),
                num_cell(eur_str(taxable)),
                num_cell(eur_str(tax)),
                empty_cell(),
            ],
        }),
{
    let mut cells: Vec<Cell> = Vec::new();
    push_cell(&mut cells, Cell::text("Gesamt"));
    let mut i: usize = 0;
    while i < 7
        invariant
            i <= 7,
            cells_view(cells@) == seq![text_cell("Gesamt"@)] + Seq::new(i as nat, |j: int| empty_cell()),
        decreases 7 - i,
    {
        push_cell(&mut cells, Cell::empty());
        assert(cells_view(cells@) =~= seq![text_cell("Gesamt"@)] + Seq::new((i + 1) as nat, |j: int| empty_cell()));
        i = i + 1;
    }
    push_cell(&mut cells, Cell::num(eur(gross).as_str()));
    push_cell(&mut cells, Cell::num(eur(taxable).as_str()));
    push_cell(&mut cells, Cell::num(eur(tax).as_str()));
    push_cell(&mut cells, Cell::empty());
    let r = Row::total(cells);
    assert(r@.cells =~= seq![
        text_cell("Gesamt"@),
        empty_cell(),
        empty_cell(),
        empty_cell(),
        empty_cell(),
        empty_cell(),
        empty_cell(),
        empty_cell(),
        num_cell(eur_str(gross)),
        num_cell(eur_str(taxable)),
        num_cell(eur_str(tax)),
        empty_cell(),
    ]);
    r
}

fn fund_table_rows(st: &GermanTaxStatement) -> (r: Vec<Row>)
    requires
        fund_section_ok(*st),
    ensures
        rows_view(r@) == fund_rows(st.vorabpauschale@),
{
    let ghost v = st.vorabpauschale@;
    let mut rows: Vec<Row> = Vec::new();
    let mut gross = Decimal::zero();
    let mut taxable = Decimal::zero();
    let mut tax = Decimal::zero();
    let mut i: usize = 0;
    while i < st.vorabpauschale.len()
        invariant
            fund_section_ok(*st),
            v == st.vorabpauschale@,
            i <= v.len(),
            rows_view(rows@) == v.take(i as int).map_values(|e: VorabpauschaleEntry| fund_row(e)),
            gross == entry_sum(v.take(i as int), |e: VorabpauschaleEntry| gross_of(e)),
            taxable == entry_sum(v.take(i as int), |e: VorabpauschaleEntry| taxable_of(e)),
            tax == entry_sum(v.take(i as int), |e: VorabpauschaleEntry| tax_of(e)),
            bounded(gross, i as int),
            bounded(taxable, i as int),
            bounded(tax, i as int),
        decreases v.len() - i,
    {
        let e = &st.vorabpauschale[i];
        assert(*e == v[i as int]);
        assert(entry_ok(v[i as int]));
        proof {
            assert(v.take(i + 1).drop_last() =~= v.take(i as int));
            assert(v.take(i + 1).last() == *e);
            lemma_sum_step(gross, e.gross_vorabpauschale, i as int);
            lemma_sum_step(taxable, e.taxable_amount, i as int);
            lemma_sum_step(tax, e.total_tax, i as int);
        }
        let g = gross.add(&e.gross_vorabpauschale);
        let t = taxable.add(&e.taxable_amount);
        let x = tax.add(&e.total_tax);
        proof {
            lemma_sum_bounded(gross, e.gross_vorabpauschale, g, i as int);
            lemma_sum_bounded(taxable, e.taxable_amount, t, i as int);
            lemma_sum_bounded(tax, e.total_tax, x, i as int);
        }
        gross = g;
        taxable = t;
        tax = x;
        let row = entry_row(e);
        let ghost before = rows_view(rows@);
        rows.push(row);
        proof {
            assert(rows_view(rows@) =~= before.push(fund_row(*e)));
            assert(v.take(i + 1).map_values(|e: VorabpauschaleEntry| fund_row(e)) =~= before.push(fund_row(*e)));
        }
        i = i + 1;
    }
    proof {
        assert(v.take(i as int) =~= v);
        lemma_bounded_is_eur(gross, i as int);
        lemma_bounded_is_eur(taxable, i as int);
        lemma_bounded_is_eur(tax, i as int);
    }
    let ghost before = rows_view(rows@);
    rows.push(total_row(gross, taxable, tax));
    proof {
        assert(rows_view(rows@) =~= fund_rows(v));
    }
    rows
}

fn write_fund_intro(out: &mut String, year: i32)
    requires
        year < i32::MAX,
    ensures
        final(out)@ == old(out)@ + fund_intro(year as int),
{
    section_start(out, "vorabpauschale", "Vorabpauschale (§18 InvStG)");
    let mut text = <String as StringExecFns>::from_str("Für Investmentfonds, die am 31.12.");
    push_int(&mut text, year as i64);
    text.append(
        " gehalten wurden, gilt eine fiktive \
             Mindestbesteuerung: die ",
    );
    text.append(b("Vorabpauschale").as_str());
    text.append(
        ". Sie ergibt sich aus dem Wert zu Jahresbeginn, dem \
             Basiszins und den Ausschüttungen des Jahres, ist auf den Wertzuwachs begrenzt und \
             gilt am ersten Werktag des Folgejahres als zugeflossen. Sie ist daher ",
    );
    let mut next = <String as StringExecFns>::from_str("Einkunft des Jahres ");
    push_int(&mut next, (year + 1) as i64);
    text.append(b(next.as_str()).as_str());
    text.append(
        " und \
             ",
    );
    text.append(b("nicht in den Steuerformular-Werten").as_str());
    text.append(
        " in diesem Bericht enthalten. Bei einem späteren Verkauf mindert die kumulierte \
             Vorabpauschale den Veräußerungsgewinn (§19 InvStG).",
    );
    p(out, text.as_str());
    assert(out@ =~= old(out)@ + fund_intro(year as int));
}

fn write_deemed_note(out: &mut String, st: &GermanTaxStatement)
    requires
        st.vorabpauschale@.len() > 0,
        st.year < i32::MAX,
    ensures
        final(out)@ == old(out)@ + deemed_note(*st),
{
    let mut text = <String as StringExecFns>::from_str("Zufluss am ");
        text.append(date(st.vorabpauschale[0].deemed_received).as_str());
        text.append(": in der Steuererklärung ");
        push_int(&mut text, (st.year + 1) as i64);
        text.append(
            " anzugeben (Anlage \
                 KAP-INV, Vorabpauschale-Zeilen je Fondsart). Den kumulierten Betrag je Fonds in \
                 <code>taxes.vorabpauschale_carryforward</code> der Konfiguration fortschreiben.",
        );
        note(out, "info", text.as_str());
    assert(out@ =~= old(out)@ + deemed_note(*st));
}

fn write_missing_note(out: &mut String, st: &GermanTaxStatement)
    ensures
        final(out)@ == old(out)@ + missing_nav_note(*st),
{
        let mut text = <String as StringExecFns>::from_str(
            "Für folgende zum Jahresende gehaltene Fonds konnte keine Vorabpauschale berechnet \
                 werden, weil die Rücknahmepreise zum 01.01. und 31.12. nicht konfiguriert sind \
                 (<code>taxes.fund_nav</code>): ",
        );
        text.append(escape(join(&st.vorabpauschale_missing_nav, ", ").as_str()).as_str());
        note(out, "warn", text.as_str());
    assert(out@ =~= old(out)@ + missing_nav_note(*st));
}

/// Section: Vorabpauschale (§18 InvStG). Omitted without entries and without funds missing their
/// NAVs.
pub fn vorabpauschale(out: &mut String, st: &GermanTaxStatement) -> (r: bool)
    requires
        fund_section_ok(*st),
    ensures
        r == !(st.vorabpauschale@.len() == 0 && st.vorabpauschale_missing_nav@.len() == 0),
        final(out)@ == fund_section_after(old(out)@, *st),
{
    if st.vorabpauschale.len() == 0 && st.vorabpauschale_missing_nav.len() == 0 {
        return false;
    }
    write_fund_intro(out, st.year);
    let ghost after_intro = out@;
    if st.vorabpauschale.len() > 0 {
        let mut columns: Vec<Column> = Vec::new();
        columns.push(col("Fonds", Align::Left));
        columns.push(col("ISIN", Align::Left));
        columns.push(col("Menge", Align::Right));
        columns.push(col("Wert 01.01.", Align::Right));
        columns.push(col("Wert 31.12.", Align::Right));
        columns.push(col("Ausschüttungen", Align::Right));
        columns.push(col("Basiszins", Align::Right));
        columns.push(col("Teilfreistellung", Align::Right));
        columns.push(col("Vorabpauschale brutto", Align::Right));
        columns.push(col("Steuerpflichtig", Align::Right));
        columns.push(col("Steuer (geschätzt)", Align::Right));
        columns.push(col("Kumuliert (§19)", Align::Right));
        proof {
            assert(columns_view(columns@) =~= fund_columns());
        }
        let rows = fund_table_rows(st);
        table(out, &columns, &rows);
        write_deemed_note(out, st);
    }
    let ghost after_table = out@;
    if st.vorabpauschale_missing_nav.len() > 0 {
        write_missing_note(out, st);
    }
    section_end(out);
    proof {
        assert(out@ =~= fund_section_after(old(out)@, *st));
    }
    true
}

} // verus!
