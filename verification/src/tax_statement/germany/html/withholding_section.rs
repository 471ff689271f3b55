//! The withholding overview of the German report: the foreign tax withheld on each dividend, per
//! source country in date order, with what the forms credit of it.
use vstd::prelude::*;

use crate::date::dotted_text;
use crate::decimal::Decimal;
use crate::tax_statement::eur::eur_ok;
use crate::tax_statement::germany::report_details::{AssetCategory, WithholdingRow};
use crate::tax_statement::germany::statement::GermanTaxStatement;
use crate::tax_statement::html::builder::{
    b, bold, col, columns_view, escape_html, h3, h3_text, h4, h4_text, note, note_text, num_cell, p,
    p_text, push_cell, rows_view, section_end, section_start, section_start_text, strings_view, table,
    table_after, text_cell, ul, ul_text, Align, Cell, Column, ColumnView, Row, RowKind, RowView,
};
use crate::tax_statement::html::format::pct_text;
use crate::tax_statement::html::grouping::{
    index_view, keys_view, runs, runs_view, sort_order, sorted_order, split_runs, KeyView, SortKey,
};

use super::format::{category_label, category_text, country_name, country_name_text, date, dec2, eur, pct_observed};
use super::fund_section::{bounded, lemma_bounded_is_eur, lemma_sum_bounded, lemma_sum_step, small};
use super::fx_section::{sum_cells, sum_row};
use super::summary::eur_str;

verus! {

/// Withholding grouped by source country, each group by date.
pub open spec fn withholding_key(r: WithholdingRow) -> KeyView {
    KeyView { rank: 0, texts: seq![r.country_code@], day: r.date.key() }
}

pub open spec fn withholding_groups(rows: Seq<WithholdingRow>) -> Seq<Seq<WithholdingRow>> {
    let keys = rows.map_values(|x: WithholdingRow| withholding_key(x));
    runs(sorted_order(keys, rows.len()), keys).map_values(|g: Seq<int>| g.map_values(|i: int| rows[i]))
}

/// The crediting limit shown for an asset class: 15 % for shares, none for funds.
pub open spec fn cap_text(c: AssetCategory) -> Seq<char> {
    match c {
        AssetCategory::Stock => "15 %"@,
        _ => "0 % (InvStG)"@,
    }
}

pub open spec fn withholding_row(r: WithholdingRow) -> RowView {
    RowView {
        kind: RowKind::Data,
        cells: seq![
            text_cell(r.currency@),
            text_cell(dotted_text(r.date)),
            text_cell(category_text(r.category)),
            text_cell(r.isin@),
            text_cell(r.name@),
            num_cell(eur_str(r.gross)),
            num_cell(eur_str(r.gross_eur)),
            num_cell(eur_str(r.withheld.spec_neg())),
            num_cell(eur_str(r.withheld_eur.spec_neg())),
            num_cell(pct_text(r.withholding_rate, 1)),
            num_cell(cap_text(r.category)),
            num_cell(eur_str(r.creditable_eur)),
        ],
    }
}

pub open spec fn gross_total(s: Seq<WithholdingRow>) -> Decimal
    decreases s.len(),
{
    if s.len() == 0 {
        Decimal::spec_zero()
    } else {
        gross_total(s.drop_last()).spec_add(s.last().gross_eur)
    }
}

pub open spec fn withheld_total(s: Seq<WithholdingRow>) -> Decimal
    decreases s.len(),
{
    if s.len() == 0 {
        Decimal::spec_zero()
    } else {
        withheld_total(s.drop_last()).spec_add(s.last().withheld_eur)
    }
}

pub open spec fn creditable_total(s: Seq<WithholdingRow>) -> Decimal
    decreases s.len(),
{
    if s.len() == 0 {
        Decimal::spec_zero()
    } else {
        creditable_total(s.drop_last()).spec_add(s.last().creditable_eur)
    }
}

pub open spec fn withholding_group_rows(g: Seq<WithholdingRow>) -> Seq<RowView> {
    g.map_values(|r: WithholdingRow| withholding_row(r)) + seq![
        RowView {
            kind: RowKind::Total,
            cells: sum_cells(
                "Gesamt"@,
                12,
                seq![
                    (6, eur_str(gross_total(g))),
                    (8, eur_str(withheld_total(g).spec_neg())),
                    (11, eur_str(creditable_total(g))),
                ],
            ),
        },
    ]
}

pub open spec fn withholding_columns() -> Seq<ColumnView> {
    seq![
        ColumnView { title: "Währung"@, align: Align::Left },
        ColumnView { title: "Datum"@, align: Align::Left },
        ColumnView { title: "Asset-Kategorie"@, align: Align::Left },
        ColumnView { title: "ISIN"@, align: Align::Left },
        ColumnView { title: "Name"@, align: Align::Left },
        ColumnView { title: "Brutto"@, align: Align::Right },
        ColumnView { title: "Brutto EUR"@, align: Align::Right },
        ColumnView { title: "QSt"@, align: Align::Right },
        ColumnView { title: "QSt EUR"@, align: Align::Right },
        ColumnView { title: "QSt-Satz"@, align: Align::Right },
        ColumnView { title: "Anrechnungsgrenze"@, align: Align::Right },
        ColumnView { title: "Anrechenbar EUR"@, align: Align::Right },
    ]
}

/// The heading of a country: its name and its code ("–" when unknown).
pub open spec fn country_heading(code: Seq<char>) -> Seq<char> {
    country_name_text(code) + " ("@ + (if code.len() == 0 { "–"@ } else { code }) + ")"@
}

pub open spec fn withholding_groups_after(p: Seq<char>, gs: Seq<Seq<WithholdingRow>>) -> Seq<char>
    decreases gs.len(),
{
    if gs.len() == 0 {
        p
    } else {
        let g = gs.last();
        table_after(
            withholding_groups_after(p, gs.drop_last()) + h3_text(country_heading(g[0].country_code@)),
            withholding_columns(),
            withholding_group_rows(g),
        )
    }
}

#[verifier::opaque]
pub open spec fn withholding_intro() -> Seq<char> {
    section_start_text("quellensteuer"@, "Quellensteuer-Übersicht"@) + p_text(
        "Diese Tabelle zeigt eine detaillierte Aufstellung aller im Steuerjahr einbehaltenen \
             "@ + bold("ausländischen Quellensteuern"@) + " auf Dividenden und vergleichbare Erträge. Sie dient dazu, die "@
            + bold("anrechenbaren Beträge"@) + " zu ermitteln und \
             die korrekte Eintragung in der Steuererklärung vorzubereiten."@,
    ) + h4_text("Hinweise"@) + ul_text(
        seq![
            "Die aufgeführten Werte sind für die Anrechnung in der <b>Anlage KAP</b> (Zeile 41) \
             relevant und helfen, eine doppelte Besteuerung – soweit möglich – zu vermeiden."@,
            "Angerechnet wird höchstens der typische DBA-Satz von <b>15 %</b> des Bruttoertrags \
             und höchstens 25 % des steuerpflichtigen Betrags (§32d Abs. 5 EStG). Darüber hinaus \
             einbehaltene Steuer (z. B. Schweiz 35 %, Frankreich) ist nur per Erstattungsantrag im \
             Quellenstaat zurückzuholen."@,
            "Quellensteuer auf <b>Fondsausschüttungen</b> ist nach InvStG nicht anrechenbar; sie \
             wird informativ mit 0,00 EUR anrechenbar ausgewiesen."@,
        ],
    )
}

fn write_withholding_intro(out: &mut String)
    ensures
        final(out)@ == old(out)@ + withholding_intro(),
{
    section_start(out, "quellensteuer", "Quellensteuer-Übersicht");
    let mut text = <String as StringExecFns>::from_str("Diese Tabelle zeigt eine detaillierte Aufstellung aller im Steuerjahr einbehaltenen \
             ");
    text.append(b("ausländischen Quellensteuern").as_str());
    text.append(" auf Dividenden und vergleichbare Erträge. Sie dient dazu, die ");
    text.append(b("anrechenbaren Beträge").as_str());
    text.append(" zu ermitteln und \
             die korrekte Eintragung in der Steuererklärung vorzubereiten.");
    p(out, text.as_str());
    h4(out, "Hinweise");
    let mut items: Vec<String> = Vec::new();
    items.push(<String as StringExecFns>::from_str("Die aufgeführten Werte sind für die Anrechnung in der <b>Anlage KAP</b> (Zeile 41) \
             relevant und helfen, eine doppelte Besteuerung – soweit möglich – zu vermeiden."));
    items.push(<String as StringExecFns>::from_str("Angerechnet wird höchstens der typische DBA-Satz von <b>15 %</b> des Bruttoertrags \
             und höchstens 25 % des steuerpflichtigen Betrags (§32d Abs. 5 EStG). Darüber hinaus \
             einbehaltene Steuer (z. B. Schweiz 35 %, Frankreich) ist nur per Erstattungsantrag im \
             Quellenstaat zurückzuholen."));
    items.push(<String as StringExecFns>::from_str("Quellensteuer auf <b>Fondsausschüttungen</b> ist nach InvStG nicht anrechenbar; sie \
             wird informativ mit 0,00 EUR anrechenbar ausgewiesen."));
    let ghost before_list = out@;
    ul(out, &items);
    proof {
        let iv = seq![
            "Die aufgeführten Werte sind für die Anrechnung in der <b>Anlage KAP</b> (Zeile 41) \
             relevant und helfen, eine doppelte Besteuerung – soweit möglich – zu vermeiden."@,
            "Angerechnet wird höchstens der typische DBA-Satz von <b>15 %</b> des Bruttoertrags \
             und höchstens 25 % des steuerpflichtigen Betrags (§32d Abs. 5 EStG). Darüber hinaus \
             einbehaltene Steuer (z. B. Schweiz 35 %, Frankreich) ist nur per Erstattungsantrag im \
             Quellenstaat zurückzuholen."@,
            "Quellensteuer auf <b>Fondsausschüttungen</b> ist nach InvStG nicht anrechenbar; sie \
             wird informativ mit 0,00 EUR anrechenbar ausgewiesen."@,
        ];
        assert(strings_view(items@) =~= iv);
        crate::tax_statement::html::builder::lemma_list_items_prefix(before_list + "<ul>\n"@, iv);
        crate::tax_statement::html::builder::lemma_list_items_prefix("<ul>\n"@, iv);
    }
    assert(out@ =~= old(out)@ + withholding_intro()) by {
        reveal(withholding_intro);
    }
}

/// Each figure must fit the formatter.
pub open spec fn withholding_row_ok(r: WithholdingRow) -> bool {
    &&& small(r.gross) && small(r.gross_eur) && small(r.withheld) && small(r.withheld_eur)
    &&& small(r.creditable_eur) && eur_ok(r.withholding_rate)
}

/// At most 100 000 rows, each figure at most a trillion.
pub open spec fn withholding_ok(st: GermanTaxStatement) -> bool {
    &&& st.report.withholding@.len() <= 100_000
    &&& forall|i: int| 0 <= i < st.report.withholding@.len() ==> withholding_row_ok(#[trigger] st.report.withholding@[i])
    &&& eur_ok(st.kap_zeile_41)
}

/// The closing note: what goes to KAP line 41.
pub open spec fn withholding_note(st: GermanTaxStatement) -> Seq<char> {
    note_text("info"@, "Summe anrechenbar → Anlage KAP Zeile 41: "@ + bold(eur_str(st.kap_zeile_41)) + " EUR."@)
}

/// The section: omitted without withholding.
pub open spec fn withholding_after(p: Seq<char>, st: GermanTaxStatement) -> Seq<char> {
    if st.report.withholding@.len() == 0 {
        p
    } else {
        withholding_groups_after(p + withholding_intro(), withholding_groups(st.report.withholding@))
            + withholding_note(st) + "</section>\n"@
    }
}

fn cap_label(c: AssetCategory) -> (r: &'static str)
    ensures
        r@ == cap_text(c),
{
    match c {
        AssetCategory::Stock => "15 %",
        _ => "0 % (InvStG)",
    }
}

#[verifier::spinoff_prover]
#[verifier::rlimit(40)]
fn withholding_line(r: &WithholdingRow) -> (row: Row)
    requires
        withholding_row_ok(*r),
    ensures
        row@ == withholding_row(*r),
{
    proof {
        lemma_bounded_is_eur(r.gross, 1);
        lemma_bounded_is_eur(r.gross_eur, 1);
        lemma_bounded_is_eur(r.creditable_eur, 1);
    }
    let withheld = r.withheld.neg();
    let withheld_eur = r.withheld_eur.neg();
    proof {
        lemma_bounded_is_eur(r.withheld, 1);
        lemma_bounded_is_eur(r.withheld_eur, 1);
    }
    let mut cells: Vec<Cell> = Vec::new();
    push_cell(&mut cells, Cell::text(r.currency.as_str()));
    push_cell(&mut cells, Cell::text(date(r.date).as_str()));
    push_cell(&mut cells, Cell::text(category_label(r.category)));
    push_cell(&mut cells, Cell::text(r.isin.as_str()));
    push_cell(&mut cells, Cell::text(r.name.as_str()));
    push_cell(&mut cells, Cell::num(dec2(r.gross).as_str()));
    push_cell(&mut cells, Cell::num(eur(r.gross_eur).as_str()));
    push_cell(&mut cells, Cell::num(dec2(withheld).as_str()));
    push_cell(&mut cells, Cell::num(eur(withheld_eur).as_str()));
    push_cell(&mut cells, Cell::num(pct_observed(r.withholding_rate).as_str()));
    push_cell(&mut cells, Cell::num(cap_label(r.category)));
    push_cell(&mut cells, Cell::num(eur(r.creditable_eur).as_str()));
    let row = Row::data(cells);
    assert(row@.cells =~= withholding_row(*r).cells);
    row
}

fn withholding_keys(rows: &Vec<WithholdingRow>) -> (r: Vec<SortKey>)
    ensures
        keys_view(r@) == rows@.map_values(|x: WithholdingRow| withholding_key(x)),
{
    let mut keys: Vec<SortKey> = Vec::new();
    let mut i: usize = 0;
    while i < rows.len()
        invariant
            i <= rows@.len(),
            keys_view(keys@) == rows@.take(i as int).map_values(|x: WithholdingRow| withholding_key(x)),
        decreases rows@.len() - i,
    {
        let r = &rows[i];
        let mut texts: Vec<String> = Vec::new();
        texts.push(<String as StringExecFns>::from_str(r.country_code.as_str()));
        let day = (r.date.year() as i64) * 10000 + (r.date.month() as i64) * 100 + (r.date.day() as i64);
        let k = SortKey { rank: 0, texts, day };
        let ghost before = keys_view(keys@);
        proof {
            assert(k@.texts =~= seq![r.country_code@]);
        }
        keys.push(k);
        proof {
            assert(keys_view(keys@) =~= before.push(withholding_key(*r)));
            assert(rows@.take(i + 1).map_values(|x: WithholdingRow| withholding_key(x)) =~= before.push(
                withholding_key(rows@[i as int]),
            ));
        }
        i = i + 1;
    }
    proof {
        assert(rows@.take(i as int) =~= rows@);
    }
    keys
}

fn amount_pair(index: usize, text: String) -> (r: (usize, String))
    ensures
        r.0 == index,
        r.1@ == text@,
{
    (index, text)
}

fn write_country_heading(out: &mut String, code: &str)
    ensures
        final(out)@ == old(out)@ + h3_text(country_heading(code@)),
{
    let mut text = country_name(code);
    text.append(" (");
    if code.unicode_len() == 0 {
        text.append("–");
    } else {
        text.append(code);
    }
    text.append(")");
    h3(out, text.as_str());
    assert(out@ =~= old(out)@ + h3_text(country_heading(code@)));
}

/// The table of one country under its heading.
#[verifier::rlimit(40)]
fn write_withholding_group(out: &mut String, rows: &Vec<WithholdingRow>, g: &Vec<usize>)
    requires
        forall|i: int| 0 <= i < rows@.len() ==> withholding_row_ok(#[trigger] rows@[i]),
        g@.len() > 0,
        g@.len() <= 100_000,
        forall|q: int| 0 <= q < g@.len() ==> #[trigger] g@[q] < rows@.len(),
    ensures
        ({
            let gv = index_view(g@).map_values(|i: int| rows@[i]);
            final(out)@ == table_after(
                old(out)@ + h3_text(country_heading(gv[0].country_code@)),
                withholding_columns(),
                withholding_group_rows(gv),
            )
        }),
{
    let ghost sv = index_view(g@).map_values(|i: int| rows@[i]);
    let first = &rows[g[0]];
    assert(sv[0] == *first);
    write_country_heading(out, first.country_code.as_str());
    let mut lines: Vec<Row> = Vec::new();
    let mut gross = Decimal::zero();
    let mut withheld = Decimal::zero();
    let mut creditable = Decimal::zero();
    proof {
        crate::decimal::Decimal::lemma_spec_zero();
    }
    let mut k: usize = 0;
    while k < g.len()
        invariant
            forall|i: int| 0 <= i < rows@.len() ==> withholding_row_ok(#[trigger] rows@[i]),
            g@.len() <= 100_000,
            forall|q: int| 0 <= q < g@.len() ==> #[trigger] g@[q] < rows@.len(),
            sv == index_view(g@).map_values(|i: int| rows@[i]),
            k <= g@.len(),
            rows_view(lines@) == sv.take(k as int).map_values(|r: WithholdingRow| withholding_row(r)),
            gross == gross_total(sv.take(k as int)) && bounded(gross, k as int),
            withheld == withheld_total(sv.take(k as int)) && bounded(withheld, k as int),
            creditable == creditable_total(sv.take(k as int)) && bounded(creditable, k as int),
        decreases g@.len() - k,
    {
        let r = &rows[g[k]];
        proof {
            assert(sv.take(k + 1).drop_last() =~= sv.take(k as int));
            assert(sv.take(k + 1).last() == *r);
            assert(withholding_row_ok(rows@[g@[k as int] as int]));
            lemma_sum_step(gross, r.gross_eur, k as int);
            lemma_sum_step(withheld, r.withheld_eur, k as int);
            lemma_sum_step(creditable, r.creditable_eur, k as int);
        }
        let a1 = gross.add(&r.gross_eur);
        let a2 = withheld.add(&r.withheld_eur);
        let a3 = creditable.add(&r.creditable_eur);
        proof {
            lemma_sum_bounded(gross, r.gross_eur, a1, k as int);
            lemma_sum_bounded(withheld, r.withheld_eur, a2, k as int);
            lemma_sum_bounded(creditable, r.creditable_eur, a3, k as int);
        }
        gross = a1;
        withheld = a2;
        creditable = a3;
        let line = withholding_line(r);
        let ghost before = rows_view(lines@);
        lines.push(line);
        proof {
            assert(rows_view(lines@) =~= before.push(withholding_row(*r)));
            assert(sv.take(k + 1).map_values(|r: WithholdingRow| withholding_row(r)) =~= before.push(
                withholding_row(*r),
            ));
        }
        k = k + 1;
    }
    proof {
        assert(sv.take(k as int) =~= sv);
        lemma_bounded_is_eur(gross, k as int);
        lemma_bounded_is_eur(withheld, k as int);
        lemma_bounded_is_eur(creditable, k as int);
    }
    let withheld_neg = withheld.neg();
    let mut values: Vec<(usize, String)> = Vec::new();
    values.push(amount_pair(6, eur(gross)));
    values.push(amount_pair(8, eur(withheld_neg)));
    values.push(amount_pair(11, eur(creditable)));
    let sum = sum_row(RowKind::Total, "Gesamt", 12, &values);
    proof {
        assert(values@.map_values(|v: (usize, String)| (v.0 as int, v.1@)) =~= seq![
            (6int, eur_str(gross_total(sv))),
            (8int, eur_str(withheld_total(sv).spec_neg())),
            (11int, eur_str(creditable_total(sv))),
        ]);
    }
    lines.push(sum);
    proof {
        assert(rows_view(lines@) =~= withholding_group_rows(sv));
    }
    let mut columns: Vec<Column> = Vec::new();
    columns.push(col("Währung", Align::Left));
    columns.push(col("Datum", Align::Left));
    columns.push(col("Asset-Kategorie", Align::Left));
    columns.push(col("ISIN", Align::Left));
    columns.push(col("Name", Align::Left));
    columns.push(col("Brutto", Align::Right));
    columns.push(col("Brutto EUR", Align::Right));
    columns.push(col("QSt", Align::Right));
    columns.push(col("QSt EUR", Align::Right));
    columns.push(col("QSt-Satz", Align::Right));
    columns.push(col("Anrechnungsgrenze", Align::Right));
    columns.push(col("Anrechenbar EUR", Align::Right));
    proof {
        assert(columns_view(columns@) =~= withholding_columns());
    }
    table(out, &columns, &lines);
}

fn write_withholding_note(out: &mut String, st: &GermanTaxStatement)
    requires
        eur_ok(st.kap_zeile_41),
    ensures
        final(out)@ == old(out)@ + withholding_note(*st),
{
    let mut text = <String as StringExecFns>::from_str("Summe anrechenbar → Anlage KAP Zeile 41: ");
    text.append(b(eur(st.kap_zeile_41).as_str()).as_str());
    text.append(" EUR.");
    note(out, "info", text.as_str());
    assert(out@ =~= old(out)@ + withholding_note(*st));
}

/// Section: Quellensteuer-Übersicht. Omitted without withholding.
#[verifier::rlimit(30)]
pub fn withholding(out: &mut String, st: &GermanTaxStatement) -> (r: bool)
    requires
        withholding_ok(*st),
    ensures
        r == (st.report.withholding@.len() > 0),
        final(out)@ == withholding_after(old(out)@, *st),
{
    let rows = &st.report.withholding;
    if rows.len() == 0 {
        return false;
    }
    write_withholding_intro(out);
    let ghost start = out@;
    let keys = withholding_keys(rows);
    let order = sort_order(&keys);
    let groups = split_runs(&order, &keys);
    let ghost kv = keys_view(keys@);
    let ghost gs = withholding_groups(rows@);
    proof {
        assert(kv == rows@.map_values(|x: WithholdingRow| withholding_key(x)));
        assert(kv.len() == keys@.len());
        assert(index_view(order@) == sorted_order(kv, keys@.len()));
        assert(runs_view(groups@).map_values(|g: Seq<int>| g.map_values(|i: int| rows@[i])) == gs);
    }
    let mut k: usize = 0;
    while k < groups.len()
        invariant
            withholding_ok(*st),
            rows == &st.report.withholding,
            gs == runs_view(groups@).map_values(|g: Seq<int>| g.map_values(|i: int| rows@[i])),
            order@.len() == rows@.len(),
            forall|g: int| 0 <= g < groups@.len() ==> (#[trigger] groups@[g])@.len() > 0 && groups@[g]@.len() <= order@.len(),
            forall|g: int, q: int| 0 <= g < groups@.len() && 0 <= q < groups@[g]@.len() ==> #[trigger] groups@[g]@[q] < keys@.len(),
            keys@.len() == rows@.len(),
            k <= groups@.len(),
            out@ == withholding_groups_after(start, gs.take(k as int)),
        decreases groups@.len() - k,
    {
        let g = &groups[k];
        proof {
            assert(gs.take(k + 1).drop_last() =~= gs.take(k as int));
            assert(gs.take(k + 1).last() == index_view(g@).map_values(|i: int| rows@[i]));
        }
        write_withholding_group(out, rows, g);
        k = k + 1;
    }
    proof {
        assert(gs.take(k as int) =~= gs);
    }
    write_withholding_note(out, st);
    section_end(out);
    proof {
        assert(out@ =~= withholding_after(old(out)@, *st));
    }
    true
}

} // verus!
