//! The open positions of the German report: every purchase lot still held at the year end, per
//! asset class and security, with its acquisition cost.
use vstd::prelude::*;

use crate::date::{dotted_text, Date};
use crate::decimal::Decimal;
use crate::tax_statement::eur::eur_ok;
use crate::tax_statement::germany::report_details::OpenLotRow;
use crate::tax_statement::germany::statement::GermanTaxStatement;
use crate::tax_statement::html::builder::{
    b, bold, col, columns_view, h3, h3_text, h4, h4_text, note, note_text, num_cell, p, p_text,
    push_cell, rows_view, section_end, section_start, section_start_text, strings_view, table,
    table_after, text_cell, ul, ul_text, Align, Cell, Column, ColumnView, Row, RowKind, RowView,
};
use crate::tax_statement::html::grouping::{
    index_view, keys_view, lemma_runs_total, lemma_total_len_map, lemma_total_len_take, runs, runs_view,
    sort_order, sorted_order, split_runs, total_len, KeyView, SortKey,
};
use crate::text::{int_text, push_int};

use super::format::{category_label, category_text, date, dec2, eur, lot_source_label, lot_source_text, qty};
use super::fund_section::{
    bounded, lemma_bounded_add, lemma_bounded_is_eur, lemma_bounded_more, lemma_sum_bounded, lemma_sum_step,
    small,
};
use super::fx_section::{sum_cells, sum_row};
use super::sales_section::{category_rank, category_rank_of, id_cell, opt_text, qty_text};
use super::summary::eur_str;
use super::ReportMeta;

verus! {

/// Lots grouped by asset class, then by (name, symbol, ISIN), each group in the order given.
pub open spec fn lot_key(l: OpenLotRow) -> KeyView {
    KeyView { rank: category_rank(l.category), texts: seq![l.name@, l.symbol@, l.isin@], day: 0 }
}

pub open spec fn lot_groups(lots: Seq<OpenLotRow>) -> Seq<Seq<OpenLotRow>> {
    let keys = lots.map_values(|x: OpenLotRow| lot_key(x));
    runs(sorted_order(keys, lots.len()), keys).map_values(|g: Seq<int>| g.map_values(|i: int| lots[i]))
}

/// The purchase price with its currency; empty for lots without one.
pub open spec fn price_text(l: OpenLotRow) -> Seq<char> {
    match l.price {
        Some(p) => eur_str(p) + " "@ + l.currency@,
        None => Seq::empty(),
    }
}

pub open spec fn lot_row(l: OpenLotRow) -> RowView {
    RowView {
        kind: RowKind::Data,
        cells: seq![
            text_cell(l.name@),
            text_cell(l.isin@),
            text_cell(dotted_text(l.open_date)),
            text_cell(opt_text(l.trade_id)),
            text_cell(lot_source_text(l.source)),
            num_cell(qty_text(l.quantity)),
            num_cell(price_text(l)),
            num_cell(eur_str(l.cost_eur)),
        ],
    }
}

pub open spec fn quantity_total(s: Seq<OpenLotRow>) -> Decimal
    decreases s.len(),
{
    if s.len() == 0 {
        Decimal::spec_zero()
    } else {
        quantity_total(s.drop_last()).spec_add(s.last().quantity)
    }
}

pub open spec fn cost_total(s: Seq<OpenLotRow>) -> Decimal
    decreases s.len(),
{
    if s.len() == 0 {
        Decimal::spec_zero()
    } else {
        cost_total(s.drop_last()).spec_add(s.last().cost_eur)
    }
}

/// The lots of one security, then their subtotal.
pub open spec fn security_rows(g: Seq<OpenLotRow>) -> Seq<RowView> {
    g.map_values(|l: OpenLotRow| lot_row(l)) + seq![
        RowView {
            kind: RowKind::Subtotal,
            cells: sum_cells(
                "Gesamt – "@ + g[0].name@,
                8,
                seq![(5, qty_text(quantity_total(g))), (7, eur_str(cost_total(g)))],
            ),
        },
    ]
}

pub open spec fn category_total_row(cost: Decimal) -> RowView {
    RowView { kind: RowKind::Total, cells: sum_cells("Gesamt"@, 8, seq![(7, eur_str(cost))]) }
}

pub open spec fn lot_columns() -> Seq<ColumnView> {
    seq![
        ColumnView { title: "Name"@, align: Align::Left },
        ColumnView { title: "ISIN"@, align: Align::Left },
        ColumnView { title: "Anschaffungsdatum"@, align: Align::Left },
        ColumnView { title: "ID"@, align: Align::Left },
        ColumnView { title: "Transaktionstyp"@, align: Align::Left },
        ColumnView { title: "Menge"@, align: Align::Right },
        ColumnView { title: "Kurs"@, align: Align::Right },
        ColumnView { title: "Betrag EUR"@, align: Align::Right },
    ]
}

/// A finished table of one asset class: its rows and the class total.
pub open spec fn close_table(w: Seq<char>, rows: Seq<RowView>, cost: Decimal) -> Seq<char> {
    table_after(w, lot_columns(), rows.push(category_total_row(cost)))
}

/// After the first `gs.len()` securities: the text written, the rows of the table still open and
/// the cost of its asset class so far. A new asset class closes the open table and starts its own
/// under a heading.
pub open spec fn tables_state(p: Seq<char>, gs: Seq<Seq<OpenLotRow>>) -> (Seq<char>, Seq<RowView>, Decimal)
    decreases gs.len(),
{
    if gs.len() == 0 {
        (p, Seq::empty(), Decimal::spec_zero())
    } else {
        let prev = tables_state(p, gs.drop_last());
        let g = gs.last();
        let k = gs.len() - 1;
        let opened = if k == 0 {
            (prev.0 + h3_text(category_text(g[0].category)), Seq::<RowView>::empty(), Decimal::spec_zero())
        } else if gs[k - 1][0].category != g[0].category {
            (
                close_table(prev.0, prev.1, prev.2) + h3_text(category_text(g[0].category)),
                Seq::<RowView>::empty(),
                Decimal::spec_zero(),
            )
        } else {
            prev
        };
        (opened.0, opened.1 + security_rows(g), opened.2.spec_add(cost_total(g)))
    }
}

/// One table per asset class.
pub open spec fn lot_tables_after(p: Seq<char>, gs: Seq<Seq<OpenLotRow>>) -> Seq<char> {
    if gs.len() == 0 {
        p
    } else {
        let s = tables_state(p, gs);
        close_table(s.0, s.1, s.2)
    }
}

/// The day the positions are valid for: the report's own date, else the 31 December of the year.
pub open spec fn as_of_text(st: GermanTaxStatement) -> Seq<char> {
    match st.report.open_lots_as_of {
        Some(d) => dotted_text(d),
        None => "31.12."@ + int_text(st.year as int),
    }
}

#[verifier::opaque]
pub open spec fn open_lots_head(as_of: Seq<char>) -> Seq<char> {
    section_start_text(
        "offene-positionen"@,
        "Offene Positionen zum Jahresende – verbleibende Bestände zum "@ + as_of,
    ) + p_text(
        "Diese Tabelle zeigt alle Wertpapierpositionen, die am Ende des Steuerjahres noch im \
             Depot gehalten wurden. Sie dokumentiert, welche Bestände in das Folgejahr übertragen \
             werden – inklusive ihrer ursprünglichen steuerlichen Anschaffungskosten. Jede Zeile \
             entspricht einer noch offenen Kauf-Tranche im Wertpapier-FIFO-Stack ("@ + bold(
            "§20 Abs. 4 Satz 7 EStG"@,
        ) + ")."@,
    )
}

#[verifier::opaque]
pub open spec fn open_lots_columns_note() -> Seq<char> {
    h4_text("Spalten"@) + ul_text(
        seq![
            "<b>Anschaffungsdatum:</b> Ursprüngliches Anschaffungsdatum der Tranche."@,
            "<b>ID:</b> Transaktionsnummer der ursprünglichen Anschaffung, soweit bekannt."@,
            "<b>Transaktionstyp:</b> Kauf, Zuteilung (RSU) oder Kapitalmaßnahme."@,
            "<b>Menge:</b> Anzahl der Stücke, die zum Stichtag noch im Bestand sind."@,
            "<b>Betrag EUR:</b> Steuerlich relevante Anschaffungskosten dieser Tranche in Euro \
             (inkl. Kaufgebühren, EZB-Referenzkurs des Anschaffungstags)."@,
        ],
    ) + h4_text("Hinweis zur Vorabpauschale"@) + p_text(
        "Für Investmentfonds (ETFs) nach dem InvStG bilden diese Jahresendbestände die \
             Grundlage für die Berechnung der Vorabpauschale gemäß "@ + bold("§18 InvStG"@)
            + " im Folgejahr."@,
    )
}

pub open spec fn open_lots_intro(as_of: Seq<char>) -> Seq<char> {
    open_lots_head(as_of) + open_lots_columns_note()
}

/// The warning when the statement runs past the tax year.
pub open spec fn late_sales_note(last: Date, as_of: Seq<char>) -> Seq<char> {
    note_text(
        "warn"@,
        "Der Kontoauszug reicht bis "@ + dotted_text(last) + " und damit über das Steuerjahr hinaus. Verkäufe nach \
                 dem "@ + as_of + " sind von den Beständen bereits abgezogen."@,
    )
}

/// Each lot must fit the formatter, and the year end must be a date.
pub open spec fn lot_ok(l: OpenLotRow) -> bool {
    &&& small(l.quantity) && small(l.cost_eur)
    &&& l.price matches Some(p) ==> eur_ok(p)
}

/// At most 100 000 lots, each figure at most a trillion, a year that has a 31 December.
pub open spec fn open_lots_ok(st: GermanTaxStatement) -> bool {
    &&& st.report.open_lots@.len() <= 100_000
    &&& forall|i: int| 0 <= i < st.report.open_lots@.len() ==> lot_ok(#[trigger] st.report.open_lots@[i])
    &&& -262143 <= st.year <= 262142
}

/// The section: omitted without open lots.
pub open spec fn open_lots_after(p: Seq<char>, st: GermanTaxStatement, meta: ReportMeta) -> Seq<char> {
    if st.report.open_lots@.len() == 0 {
        p
    } else {
        let as_of = as_of_text(st);
        let last = meta.period.last();
        let head = p + open_lots_intro(as_of) + if last.key() > st.year * 10000 + 1231 {
            late_sales_note(last, as_of)
        } else {
            Seq::empty()
        };
        lot_tables_after(head, lot_groups(st.report.open_lots@)) + "</section>\n"@
    }
}

fn as_of_string(st: &GermanTaxStatement) -> (r: String)
    ensures
        r@ == as_of_text(*st),
{
    match &st.report.open_lots_as_of {
        Some(d) => date(*d),
        None => {
            let mut t = <String as StringExecFns>::from_str("31.12.");
            push_int(&mut t, st.year as i64);
            t
        },
    }
}

fn write_open_lots_head(out: &mut String, as_of: &str)
    ensures
        final(out)@ == old(out)@ + open_lots_head(as_of@),
{
    let mut title = <String as StringExecFns>::from_str("Offene Positionen zum Jahresende – verbleibende Bestände zum ");
    title.append(as_of);
    section_start(out, "offene-positionen", title.as_str());
    let mut text = <String as StringExecFns>::from_str("Diese Tabelle zeigt alle Wertpapierpositionen, die am Ende des Steuerjahres noch im \
             Depot gehalten wurden. Sie dokumentiert, welche Bestände in das Folgejahr übertragen \
             werden – inklusive ihrer ursprünglichen steuerlichen Anschaffungskosten. Jede Zeile \
             entspricht einer noch offenen Kauf-Tranche im Wertpapier-FIFO-Stack (");
    text.append(b("§20 Abs. 4 Satz 7 EStG").as_str());
    text.append(").");
    p(out, text.as_str());
    assert(out@ =~= old(out)@ + open_lots_head(as_of@)) by {
        reveal(open_lots_head);
    }
}

fn write_open_lots_columns_note(out: &mut String)
    ensures
        final(out)@ == old(out)@ + open_lots_columns_note(),
{
    h4(out, "Spalten");
    let mut items: Vec<String> = Vec::new();
    items.push(<String as StringExecFns>::from_str("<b>Anschaffungsdatum:</b> Ursprüngliches Anschaffungsdatum der Tranche."));
    items.push(<String as StringExecFns>::from_str("<b>ID:</b> Transaktionsnummer der ursprünglichen Anschaffung, soweit bekannt."));
    items.push(<String as StringExecFns>::from_str("<b>Transaktionstyp:</b> Kauf, Zuteilung (RSU) oder Kapitalmaßnahme."));
    items.push(<String as StringExecFns>::from_str("<b>Menge:</b> Anzahl der Stücke, die zum Stichtag noch im Bestand sind."));
    items.push(<String as StringExecFns>::from_str("<b>Betrag EUR:</b> Steuerlich relevante Anschaffungskosten dieser Tranche in Euro \
             (inkl. Kaufgebühren, EZB-Referenzkurs des Anschaffungstags)."));
    let ghost before_list = out@;
    ul(out, &items);
    proof {
        let iv = seq![
            "<b>Anschaffungsdatum:</b> Ursprüngliches Anschaffungsdatum der Tranche."@,
            "<b>ID:</b> Transaktionsnummer der ursprünglichen Anschaffung, soweit bekannt."@,
            "<b>Transaktionstyp:</b> Kauf, Zuteilung (RSU) oder Kapitalmaßnahme."@,
            "<b>Menge:</b> Anzahl der Stücke, die zum Stichtag noch im Bestand sind."@,
            "<b>Betrag EUR:</b> Steuerlich relevante Anschaffungskosten dieser Tranche in Euro \
             (inkl. Kaufgebühren, EZB-Referenzkurs des Anschaffungstags)."@,
        ];
        assert(strings_view(items@) =~= iv);
        crate::tax_statement::html::builder::lemma_list_items_prefix(before_list + "<ul>\n"@, iv);
        crate::tax_statement::html::builder::lemma_list_items_prefix("<ul>\n"@, iv);
    }
    h4(out, "Hinweis zur Vorabpauschale");
    let mut text = <String as StringExecFns>::from_str("Für Investmentfonds (ETFs) nach dem InvStG bilden diese Jahresendbestände die \
             Grundlage für die Berechnung der Vorabpauschale gemäß ");
    text.append(b("§18 InvStG").as_str());
    text.append(" im Folgejahr.");
    p(out, text.as_str());
    assert(out@ =~= old(out)@ + open_lots_columns_note()) by {
        reveal(open_lots_columns_note);
    }
}

fn write_open_lots_intro(out: &mut String, as_of: &str)
    ensures
        final(out)@ == old(out)@ + open_lots_intro(as_of@),
{
    write_open_lots_head(out, as_of);
    write_open_lots_columns_note(out);
    assert(out@ =~= old(out)@ + open_lots_intro(as_of@));
}

fn write_late_sales_note(out: &mut String, last: Date, as_of: &str)
    ensures
        final(out)@ == old(out)@ + late_sales_note(last, as_of@),
{
    let mut text = <String as StringExecFns>::from_str("Der Kontoauszug reicht bis ");
    text.append(date(last).as_str());
    text.append(" und damit über das Steuerjahr hinaus. Verkäufe nach \
                 dem ");
    text.append(as_of);
    text.append(" sind von den Beständen bereits abgezogen.");
    note(out, "warn", text.as_str());
    assert(out@ =~= old(out)@ + late_sales_note(last, as_of@));
}

fn price_string(l: &OpenLotRow) -> (r: String)
    requires
        lot_ok(*l),
    ensures
        r@ == price_text(*l),
{
    match l.price {
        Some(p) => {
            let mut t = dec2(p);
            t.append(" ");
            t.append(l.currency.as_str());
            t
        },
        None => String::new(),
    }
}

#[verifier::spinoff_prover]
#[verifier::rlimit(40)]
fn lot_line(l: &OpenLotRow) -> (row: Row)
    requires
        lot_ok(*l),
    ensures
        row@ == lot_row(*l),
{
    proof {
        lemma_bounded_is_eur(l.cost_eur, 1);
    }
    let mut cells: Vec<Cell> = Vec::new();
    push_cell(&mut cells, Cell::text(l.name.as_str()));
    push_cell(&mut cells, Cell::text(l.isin.as_str()));
    push_cell(&mut cells, Cell::text(date(l.open_date).as_str()));
    push_cell(&mut cells, id_cell(&l.trade_id));
    push_cell(&mut cells, Cell::text(lot_source_label(l.source)));
    push_cell(&mut cells, Cell::num(qty(l.quantity).as_str()));
    push_cell(&mut cells, Cell::num(price_string(l).as_str()));
    push_cell(&mut cells, Cell::num(eur(l.cost_eur).as_str()));
    let row = Row::data(cells);
    assert(row@.cells =~= lot_row(*l).cells);
    row
}

fn lot_keys(lots: &Vec<OpenLotRow>) -> (r: Vec<SortKey>)
    ensures
        keys_view(r@) == lots@.map_values(|x: OpenLotRow| lot_key(x)),
{
    let mut keys: Vec<SortKey> = Vec::new();
    let mut i: usize = 0;
    while i < lots.len()
        invariant
            i <= lots@.len(),
            keys_view(keys@) == lots@.take(i as int).map_values(|x: OpenLotRow| lot_key(x)),
        decreases lots@.len() - i,
    {
        let l = &lots[i];
        let mut texts: Vec<String> = Vec::new();
        texts.push(<String as StringExecFns>::from_str(l.name.as_str()));
        texts.push(<String as StringExecFns>::from_str(l.symbol.as_str()));
        texts.push(<String as StringExecFns>::from_str(l.isin.as_str()));
        let k = SortKey { rank: category_rank_of(l.category), texts, day: 0 };
        let ghost before = keys_view(keys@);
        proof {
            assert(k@.texts =~= seq![l.name@, l.symbol@, l.isin@]);
        }
        keys.push(k);
        proof {
            assert(keys_view(keys@) =~= before.push(lot_key(*l)));
            assert(lots@.take(i + 1).map_values(|x: OpenLotRow| lot_key(x)) =~= before.push(lot_key(lots@[i as int])));
        }
        i = i + 1;
    }
    proof {
        assert(lots@.take(i as int) =~= lots@);
    }
    keys
}

fn amount_pair(index: usize, text: String) -> (r: (usize, String))
    ensures
        r.0 == index,
        r.1@ == text@,
{
    (index, text)
}

/// The rows of one security appended, its cost returned.
#[verifier::rlimit(40)]
fn push_security_rows(lines: &mut Vec<Row>, lots: &Vec<OpenLotRow>, g: &Vec<usize>) -> (cost: Decimal)
    requires
        forall|i: int| 0 <= i < lots@.len() ==> lot_ok(#[trigger] lots@[i]),
        g@.len() > 0,
        g@.len() <= 100_000,
        forall|q: int| 0 <= q < g@.len() ==> #[trigger] g@[q] < lots@.len(),
    ensures
        ({
            let gv = index_view(g@).map_values(|i: int| lots@[i]);
            &&& rows_view(final(lines)@) == rows_view(old(lines)@) + security_rows(gv)
            &&& cost == cost_total(gv)
            &&& bounded(cost, g@.len() as int)
        }),
{
    let ghost sv = index_view(g@).map_values(|i: int| lots@[i]);
    let ghost start = rows_view(lines@);
    let first = &lots[g[0]];
    assert(sv[0] == *first);
    let mut quantity = Decimal::zero();
    let mut cost = Decimal::zero();
    proof {
        crate::decimal::Decimal::lemma_spec_zero();
    }
    let mut k: usize = 0;
    while k < g.len()
        invariant
            forall|i: int| 0 <= i < lots@.len() ==> lot_ok(#[trigger] lots@[i]),
            g@.len() <= 100_000,
            forall|q: int| 0 <= q < g@.len() ==> #[trigger] g@[q] < lots@.len(),
            sv == index_view(g@).map_values(|i: int| lots@[i]),
            k <= g@.len(),
            rows_view(lines@) == start + sv.take(k as int).map_values(|l: OpenLotRow| lot_row(l)),
            quantity == quantity_total(sv.take(k as int)) && bounded(quantity, k as int),
            cost == cost_total(sv.take(k as int)) && bounded(cost, k as int),
        decreases g@.len() - k,
    {
        let l = &lots[g[k]];
        proof {
            assert(sv.take(k + 1).drop_last() =~= sv.take(k as int));
            assert(sv.take(k + 1).last() == *l);
            assert(lot_ok(lots@[g@[k as int] as int]));
            lemma_sum_step(quantity, l.quantity, k as int);
            lemma_sum_step(cost, l.cost_eur, k as int);
        }
        let a1 = quantity.add(&l.quantity);
        let a2 = cost.add(&l.cost_eur);
        proof {
            lemma_sum_bounded(quantity, l.quantity, a1, k as int);
            lemma_sum_bounded(cost, l.cost_eur, a2, k as int);
        }
        quantity = a1;
        cost = a2;
        let line = lot_line(l);
        let ghost before = rows_view(lines@);
        lines.push(line);
        proof {
            assert(rows_view(lines@) =~= before.push(lot_row(*l)));
            assert(start + sv.take(k + 1).map_values(|l: OpenLotRow| lot_row(l)) =~= before.push(lot_row(*l)));
        }
        k = k + 1;
    }
    proof {
        assert(sv.take(k as int) =~= sv);
        lemma_bounded_is_eur(cost, k as int);
    }
    let mut label = <String as StringExecFns>::from_str("Gesamt – ");
    label.append(first.name.as_str());
    let mut values: Vec<(usize, String)> = Vec::new();
    values.push(amount_pair(5, qty(quantity)));
    values.push(amount_pair(7, eur(cost)));
    let sum = sum_row(RowKind::Subtotal, label.as_str(), 8, &values);
    proof {
        assert(values@.map_values(|v: (usize, String)| (v.0 as int, v.1@)) =~= seq![
            (5int, qty_text(quantity_total(sv))),
            (7int, eur_str(cost_total(sv))),
        ]);
    }
    let ghost before = rows_view(lines@);
    lines.push(sum);
    proof {
        assert(label@ =~= "Gesamt – "@ + sv[0].name@);
        assert(rows_view(lines@) =~= before.push(sum@));
        assert(rows_view(lines@) =~= start + security_rows(sv));
    }
    cost
}

fn lot_column_list() -> (r: Vec<Column>)
    ensures
        columns_view(r@) == lot_columns(),
{
    let mut columns: Vec<Column> = Vec::new();
    columns.push(col("Name", Align::Left));
    columns.push(col("ISIN", Align::Left));
    columns.push(col("Anschaffungsdatum", Align::Left));
    columns.push(col("ID", Align::Left));
    columns.push(col("Transaktionstyp", Align::Left));
    columns.push(col("Menge", Align::Right));
    columns.push(col("Kurs", Align::Right));
    columns.push(col("Betrag EUR", Align::Right));
    assert(columns_view(columns@) =~= lot_columns());
    columns
}

/// Close the open table: its class total, then the table itself.
fn write_lot_table(out: &mut String, lines: &mut Vec<Row>, cost: Decimal, Ghost(k): Ghost<int>)
    requires
        0 <= k <= 200_000,
        bounded(cost, k),
    ensures
        final(out)@ == close_table(old(out)@, rows_view(old(lines)@), cost),
{
    proof {
        lemma_bounded_is_eur(cost, k);
    }
    let mut values: Vec<(usize, String)> = Vec::new();
    values.push(amount_pair(7, eur(cost)));
    let total = sum_row(RowKind::Total, "Gesamt", 8, &values);
    proof {
        assert(values@.map_values(|v: (usize, String)| (v.0 as int, v.1@)) =~= seq![(7int, eur_str(cost))]);
    }
    let ghost before = rows_view(lines@);
    lines.push(total);
    assert(rows_view(lines@) =~= before.push(category_total_row(cost)));
    let columns = lot_column_list();
    table(out, &columns, lines);
}

/// Every table of the section, one per asset class.
#[verifier::rlimit(60)]
fn write_lot_tables(out: &mut String, lots: &Vec<OpenLotRow>)
    requires
        0 < lots@.len() <= 100_000,
        forall|i: int| 0 <= i < lots@.len() ==> lot_ok(#[trigger] lots@[i]),
    ensures
        final(out)@ == lot_tables_after(old(out)@, lot_groups(lots@)),
{
    let keys = lot_keys(lots);
    let order = sort_order(&keys);
    let groups = split_runs(&order, &keys);
    let ghost kv = keys_view(keys@);
    let ghost gs = lot_groups(lots@);
    let ghost start = out@;
    proof {
        assert(kv == lots@.map_values(|x: OpenLotRow| lot_key(x)));
        assert(kv.len() == keys@.len());
        assert(index_view(order@) == sorted_order(kv, keys@.len()));
        let rs = runs(sorted_order(kv, lots@.len()), kv);
        assert(runs_view(groups@).map_values(|g: Seq<int>| g.map_values(|i: int| lots@[i])) == gs);
        lemma_runs_total(sorted_order(kv, lots@.len()), kv);
        assert(sorted_order(kv, lots@.len()).len() == lots@.len());
        lemma_total_len_map(rs, gs);
    }
    let mut lines: Vec<Row> = Vec::new();
    let mut cost = Decimal::zero();
    proof {
        crate::decimal::Decimal::lemma_spec_zero();
    }
    let mut k: usize = 0;
    while k < groups.len()
        invariant
            forall|i: int| 0 <= i < lots@.len() ==> lot_ok(#[trigger] lots@[i]),
            lots@.len() <= 100_000,
            gs == runs_view(groups@).map_values(|g: Seq<int>| g.map_values(|i: int| lots@[i])),
            total_len(gs) == lots@.len(),
            order@.len() == lots@.len(),
            forall|g: int| 0 <= g < groups@.len() ==> (#[trigger] groups@[g])@.len() > 0 && groups@[g]@.len() <= order@.len(),
            forall|g: int, q: int| 0 <= g < groups@.len() && 0 <= q < groups@[g]@.len() ==> #[trigger] groups@[g]@[q] < keys@.len(),
            keys@.len() == lots@.len(),
            k <= groups@.len(),
            (out@, rows_view(lines@), cost) == tables_state(start, gs.take(k as int)),
            bounded(cost, total_len(gs.take(k as int)) + k),
            k <= total_len(gs.take(k as int)) <= lots@.len(),
        decreases groups@.len() - k,
    {
        let g = &groups[k];
        let first = &lots[g[0]];
        let ghost gv = index_view(g@).map_values(|i: int| lots@[i]);
        proof {
            assert(gs.take(k + 1).drop_last() =~= gs.take(k as int));
            assert(gs.take(k + 1).last() == gv);
            assert(gs[k as int] == gv);
            assert(gv[0] == *first);
            lemma_total_len_take(gs, k as int);
            lemma_total_len_take(gs, k + 1);
            assert(total_len(gs.take(k as int)) + gv.len() <= lots@.len());
            assert(gv.len() == g@.len());
            assert(gv.len() > 0);
        }
        let fresh = if k == 0 {
            true
        } else {
            let pg = &groups[k - 1];
            let prev = &lots[pg[0]];
            proof {
                assert(gs.take(k + 1)[k - 1] == gs[k - 1]);
                assert(gs[k - 1][0] == *prev);
            }
            !(prev.category == first.category)
        };
        if fresh {
            if k > 0 {
                proof {
                    lemma_bounded_more(cost, total_len(gs.take(k as int)) + k, 200_000);
                }
                write_lot_table(out, &mut lines, cost, Ghost(200_000));
            }
            h3(out, category_label(first.category));
            lines = Vec::new();
            cost = Decimal::zero();
            proof {
                crate::decimal::Decimal::lemma_spec_zero();
                lemma_bounded_more(cost, 0, total_len(gs.take(k as int)) + k);
            }
            assert(rows_view(lines@) =~= Seq::<RowView>::empty());
        }
        let ghost before_out = out@;
        proof {
            assert(before_out == tables_state(start, gs.take(k + 1)).0) by {
                assert(out@ =~= tables_state(start, gs.take(k + 1)).0);
            }
        }
        let c = push_security_rows(&mut lines, lots, g);
        proof {
            lemma_bounded_add(cost, total_len(gs.take(k as int)) + k, c, g@.len() as int);
        }
        cost = cost.add(&c);
        proof {
            assert(rows_view(lines@) == tables_state(start, gs.take(k + 1)).1);
        }
        k = k + 1;
    }
    proof {
        assert(gs.take(k as int) =~= gs);
        assert(gs.len() > 0);
        lemma_bounded_more(cost, total_len(gs) + k, 200_000);
    }
    write_lot_table(out, &mut lines, cost, Ghost(200_000));
}

/// Section: Offene Positionen zum Jahresende. Omitted without open lots.
pub fn open_lots(out: &mut String, st: &GermanTaxStatement, meta: &ReportMeta) -> (r: bool)
    requires
        open_lots_ok(*st),
    ensures
        r == (st.report.open_lots@.len() > 0),
        final(out)@ == open_lots_after(old(out)@, *st, *meta),
{
    let lots = &st.report.open_lots;
    if lots.len() == 0 {
        return false;
    }
    let as_of = as_of_string(st);
    write_open_lots_intro(out, as_of.as_str());
    let last = meta.period.last_date();
    match Date::from_ymd_opt(st.year, 12, 31) {
        Some(year_end) => {
            if year_end.before(&last) {
                write_late_sales_note(out, last, as_of.as_str());
            }
        },
        None => {},
    }
    let ghost head = out@;
    write_lot_tables(out, lots);
    section_end(out);
    proof {
        assert(head == old(out)@ + open_lots_intro(as_of_text(*st)) + if last.key() > st.year * 10000 + 1231 {
            late_sales_note(last, as_of_text(*st))
        } else {
            Seq::empty()
        }) by {
            assert(old(out)@ + open_lots_intro(as_of_text(*st)) + Seq::<char>::empty() =~= old(out)@ + open_lots_intro(as_of_text(*st)));
        }
    }
    true
}

} // verus!
