//! The FIFO worksheets of the German report: every sale of the year per asset class and
//! security, with the purchase lots it consumed.
use vstd::prelude::*;

use crate::date::{dotted_text, Date};
use crate::decimal::Decimal;
use crate::tax_statement::eur::eur_ok;
use crate::tax_statement::germany::report_details::{AssetCategory, LotSource, SaleLotRow, SaleWorksheet};
use crate::tax_statement::germany::statement::GermanTaxStatement;
use crate::tax_statement::html::builder::{
    b, bold, cells_view, col, columns_view, empty_cell, escape_html, h3, h3_text, h4, h4_text, num_cell,
    p, p_text, push_cell, rows_view, section_end, section_start, section_start_text, strings_view, table,
    table_after, text_cell, ul, ul_text, Align, Cell, CellView, Column, ColumnView, Row, RowKind,
    RowView,
};
use crate::tax_statement::html::format::punctuated;
use crate::tax_statement::html::grouping::{
    group_order, index_view, keys_view, runs, runs_view, sort_order, sorted_order, split_runs, KeyView,
    SortKey,
};
use crate::text::int_text;

use super::format::{category_label, category_text, date, eur, lot_source_label, lot_source_text, qty};
use super::fund_section::small;
use super::fx_section::{sum_cells, sum_row};
use super::summary::eur_str;

verus! {

/// The security heading: name, then ISIN (a dash when unknown) and symbol.
pub open spec fn security_heading_text(name: Seq<char>, isin: Seq<char>, symbol: Seq<char>) -> Seq<char> {
    h4_text(name) + "<p class=\"security-id\">ISIN: "@ + bold(
        if isin.len() == 0 {
            "–"@
        } else {
            isin
        },
    ) + " | Symbol: "@ + bold(symbol) + "</p>\n"@
}

pub fn security_heading(out: &mut String, name: &str, isin: &str, symbol: &str)
    ensures
        final(out)@ == old(out)@ + security_heading_text(name@, isin@, symbol@),
{
    h4(out, name);
    out.append("<p class=\"security-id\">ISIN: ");
    if isin.unicode_len() == 0 {
        let dash = <String as StringExecFns>::from_str("–");
        proof {
            reveal_strlit("–");
        }
        out.append(b(dash.as_str()).as_str());
    } else {
        out.append(b(isin).as_str());
    }
    out.append(" | Symbol: ");
    out.append(b(symbol).as_str());
    out.append("</p>\n");
    assert(out@ =~= old(out)@ + security_heading_text(name@, isin@, symbol@));
}

pub open spec fn opt_text(o: Option<String>) -> Seq<char> {
    match o {
        Some(s) => s@,
        None => Seq::empty(),
    }
}

/// A cell with an optional id; empty without one.
pub fn id_cell(id: &Option<String>) -> (r: Cell)
    ensures
        r@ == text_cell(opt_text(*id)),
{
    match id {
        Some(s) => Cell::text(s.as_str()),
        None => Cell::text(String::new().as_str()),
    }
}

/// The remarks on a lot: Altbestand before 2009, grant and corporate-action lots.
pub open spec fn lot_notes_parts(lot: SaleLotRow) -> Seq<Seq<char>> {
    (if lot.open_date.key() < 20090101 {
        seq!["Altbestand (vor 2009): Ergebnis steuerfrei"@]
    } else {
        seq![]
    }) + match lot.source {
        LotSource::Trade => seq![],
        LotSource::Grant => seq!["Zuteilung: Anschaffungskosten = Marktwert bei Vesting"@],
        LotSource::CorporateAction => seq!["Kapitalmaßnahme"@],
    }
}

pub open spec fn lot_notes_text(lot: SaleLotRow) -> Seq<char> {
    super::notes::joined(lot_notes_parts(lot), "; "@)
}

fn lot_notes(lot: &SaleLotRow) -> (r: String)
    ensures
        r@ == lot_notes_text(*lot),
{
    let mut parts: Vec<String> = Vec::new();
    let _month = lot.open_date.month();
    let _day = lot.open_date.day();
    if lot.open_date.year() < 2009 {
        parts.push(<String as StringExecFns>::from_str("Altbestand (vor 2009): Ergebnis steuerfrei"));
    }
    let ghost first = strings_view(parts@);
    assert(first =~= (if lot.open_date.key() < 20090101 {
        seq!["Altbestand (vor 2009): Ergebnis steuerfrei"@]
    } else {
        Seq::<Seq<char>>::empty()
    }));
    match lot.source {
        LotSource::Trade => {},
        LotSource::Grant => {
            parts.push(<String as StringExecFns>::from_str("Zuteilung: Anschaffungskosten = Marktwert bei Vesting"));
        },
        LotSource::CorporateAction => {
            parts.push(<String as StringExecFns>::from_str("Kapitalmaßnahme"));
        },
    }
    assert(strings_view(parts@) =~= lot_notes_parts(*lot));
    super::notes::join(&parts, "; ")
}

pub open spec fn qty_text(x: Decimal) -> Seq<char> {
    punctuated(x.spec_round_dp(4).spec_normalized().text())
}

/// The notes of a single-lot sale: the lot's remarks, then the sale's own note.
pub open spec fn single_notes(lot: SaleLotRow, sale: SaleWorksheet) -> Seq<char> {
    let l = lot_notes_text(lot);
    let n = opt_text(sale.notes);
    if n.len() == 0 {
        l
    } else if l.len() == 0 {
        n
    } else {
        l + "; "@ + n
    }
}

pub open spec fn lot_row(lot: SaleLotRow) -> RowView {
    RowView {
        kind: RowKind::Lot,
        cells: seq![
            empty_cell(),
            empty_cell(),
            text_cell("davon Tranche"@),
            empty_cell(),
            text_cell(lot_source_text(lot.source)),
            num_cell(qty_text(lot.quantity.spec_neg())),
            num_cell(eur_str(lot.proceeds_eur)),
            text_cell(dotted_text(lot.open_date)),
            text_cell(opt_text(lot.open_trade_id)),
            num_cell(eur_str(lot.cost_eur)),
            num_cell(eur_str(lot.gain_loss_eur)),
            num_cell(int_text(lot.holding_days as int)),
            text_cell(lot_notes_text(lot)),
        ],
    }
}

/// The lines of one sale: one line when it consumed exactly one lot; otherwise the sale with the
/// number of lots, then one line per lot.
pub open spec fn sale_rows(sale: SaleWorksheet) -> Seq<RowView> {
    let lots = sale.lots@;
    if lots.len() == 1 {
        let lot = lots[0];
        seq![
            RowView {
                kind: RowKind::Data,
                cells: seq![
                    text_cell(dotted_text(sale.sale_date)),
                    text_cell(opt_text(sale.trade_id)),
                    text_cell("Veräußerung"@),
                    text_cell("Close"@),
                    text_cell("Verkauf"@),
                    num_cell(qty_text(sale.quantity.spec_neg())),
                    num_cell(eur_str(sale.proceeds_eur)),
                    text_cell(dotted_text(lot.open_date)),
                    text_cell(opt_text(lot.open_trade_id)),
                    num_cell(eur_str(lot.cost_eur)),
                    num_cell(eur_str(sale.gain_loss_eur)),
                    num_cell(int_text(lot.holding_days as int)),
                    text_cell(single_notes(lot, sale)),
                ],
            },
        ]
    } else {
        seq![
            RowView {
                kind: RowKind::Data,
                cells: seq![
                    text_cell(dotted_text(sale.sale_date)),
                    text_cell(opt_text(sale.trade_id)),
                    text_cell("Veräußerung"@),
                    text_cell("Close"@),
                    text_cell("Verkauf"@),
                    num_cell(qty_text(sale.quantity.spec_neg())),
                    num_cell(eur_str(sale.proceeds_eur)),
                    text_cell(int_text(lots.len() as int) + " Tranchen"@),
                    empty_cell(),
                    num_cell(eur_str(sale.cost_basis_eur)),
                    num_cell(eur_str(sale.gain_loss_eur)),
                    empty_cell(),
                    text_cell(opt_text(sale.notes)),
                ],
            },
        ] + lots.map_values(|l: SaleLotRow| lot_row(l))
    }
}

pub open spec fn lot_ok(l: SaleLotRow) -> bool {
    eur_ok(l.proceeds_eur) && eur_ok(l.cost_eur) && eur_ok(l.gain_loss_eur)
}

pub open spec fn sale_ok(s: SaleWorksheet) -> bool {
    &&& small(s.quantity) && small(s.proceeds_eur) && small(s.cost_basis_eur) && small(s.gain_loss_eur)
    &&& s.lots@.len() < i64::MAX
    &&& forall|j: int| 0 <= j < s.lots@.len() ==> lot_ok(#[trigger] s.lots@[j])
}

fn lot_line(lot: &SaleLotRow) -> (r: Row)
    requires
        lot_ok(*lot),
    ensures
        r@ == lot_row(*lot),
{
    let mut cells: Vec<Cell> = Vec::new();
    push_cell(&mut cells, Cell::empty());
    push_cell(&mut cells, Cell::empty());
    push_cell(&mut cells, Cell::text("davon Tranche"));
    push_cell(&mut cells, Cell::empty());
    push_cell(&mut cells, Cell::text(lot_source_label(lot.source)));
    push_cell(&mut cells, Cell::num(qty(lot.quantity.neg()).as_str()));
    push_cell(&mut cells, Cell::num(eur(lot.proceeds_eur).as_str()));
    push_cell(&mut cells, Cell::text(date(lot.open_date).as_str()));
    push_cell(&mut cells, id_cell(&lot.open_trade_id));
    push_cell(&mut cells, Cell::num(eur(lot.cost_eur).as_str()));
    push_cell(&mut cells, Cell::num(eur(lot.gain_loss_eur).as_str()));
    push_cell(&mut cells, Cell::num(crate::tax_statement::html::format::days(lot.holding_days).as_str()));
    push_cell(&mut cells, Cell::text(lot_notes(lot).as_str()));
    let r = Row::lot(cells);
    assert(r@.cells =~= lot_row(*lot).cells);
    r
}

fn single_notes_text(lot: &SaleLotRow, sale: &SaleWorksheet) -> (r: String)
    ensures
        r@ == single_notes(*lot, *sale),
{
    let mut notes = lot_notes(lot);
    match &sale.notes {
        Some(n) => {
            if n.as_str().unicode_len() > 0 {
                if notes.as_str().unicode_len() > 0 {
                    notes.append("; ");
                }
                notes.append(n.as_str());
            }
        },
        None => {},
    }
    notes
}

fn single_sale_line(sale: &SaleWorksheet) -> (r: Row)
    requires
        sale_ok(*sale),
        sale.lots@.len() == 1,
    ensures
        r@ == sale_rows(*sale)[0],
{
    let lot = &sale.lots[0];
    assert(lot_ok(sale.lots@[0]));
    let mut cells: Vec<Cell> = Vec::new();
    push_cell(&mut cells, Cell::text(date(sale.sale_date).as_str()));
    push_cell(&mut cells, id_cell(&sale.trade_id));
    push_cell(&mut cells, Cell::text("Veräußerung"));
    push_cell(&mut cells, Cell::text("Close"));
    push_cell(&mut cells, Cell::text("Verkauf"));
    push_cell(&mut cells, Cell::num(qty(sale.quantity.neg()).as_str()));
    push_cell(&mut cells, Cell::num(eur(sale.proceeds_eur).as_str()));
    push_cell(&mut cells, Cell::text(date(lot.open_date).as_str()));
    push_cell(&mut cells, id_cell(&lot.open_trade_id));
    push_cell(&mut cells, Cell::num(eur(lot.cost_eur).as_str()));
    push_cell(&mut cells, Cell::num(eur(sale.gain_loss_eur).as_str()));
    push_cell(&mut cells, Cell::num(crate::tax_statement::html::format::days(lot.holding_days).as_str()));
    push_cell(&mut cells, Cell::text(single_notes_text(lot, sale).as_str()));
    let r = Row::data(cells);
    assert(r@.cells =~= sale_rows(*sale)[0].cells);
    r
}

fn multi_sale_line(sale: &SaleWorksheet) -> (r: Row)
    requires
        sale_ok(*sale),
        sale.lots@.len() != 1,
    ensures
        r@ == sale_rows(*sale)[0],
{
    let mut cells: Vec<Cell> = Vec::new();
    push_cell(&mut cells, Cell::text(date(sale.sale_date).as_str()));
    push_cell(&mut cells, id_cell(&sale.trade_id));
    push_cell(&mut cells, Cell::text("Veräußerung"));
    push_cell(&mut cells, Cell::text("Close"));
    push_cell(&mut cells, Cell::text("Verkauf"));
    push_cell(&mut cells, Cell::num(qty(sale.quantity.neg()).as_str()));
    push_cell(&mut cells, Cell::num(eur(sale.proceeds_eur).as_str()));
    let mut count = String::new();
    crate::text::push_int(&mut count, sale.lots.len() as i64);
    count.append(" Tranchen");
    push_cell(&mut cells, Cell::text(count.as_str()));
    push_cell(&mut cells, Cell::empty());
    push_cell(&mut cells, Cell::num(eur(sale.cost_basis_eur).as_str()));
    push_cell(&mut cells, Cell::num(eur(sale.gain_loss_eur).as_str()));
    push_cell(&mut cells, Cell::empty());
    let notes = match &sale.notes {
        Some(n) => <String as StringExecFns>::from_str(n.as_str()),
        None => String::new(),
    };
    push_cell(&mut cells, Cell::text(notes.as_str()));
    let r = Row::data(cells);
    assert(r@.cells =~= sale_rows(*sale)[0].cells);
    r
}

/// Append the lines of one sale.
fn push_sale_rows(rows: &mut Vec<Row>, sale: &SaleWorksheet)
    requires
        sale_ok(*sale),
    ensures
        rows_view(final(rows)@) == rows_view(old(rows)@) + sale_rows(*sale),
{
    let ghost start = rows_view(rows@);
    if sale.lots.len() == 1 {
        rows.push(single_sale_line(sale));
        assert(rows_view(rows@) =~= start + sale_rows(*sale));
        return;
    }
    rows.push(multi_sale_line(sale));
    let ghost after_head = rows_view(rows@);
    let mut j: usize = 0;
    while j < sale.lots.len()
        invariant
            sale_ok(*sale),
            j <= sale.lots@.len(),
            rows_view(rows@) == after_head + sale.lots@.take(j as int).map_values(|l: SaleLotRow| lot_row(l)),
        decreases sale.lots@.len() - j,
    {
        assert(lot_ok(sale.lots@[j as int]));
        let line = lot_line(&sale.lots[j]);
        let ghost before = rows_view(rows@);
        rows.push(line);
        proof {
            assert(rows_view(rows@) =~= before.push(lot_row(sale.lots@[j as int])));
            assert(sale.lots@.take(j + 1).map_values(|l: SaleLotRow| lot_row(l)) =~= sale.lots@.take(j as int).map_values(|l: SaleLotRow| lot_row(l)).push(lot_row(sale.lots@[j as int])));
        }
        j = j + 1;
    }
    proof {
        assert(sale.lots@.take(j as int) =~= sale.lots@);
        assert(rows_view(rows@) =~= start + sale_rows(*sale));
    }
}

pub open spec fn flat_sales(s: Seq<SaleWorksheet>) -> Seq<RowView>
    decreases s.len(),
{
    if s.len() == 0 {
        seq![]
    } else {
        flat_sales(s.drop_last()) + sale_rows(s.last())
    }
}

pub open spec fn sum_quantity(s: Seq<SaleWorksheet>) -> Decimal
    decreases s.len(),
{
    if s.len() == 0 {
        Decimal::spec_zero()
    } else {
        sum_quantity(s.drop_last()).spec_add(s.last().quantity)
    }
}

pub open spec fn sum_proceeds(s: Seq<SaleWorksheet>) -> Decimal
    decreases s.len(),
{
    if s.len() == 0 {
        Decimal::spec_zero()
    } else {
        sum_proceeds(s.drop_last()).spec_add(s.last().proceeds_eur)
    }
}

pub open spec fn sum_cost(s: Seq<SaleWorksheet>) -> Decimal
    decreases s.len(),
{
    if s.len() == 0 {
        Decimal::spec_zero()
    } else {
        sum_cost(s.drop_last()).spec_add(s.last().cost_basis_eur)
    }
}

pub open spec fn sum_result(s: Seq<SaleWorksheet>) -> Decimal
    decreases s.len(),
{
    if s.len() == 0 {
        Decimal::spec_zero()
    } else {
        sum_result(s.drop_last()).spec_add(s.last().gain_loss_eur)
    }
}

/// The lines of one security: its sales by date, then their subtotal.
pub open spec fn sales_group_rows(g: Seq<SaleWorksheet>) -> Seq<RowView> {
    flat_sales(g) + seq![
        RowView {
            kind: RowKind::Subtotal,
            cells: sum_cells(
                "Gesamt – Veräußerungen"@,
                13,
                seq![
                    (5, qty_text(sum_quantity(g).spec_neg())),
                    (6, eur_str(sum_proceeds(g))),
                    (9, eur_str(sum_cost(g))),
                    (10, eur_str(sum_result(g))),
                ],
            ),
        },
    ]
}

pub open spec fn sales_columns() -> Seq<ColumnView> {
    seq![
        ColumnView { title: "Datum"@, align: Align::Left },
        ColumnView { title: "ID"@, align: Align::Left },
        ColumnView { title: "Aktivität"@, align: Align::Left },
        ColumnView { title: "O/C"@, align: Align::Left },
        ColumnView { title: "Transaktionstyp"@, align: Align::Left },
        ColumnView { title: "Menge"@, align: Align::Right },
        ColumnView { title: "Betrag EUR"@, align: Align::Right },
        ColumnView { title: "Eröffnungsdatum"@, align: Align::Left },
        ColumnView { title: "Eröffnungs-ID"@, align: Align::Left },
        ColumnView { title: "Eröffnungswert (EUR)"@, align: Align::Right },
        ColumnView { title: "G/V EUR"@, align: Align::Right },
        ColumnView { title: "Haltedauer (d)"@, align: Align::Right },
        ColumnView { title: "Hinweise"@, align: Align::Left },
    ]
}

/// The asset classes in the order the report shows them.
pub open spec fn category_rank(c: AssetCategory) -> int {
    match c {
        AssetCategory::Stock => 0,
        AssetCategory::EquityFund => 1,
        AssetCategory::MixedFund => 2,
        AssetCategory::OtherFund => 3,
    }
}

pub fn category_rank_of(c: AssetCategory) -> (r: u32)
    ensures
        r as int == category_rank(c),
{
    match c {
        AssetCategory::Stock => 0,
        AssetCategory::EquityFund => 1,
        AssetCategory::MixedFund => 2,
        AssetCategory::OtherFund => 3,
    }
}

/// Sales grouped by asset class, then by (name, symbol, ISIN), each group by sale date.
pub open spec fn sale_key(s: SaleWorksheet) -> KeyView {
    KeyView { rank: category_rank(s.category), texts: seq![s.name@, s.symbol@, s.isin@], day: s.sale_date.key() }
}

pub open spec fn sales_groups(sales: Seq<SaleWorksheet>) -> Seq<Seq<SaleWorksheet>> {
    let keys = sales.map_values(|x: SaleWorksheet| sale_key(x));
    runs(sorted_order(keys, sales.len()), keys).map_values(|g: Seq<int>| g.map_values(|i: int| sales[i]))
}

/// Each security's table under its heading, an asset-class heading before the first security
/// of each class.
pub open spec fn sales_groups_after(p: Seq<char>, gs: Seq<Seq<SaleWorksheet>>) -> Seq<char>
    decreases gs.len(),
{
    if gs.len() == 0 {
        p
    } else {
        let g = gs.last();
        let head = if gs.len() == 1 || gs[gs.len() - 2][0].category != g[0].category {
            h3_text(category_text(g[0].category))
        } else {
            Seq::empty()
        };
        table_after(
            sales_groups_after(p, gs.drop_last()) + head + security_heading_text(g[0].name@, g[0].isin@, g[0].symbol@),
            sales_columns(),
            sales_group_rows(g),
        )
    }
}

#[verifier::opaque]
pub open spec fn sales_intro_logic() -> Seq<char> {
    section_start_text("wertpapiergeschaefte"@, "Gewinne und Verluste aus Wertpapiergeschäften"@) + p_text(
        "Diese Tabelle zeigt die nach dem FIFO-Prinzip („First In – First Out“) ermittelten \
             "@ + bold("realisierten"@) + " Gewinne und Verluste des Steuerjahres über alle steuerlich relevanten \
             Wertpapierverkäufe. Beträge werden in EUR zum EZB-Referenzkurs des jeweiligen \
             Valutatags umgerechnet; Kommissionen mindern Anschaffungskosten bzw. Erlöse. \
             Quellensteuern werden separat ausgewiesen und nicht den Anschaffungskosten \
             zugerechnet."@,
    ) + h4_text("Berechnungslogik in Kürze"@) + ul_text(
        seq![
            "<b>Anschaffung:</b> Kauf/Zuteilung mit Anschaffungskosten in EUR (Kaufpreis + \
             Kommissionen) wird in den FIFO-Stack aufgenommen."@,
            "<b>Veräußerung:</b> Verkauf → Veräußerungswert in EUR (Verkaufspreis − Kommissionen)."@,
            "<b>FIFO-Zuordnung:</b> Veräußerte Stücke werden den ältesten offenen Anschaffungen \
             zugeordnet (ggf. auf mehrere Tranchen aufgeteilt; der Erlös wird anteilig verteilt)."@,
            "<b>Ergebnis:</b> Gewinn/Verlust = Veräußerungswert − Anschaffungskosten. Nicht \
             veräußerte Restbestände verbleiben im FIFO-Stack (siehe Offene Positionen)."@,
        ],
    )
}

#[verifier::opaque]
pub open spec fn sales_intro_notes() -> Seq<char> {
    h4_text("Besonderheiten"@) + ul_text(
        seq![
            "<b>Zuteilungen (RSU):</b> Anschaffungskosten = Marktwert bei Vesting (bereits als \
             Arbeitslohn versteuert)."@,
            "<b>Altbestand:</b> Vor 2009 angeschaffte Tranchen sind steuerfrei; ihr Ergebnis wird \
             ausgewiesen, aber nicht in die Formularwerte übernommen."@,
            "<b>Verlustverrechnung</b> gemäß deutscher Regelung (Aktien-Topf vs. allgemeiner Topf) \
             erfolgt außerhalb dieser Tabelle."@,
        ],
    )
}

pub open spec fn sales_intro() -> Seq<char> {
    sales_intro_logic() + sales_intro_notes()
}

fn write_sales_logic(out: &mut String)
    ensures
        final(out)@ == old(out)@ + sales_intro_logic(),
{
    section_start(out, "wertpapiergeschaefte", "Gewinne und Verluste aus Wertpapiergeschäften");
    let mut text = <String as StringExecFns>::from_str("Diese Tabelle zeigt die nach dem FIFO-Prinzip („First In – First Out“) ermittelten \
             ");
    text.append(b("realisierten").as_str());
    text.append(" Gewinne und Verluste des Steuerjahres über alle steuerlich relevanten \
             Wertpapierverkäufe. Beträge werden in EUR zum EZB-Referenzkurs des jeweiligen \
             Valutatags umgerechnet; Kommissionen mindern Anschaffungskosten bzw. Erlöse. \
             Quellensteuern werden separat ausgewiesen und nicht den Anschaffungskosten \
             zugerechnet.");
    p(out, text.as_str());
    h4(out, "Berechnungslogik in Kürze");
    let mut items: Vec<String> = Vec::new();
    items.push(<String as StringExecFns>::from_str("<b>Anschaffung:</b> Kauf/Zuteilung mit Anschaffungskosten in EUR (Kaufpreis + \
             Kommissionen) wird in den FIFO-Stack aufgenommen."));
    items.push(<String as StringExecFns>::from_str("<b>Veräußerung:</b> Verkauf → Veräußerungswert in EUR (Verkaufspreis − Kommissionen)."));
    items.push(<String as StringExecFns>::from_str("<b>FIFO-Zuordnung:</b> Veräußerte Stücke werden den ältesten offenen Anschaffungen \
             zugeordnet (ggf. auf mehrere Tranchen aufgeteilt; der Erlös wird anteilig verteilt)."));
    items.push(<String as StringExecFns>::from_str("<b>Ergebnis:</b> Gewinn/Verlust = Veräußerungswert − Anschaffungskosten. Nicht \
             veräußerte Restbestände verbleiben im FIFO-Stack (siehe Offene Positionen)."));
    let ghost before1 = out@;
    ul(out, &items);
    proof {
        let iv = seq![
            "<b>Anschaffung:</b> Kauf/Zuteilung mit Anschaffungskosten in EUR (Kaufpreis + \
             Kommissionen) wird in den FIFO-Stack aufgenommen."@,
            "<b>Veräußerung:</b> Verkauf → Veräußerungswert in EUR (Verkaufspreis − Kommissionen)."@,
            "<b>FIFO-Zuordnung:</b> Veräußerte Stücke werden den ältesten offenen Anschaffungen \
             zugeordnet (ggf. auf mehrere Tranchen aufgeteilt; der Erlös wird anteilig verteilt)."@,
            "<b>Ergebnis:</b> Gewinn/Verlust = Veräußerungswert − Anschaffungskosten. Nicht \
             veräußerte Restbestände verbleiben im FIFO-Stack (siehe Offene Positionen)."@,
        ];
        assert(strings_view(items@) =~= iv);
        crate::tax_statement::html::builder::lemma_list_items_prefix(before1 + "<ul>\n"@, iv);
        crate::tax_statement::html::builder::lemma_list_items_prefix("<ul>\n"@, iv);
    }
    assert(out@ =~= old(out)@ + sales_intro_logic()) by {
        reveal(sales_intro_logic);
    }
}

fn write_sales_notes(out: &mut String)
    ensures
        final(out)@ == old(out)@ + sales_intro_notes(),
{
    h4(out, "Besonderheiten");
    let mut items: Vec<String> = Vec::new();
    items.push(<String as StringExecFns>::from_str("<b>Zuteilungen (RSU):</b> Anschaffungskosten = Marktwert bei Vesting (bereits als \
             Arbeitslohn versteuert)."));
    items.push(<String as StringExecFns>::from_str("<b>Altbestand:</b> Vor 2009 angeschaffte Tranchen sind steuerfrei; ihr Ergebnis wird \
             ausgewiesen, aber nicht in die Formularwerte übernommen."));
    items.push(<String as StringExecFns>::from_str("<b>Verlustverrechnung</b> gemäß deutscher Regelung (Aktien-Topf vs. allgemeiner Topf) \
             erfolgt außerhalb dieser Tabelle."));
    let ghost before2 = out@;
    ul(out, &items);
    proof {
        let iv = seq![
            "<b>Zuteilungen (RSU):</b> Anschaffungskosten = Marktwert bei Vesting (bereits als \
             Arbeitslohn versteuert)."@,
            "<b>Altbestand:</b> Vor 2009 angeschaffte Tranchen sind steuerfrei; ihr Ergebnis wird \
             ausgewiesen, aber nicht in die Formularwerte übernommen."@,
            "<b>Verlustverrechnung</b> gemäß deutscher Regelung (Aktien-Topf vs. allgemeiner Topf) \
             erfolgt außerhalb dieser Tabelle."@,
        ];
        assert(strings_view(items@) =~= iv);
        crate::tax_statement::html::builder::lemma_list_items_prefix(before2 + "<ul>\n"@, iv);
        crate::tax_statement::html::builder::lemma_list_items_prefix("<ul>\n"@, iv);
    }
    assert(out@ =~= old(out)@ + sales_intro_notes()) by {
        reveal(sales_intro_notes);
    }
}

fn write_sales_intro(out: &mut String)
    ensures
        final(out)@ == old(out)@ + sales_intro(),
{
    write_sales_logic(out);
    write_sales_notes(out);
    assert(out@ =~= old(out)@ + sales_intro());
}

/// No running subtotal of a security's table leaves what the amount formatter takes.
pub open spec fn group_fits(sv: Seq<SaleWorksheet>) -> bool {
    forall|k: int|
        0 <= k <= sv.len() ==> eur_ok(#[trigger] sum_quantity(sv.take(k))) && eur_ok(sum_proceeds(sv.take(k)))
            && eur_ok(sum_cost(sv.take(k))) && eur_ok(sum_result(sv.take(k)))
}

/// Every sale prints, and no subtotal overflows.
pub open spec fn sales_ok(st: GermanTaxStatement) -> bool {
    &&& forall|i: int| 0 <= i < st.report.sales@.len() ==> sale_ok(#[trigger] st.report.sales@[i])
    &&& forall|g: int| 0 <= g < sales_groups(st.report.sales@).len() ==> group_fits(
        #[trigger] sales_groups(st.report.sales@)[g],
    )
}

/// The section: omitted without sales.
pub open spec fn sales_after(p: Seq<char>, st: GermanTaxStatement) -> Seq<char> {
    if st.report.sales@.len() == 0 {
        p
    } else {
        sales_groups_after(p + sales_intro(), sales_groups(st.report.sales@)) + p_text(
            "<span class=\"fine\">Bei Verkäufen aus mehreren Tranchen wird der Erlös anteilig nach \
         Stückzahl verteilt; maßgeblich ist das Gesamtergebnis des Verkaufs.</span>"@,
        ) + "</section>\n"@
    }
}

fn sale_keys(sales: &Vec<SaleWorksheet>) -> (r: Vec<SortKey>)
    ensures
        keys_view(r@) == sales@.map_values(|x: SaleWorksheet| sale_key(x)),
{
    let mut keys: Vec<SortKey> = Vec::new();
    let mut i: usize = 0;
    while i < sales.len()
        invariant
            i <= sales@.len(),
            keys_view(keys@) == sales@.take(i as int).map_values(|x: SaleWorksheet| sale_key(x)),
        decreases sales@.len() - i,
    {
        let s = &sales[i];
        let mut texts: Vec<String> = Vec::new();
        texts.push(<String as StringExecFns>::from_str(s.name.as_str()));
        texts.push(<String as StringExecFns>::from_str(s.symbol.as_str()));
        texts.push(<String as StringExecFns>::from_str(s.isin.as_str()));
        let _m = s.sale_date.month();
        let _d = s.sale_date.day();
        let day = (s.sale_date.year() as i64) * 10000 + (s.sale_date.month() as i64) * 100 + (s.sale_date.day() as i64);
        let k = SortKey { rank: category_rank_of(s.category), texts, day };
        let ghost before = keys_view(keys@);
        proof {
            assert(k@.texts =~= seq![s.name@, s.symbol@, s.isin@]);
        }
        keys.push(k);
        proof {
            assert(keys_view(keys@) =~= before.push(sale_key(*s)));
            assert(sales@.take(i + 1).map_values(|x: SaleWorksheet| sale_key(x)) =~= before.push(sale_key(sales@[i as int])));
        }
        i = i + 1;
    }
    proof {
        assert(sales@.take(i as int) =~= sales@);
    }
    keys
}

fn amount_pair(index: usize, text: String) -> (r: (usize, String))
    ensures
        r.0 == index,
        r.1@ == text@,
{
    (index, text)
}

/// The table of one security.
fn write_sales_group(out: &mut String, sales: &Vec<SaleWorksheet>, g: &Vec<usize>)
    requires
        forall|i: int| 0 <= i < sales@.len() ==> sale_ok(#[trigger] sales@[i]),
        group_fits(index_view(g@).map_values(|i: int| sales@[i])),
        forall|q: int| 0 <= q < g@.len() ==> #[trigger] g@[q] < sales@.len(),
    ensures
        final(out)@ == table_after(
            old(out)@,
            sales_columns(),
            sales_group_rows(index_view(g@).map_values(|i: int| sales@[i])),
        ),
{
    let ghost sv = index_view(g@).map_values(|i: int| sales@[i]);
    let mut rows: Vec<Row> = Vec::new();
    let mut quantity = Decimal::zero();
    let mut proceeds = Decimal::zero();
    let mut cost = Decimal::zero();
    let mut gain = Decimal::zero();
    let mut k: usize = 0;
    while k < g.len()
        invariant
            forall|i: int| 0 <= i < sales@.len() ==> sale_ok(#[trigger] sales@[i]),
            group_fits(sv),
            forall|q: int| 0 <= q < g@.len() ==> #[trigger] g@[q] < sales@.len(),
            sv == index_view(g@).map_values(|i: int| sales@[i]),
            k <= g@.len(),
            rows_view(rows@) == flat_sales(sv.take(k as int)),
            quantity == sum_quantity(sv.take(k as int)),
            proceeds == sum_proceeds(sv.take(k as int)),
            cost == sum_cost(sv.take(k as int)),
            gain == sum_result(sv.take(k as int)),
        decreases g@.len() - k,
    {
        let sale = &sales[g[k]];
        proof {
            assert(sv.take(k + 1).drop_last() =~= sv.take(k as int));
            assert(sv.take(k + 1).last() == *sale);
            assert(sale_ok(sales@[g@[k as int] as int]));
            assert(eur_ok(sum_quantity(sv.take(k as int))));
        }
        let q = quantity.add(&sale.quantity);
        let pr = proceeds.add(&sale.proceeds_eur);
        let c = cost.add(&sale.cost_basis_eur);
        let x = gain.add(&sale.gain_loss_eur);
        quantity = q;
        proceeds = pr;
        cost = c;
        gain = x;
        push_sale_rows(&mut rows, sale);
        k = k + 1;
    }
    proof {
        assert(sv.take(k as int) =~= sv);
        assert(eur_ok(sum_quantity(sv.take(k as int))));
    }
    let mut values: Vec<(usize, String)> = Vec::new();
    values.push(amount_pair(5, qty(quantity.neg())));
    values.push(amount_pair(6, eur(proceeds)));
    values.push(amount_pair(9, eur(cost)));
    values.push(amount_pair(10, eur(gain)));
    let subtotal = sum_row(RowKind::Subtotal, "Gesamt – Veräußerungen", 13, &values);
    proof {
        assert(values@.map_values(|v: (usize, String)| (v.0 as int, v.1@)) =~= seq![
            (5int, qty_text(sum_quantity(sv).spec_neg())),
            (6int, eur_str(sum_proceeds(sv))),
            (9int, eur_str(sum_cost(sv))),
            (10int, eur_str(sum_result(sv))),
        ]);
    }
    let ghost before = rows_view(rows@);
    rows.push(subtotal);
    proof {
        assert(rows_view(rows@) =~= sales_group_rows(sv));
    }
    let mut columns: Vec<Column> = Vec::new();
    columns.push(col("Datum", Align::Left));
    columns.push(col("ID", Align::Left));
    columns.push(col("Aktivität", Align::Left));
    columns.push(col("O/C", Align::Left));
    columns.push(col("Transaktionstyp", Align::Left));
    columns.push(col("Menge", Align::Right));
    columns.push(col("Betrag EUR", Align::Right));
    columns.push(col("Eröffnungsdatum", Align::Left));
    columns.push(col("Eröffnungs-ID", Align::Left));
    columns.push(col("Eröffnungswert (EUR)", Align::Right));
    columns.push(col("G/V EUR", Align::Right));
    columns.push(col("Haltedauer (d)", Align::Right));
    columns.push(col("Hinweise", Align::Left));
    proof {
        assert(columns_view(columns@) =~= sales_columns());
    }
    table(out, &columns, &rows);
}

/// One security's block: the asset-class heading when it opens a new class, the security heading,
/// and the table.
fn write_sales_block(out: &mut String, sales: &Vec<SaleWorksheet>, g: &Vec<usize>, new_class: bool)
    requires
        forall|i: int| 0 <= i < sales@.len() ==> sale_ok(#[trigger] sales@[i]),
        g@.len() > 0,
        group_fits(index_view(g@).map_values(|i: int| sales@[i])),
        forall|q: int| 0 <= q < g@.len() ==> #[trigger] g@[q] < sales@.len(),
    ensures
        ({
            let gv = index_view(g@).map_values(|i: int| sales@[i]);
            final(out)@ == table_after(
                old(out)@ + (if new_class {
                    h3_text(category_text(gv[0].category))
                } else {
                    Seq::empty()
                }) + security_heading_text(gv[0].name@, gv[0].isin@, gv[0].symbol@),
                sales_columns(),
                sales_group_rows(gv),
            )
        }),
{
    let ghost gv = index_view(g@).map_values(|i: int| sales@[i]);
    let first = &sales[g[0]];
    assert(gv[0] == *first);
    if new_class {
        h3(out, category_label(first.category));
    }
    let ghost after_head = out@;
    assert(after_head =~= old(out)@ + (if new_class {
        h3_text(category_text(gv[0].category))
    } else {
        Seq::empty()
    }));
    security_heading(out, first.name.as_str(), first.isin.as_str(), first.symbol.as_str());
    write_sales_group(out, sales, g);
}

/// Section: Gewinne und Verluste aus Wertpapiergeschäften. Omitted without sales.
#[verifier::rlimit(30)]
pub fn sales(out: &mut String, st: &GermanTaxStatement) -> (r: bool)
    requires
        sales_ok(*st),
    ensures
        r == (st.report.sales@.len() > 0),
        final(out)@ == sales_after(old(out)@, *st),
{
    let sales = &st.report.sales;
    if sales.len() == 0 {
        return false;
    }
    write_sales_intro(out);
    let ghost start = out@;
    let keys = sale_keys(sales);
    let order = sort_order(&keys);
    let groups = split_runs(&order, &keys);
    let ghost kv = keys_view(keys@);
    let ghost gs = sales_groups(sales@);
    proof {
        assert(kv == sales@.map_values(|x: SaleWorksheet| sale_key(x)));
        assert(kv.len() == keys@.len());
        assert(index_view(order@) == sorted_order(kv, keys@.len()));
        assert(runs_view(groups@).map_values(|g: Seq<int>| g.map_values(|i: int| sales@[i])) == gs);
    }
    let mut k: usize = 0;
    while k < groups.len()
        invariant
            sales_ok(*st),
            sales == &st.report.sales,
            gs == runs_view(groups@).map_values(|g: Seq<int>| g.map_values(|i: int| sales@[i])),
            gs == sales_groups(st.report.sales@),
            order@.len() == sales@.len(),
            forall|g: int| 0 <= g < groups@.len() ==> (#[trigger] groups@[g])@.len() > 0 && groups@[g]@.len() <= order@.len(),
            forall|g: int, q: int| 0 <= g < groups@.len() && 0 <= q < groups@[g]@.len() ==> #[trigger] groups@[g]@[q] < keys@.len(),
            keys@.len() == sales@.len(),
            k <= groups@.len(),
            out@ == sales_groups_after(start, gs.take(k as int)),
        decreases groups@.len() - k,
    {
        let g = &groups[k];
        let new_class = if k == 0 {
            true
        } else {
            let prev = &groups[k - 1];
            category_rank_of(sales[prev[0]].category) != category_rank_of(sales[g[0]].category)
        };
        proof {
            let gk = gs.take(k + 1);
            assert(gk.drop_last() =~= gs.take(k as int));
            assert(gk.last() == index_view(g@).map_values(|i: int| sales@[i]));
            assert(gk.last()[0] == sales@[g@[0] as int]);
            assert(gk.last() == gs[k as int]);
            assert(gs.len() == groups@.len());
            assert(group_fits(sales_groups(st.report.sales@)[k as int]));
            if k > 0 {
                assert(gk[gk.len() - 2] == gs[k - 1]);
                assert(gs[k - 1] == index_view(groups@[k - 1]@).map_values(|i: int| sales@[i]));
                assert(gs[k - 1][0] == sales@[groups@[k - 1]@[0] as int]);
            }
        }
        write_sales_block(out, sales, g, new_class);
        k = k + 1;
    }
    proof {
        assert(gs.take(k as int) =~= gs);
    }
    p(
        out,
        "<span class=\"fine\">Bei Verkäufen aus mehreren Tranchen wird der Erlös anteilig nach \
         Stückzahl verteilt; maßgeblich ist das Gesamtergebnis des Verkaufs.</span>",
    );
    section_end(out);
    proof {
        assert(out@ =~= sales_after(old(out)@, *st));
    }
    true
}

} // verus!
