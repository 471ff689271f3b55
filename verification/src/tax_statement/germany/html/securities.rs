//! The security overview of the German report: every security traded, held or paying income in
//! the year, with its country, currency and tax class.
use vstd::prelude::*;

use crate::tax_statement::germany::report_details::{AssetCategory, SecurityRow};
use crate::tax_statement::germany::statement::GermanTaxStatement;
use crate::tax_statement::html::builder::{
    b, bold, cells_view, col, columns_view, h4, h4_text, p, p_text, rows_view, section_end,
    section_start, section_start_text, strings_view, table, table_after, text_cell, ul, ul_text,
    Align, Cell, Column, ColumnView, Row, RowKind, RowView,
};
use crate::taxes::germany::TeilfreistellungRate;

use super::format::{
    category_label, category_text, country_name, country_name_text, teilfreistellung_label,
    teilfreistellung_text,
};

verus! {

/// The Teilfreistellung class of an asset class.
pub open spec fn rate_of_category(category: AssetCategory) -> TeilfreistellungRate {
    match category {
        AssetCategory::Stock => TeilfreistellungRate::NotFund,
        AssetCategory::EquityFund => TeilfreistellungRate::Equity,
        AssetCategory::MixedFund => TeilfreistellungRate::Mixed,
        AssetCategory::OtherFund => TeilfreistellungRate::Bond,
    }
}

fn rate_for(category: AssetCategory) -> (r: TeilfreistellungRate)
    ensures
        r == rate_of_category(category),
{
    match category {
        AssetCategory::Stock => TeilfreistellungRate::NotFund,
        AssetCategory::EquityFund => TeilfreistellungRate::Equity,
        AssetCategory::MixedFund => TeilfreistellungRate::Mixed,
        AssetCategory::OtherFund => TeilfreistellungRate::Bond,
    }
}

/// `Country (CC)`; empty when the country is unknown.
pub open spec fn country_cell_text(code: Seq<char>) -> Seq<char> {
    if code.len() == 0 {
        Seq::empty()
    } else {
        country_name_text(code) + " ("@ + code + ")"@
    }
}

pub open spec fn security_row(s: SecurityRow) -> RowView {
    RowView {
        kind: RowKind::Data,
        cells: seq![
            text_cell(s.symbol@),
            text_cell(s.isin@),
            text_cell(s.name@),
            text_cell(country_cell_text(s.country_code@)),
            text_cell(s.currency@),
            text_cell(category_text(s.category)),
            text_cell(teilfreistellung_text(rate_of_category(s.category))),
        ],
    }
}

pub open spec fn security_columns() -> Seq<ColumnView> {
    seq![
        ColumnView { title: "Symbol"@, align: Align::Left },
        ColumnView { title: "ISIN"@, align: Align::Left },
        ColumnView { title: "Name"@, align: Align::Left },
        ColumnView { title: "Land"@, align: Align::Left },
        ColumnView { title: "Währung"@, align: Align::Left },
        ColumnView { title: "Asset-Kategorie"@, align: Align::Left },
        ColumnView { title: "Teilfreistellung (InvStG)"@, align: Align::Left },
    ]
}

pub open spec fn securities_intro() -> Seq<char> {
    section_start_text("wertpapieruebersicht"@, "Wertpapierübersicht"@) + p_text(
        "Diese Tabelle zeigt eine "@ + bold("vollständige Übersicht aller Wertpapiere"@) + ", die im Steuerjahr gehandelt oder gehalten wurden. Für \
             jedes Wertpapier werden die wichtigsten Identifikationsmerkmale und die steuerliche \
             Klassifizierung dargestellt."@,
    ) + h4_text("⚠️ Hinweise zur Kategorisierung"@) + ul_text(
        seq![
            "Die <b>Asset-Kategorisierung</b> (Aktie vs. Fondsart) folgt der Konfiguration je \
             ISIN (<code>taxes.etf_classification</code>); nicht klassifizierte Wertpapiere gelten \
             als Aktien."@,
            "Bei <b>komplexen Finanzprodukten</b> (z. B. strukturierte Produkte, Royalty Trusts, \
             Limited Partnerships oder MLP) kann eine manuelle Überprüfung der steuerlichen \
             Einordnung erforderlich sein."@,
            "Das <b>Land</b> wird aus dem ISIN-Präfix abgeleitet und entspricht nicht immer dem \
             Sitz des Emittenten (z. B. irische ETF-Vehikel)."@,
        ],
    )
}

/// The section: omitted when there are no securities.
pub open spec fn securities_after(p: Seq<char>, st: GermanTaxStatement) -> Seq<char> {
    if st.report.securities@.len() == 0 {
        p
    } else {
        table_after(
            p + securities_intro(),
            security_columns(),
            st.report.securities@.map_values(|s: SecurityRow| security_row(s)),
        ) + "</section>\n"@
    }
}

fn write_securities_intro(out: &mut String)
    ensures
        final(out)@ == old(out)@ + securities_intro(),
{
    section_start(out, "wertpapieruebersicht", "Wertpapierübersicht");
    let mut text = <String as StringExecFns>::from_str("Diese Tabelle zeigt eine ");
    text.append(b("vollständige Übersicht aller Wertpapiere").as_str());
    text.append(
        ", die im Steuerjahr gehandelt oder gehalten wurden. Für \
             jedes Wertpapier werden die wichtigsten Identifikationsmerkmale und die steuerliche \
             Klassifizierung dargestellt.",
    );
    p(out, text.as_str());
    h4(out, "⚠️ Hinweise zur Kategorisierung");
    let mut items: Vec<String> = Vec::new();
    items.push(<String as StringExecFns>::from_str(
        "Die <b>Asset-Kategorisierung</b> (Aktie vs. Fondsart) folgt der Konfiguration je \
             ISIN (<code>taxes.etf_classification</code>); nicht klassifizierte Wertpapiere gelten \
             als Aktien.",
    ));
    items.push(<String as StringExecFns>::from_str(
        "Bei <b>komplexen Finanzprodukten</b> (z. B. strukturierte Produkte, Royalty Trusts, \
             Limited Partnerships oder MLP) kann eine manuelle Überprüfung der steuerlichen \
             Einordnung erforderlich sein.",
    ));
    items.push(<String as StringExecFns>::from_str(
        "Das <b>Land</b> wird aus dem ISIN-Präfix abgeleitet und entspricht nicht immer dem \
             Sitz des Emittenten (z. B. irische ETF-Vehikel).",
    ));
    let ghost before_list = out@;
    ul(out, &items);
    proof {
        let items_view = seq![
            "Die <b>Asset-Kategorisierung</b> (Aktie vs. Fondsart) folgt der Konfiguration je \
             ISIN (<code>taxes.etf_classification</code>); nicht klassifizierte Wertpapiere gelten \
             als Aktien."@,
            "Bei <b>komplexen Finanzprodukten</b> (z. B. strukturierte Produkte, Royalty Trusts, \
             Limited Partnerships oder MLP) kann eine manuelle Überprüfung der steuerlichen \
             Einordnung erforderlich sein."@,
            "Das <b>Land</b> wird aus dem ISIN-Präfix abgeleitet und entspricht nicht immer dem \
             Sitz des Emittenten (z. B. irische ETF-Vehikel)."@,
        ];
        assert(strings_view(items@) =~= items_view);
        crate::tax_statement::html::builder::lemma_list_items_prefix(before_list + "<ul>\n"@, items_view);
        crate::tax_statement::html::builder::lemma_list_items_prefix("<ul>\n"@, items_view);
        assert(out@ =~= old(out)@ + securities_intro());
    }
}

fn country_cell(code: &String) -> (r: String)
    ensures
        r@ == country_cell_text(code@),
{
    if code.as_str().unicode_len() == 0 {
        String::new()
    } else {
        let mut r = country_name(code.as_str());
        r.append(" (");
        r.append(code.as_str());
        r.append(")");
        r
    }
}

fn push_cell(cells: &mut Vec<Cell>, c: Cell)
    ensures
        cells_view(final(cells)@) == cells_view(old(cells)@).push(c@),
{
    cells.push(c);
    assert(cells_view(cells@) =~= cells_view(old(cells)@).push(c@));
}

fn security_line(s: &SecurityRow) -> (r: Row)
    ensures
        r@ == security_row(*s),
{
    let mut cells: Vec<Cell> = Vec::new();
    push_cell(&mut cells, Cell::text(s.symbol.as_str()));
    push_cell(&mut cells, Cell::text(s.isin.as_str()));
    push_cell(&mut cells, Cell::text(s.name.as_str()));
    push_cell(&mut cells, Cell::text(country_cell(&s.country_code).as_str()));
    push_cell(&mut cells, Cell::text(s.currency.as_str()));
    push_cell(&mut cells, Cell::text(category_label(s.category)));
    push_cell(&mut cells, Cell::text(teilfreistellung_label(rate_for(s.category)).as_str()));
    let r = Row::data(cells);
    assert(r@.cells =~= security_row(*s).cells);
    r
}

/// Section: Wertpapierübersicht. Omitted when there are no securities.
pub fn securities(out: &mut String, st: &GermanTaxStatement) -> (r: bool)
    ensures
        r == (st.report.securities@.len() > 0),
        final(out)@ == securities_after(old(out)@, *st),
{
    if st.report.securities.len() == 0 {
        return false;
    }
    write_securities_intro(out);
    let mut columns: Vec<Column> = Vec::new();
    columns.push(col("Symbol", Align::Left));
    columns.push(col("ISIN", Align::Left));
    columns.push(col("Name", Align::Left));
    columns.push(col("Land", Align::Left));
    columns.push(col("Währung", Align::Left));
    columns.push(col("Asset-Kategorie", Align::Left));
    columns.push(col("Teilfreistellung (InvStG)", Align::Left));
    proof {
        assert(columns_view(columns@) =~= security_columns());
    }
    let ghost v = st.report.securities@;
    let mut rows: Vec<Row> = Vec::new();
    let mut i: usize = 0;
    while i < st.report.securities.len()
        invariant
            v == st.report.securities@,
            i <= v.len(),
            rows_view(rows@) == v.take(i as int).map_values(|s: SecurityRow| security_row(s)),
        decreases v.len() - i,
    {
        let row = security_line(&st.report.securities[i]);
        let ghost before = rows_view(rows@);
        rows.push(row);
        proof {
            assert(rows_view(rows@) =~= before.push(security_row(v[i as int])));
            assert(v.take(i + 1).map_values(|s: SecurityRow| security_row(s)) =~= before.push(security_row(v[i as int])));
        }
        i = i + 1;
    }
    proof {
        assert(v.take(i as int) =~= v);
    }
    table(out, &columns, &rows);
    section_end(out);
    true
}

} // verus!
