//! The cash bookings of the German report: dividends, withholding, interest, fees and other
//! inflows, one table per kind of booking, each in date order.
use vstd::prelude::*;

use crate::date::dotted_text;
use crate::decimal::Decimal;
use crate::tax_statement::eur::eur_ok;
use crate::tax_statement::germany::report_details::{AssetCategory, BookingKind, BookingRow};
use crate::tax_statement::germany::statement::GermanTaxStatement;
use crate::tax_statement::html::builder::{
    b, bold, col, columns_view, h3, h3_text, num_cell, p, p_text, push_cell, rows_view, section_end,
    section_start, section_start_text, table, table_after, text_cell, Align, Cell, Column,
    ColumnView, Row, RowKind, RowView,
};
use crate::tax_statement::html::format::rate_text;
use crate::tax_statement::html::grouping::{
    index_view, keys_view, runs, runs_view, sort_order, sorted_order, split_runs, KeyView, SortKey,
};

use super::format::{booking_kind_label, booking_kind_text, category_label, category_text, date, dec2, eur, rate};
use super::fund_section::{bounded, lemma_bounded_is_eur, lemma_sum_bounded, lemma_sum_step, small};
use super::fx_section::{sum_cells, sum_row};
use super::summary::eur_str;

verus! {

/// The order of the kinds of booking in the report.
pub open spec fn booking_rank(kind: BookingKind) -> int {
    match kind {
        BookingKind::Dividend => 0,
        BookingKind::WithholdingTax => 1,
        BookingKind::Interest => 2,
        BookingKind::Fee => 3,
        BookingKind::CashGrant => 4,
    }
}

fn booking_rank_of(kind: BookingKind) -> (r: u32)
    ensures
        r as int == booking_rank(kind),
{
    match kind {
        BookingKind::Dividend => 0,
        BookingKind::WithholdingTax => 1,
        BookingKind::Interest => 2,
        BookingKind::Fee => 3,
        BookingKind::CashGrant => 4,
    }
}

/// Bookings grouped by kind, each group by date.
pub open spec fn booking_key(r: BookingRow) -> KeyView {
    KeyView { rank: booking_rank(r.kind), texts: seq![], day: r.date.key() }
}

pub open spec fn booking_groups(rows: Seq<BookingRow>) -> Seq<Seq<BookingRow>> {
    let keys = rows.map_values(|x: BookingRow| booking_key(x));
    runs(sorted_order(keys, rows.len()), keys).map_values(|g: Seq<int>| g.map_values(|i: int| rows[i]))
}

/// The asset class of a booking, "Cash" when it is not tied to a security.
pub open spec fn booking_category_text(c: Option<AssetCategory>) -> Seq<char> {
    match c {
        Some(c) => category_text(c),
        None => "Cash"@,
    }
}

pub open spec fn booking_row(r: BookingRow) -> RowView {
    RowView {
        kind: RowKind::Data,
        cells: seq![
            text_cell(r.currency@),
            text_cell(dotted_text(r.date)),
            text_cell(booking_category_text(r.category)),
            text_cell(r.isin@),
            text_cell(r.name@),
            text_cell(r.description@),
            num_cell(eur_str(r.amount)),
            num_cell(rate_text(r.eur_per_unit)),
            num_cell(eur_str(r.amount_eur)),
        ],
    }
}

/// The EUR amounts of the bookings added in order.
pub open spec fn booking_total(s: Seq<BookingRow>) -> Decimal
    decreases s.len(),
{
    if s.len() == 0 {
        Decimal::spec_zero()
    } else {
        booking_total(s.drop_last()).spec_add(s.last().amount_eur)
    }
}

pub open spec fn booking_group_rows(g: Seq<BookingRow>) -> Seq<RowView> {
    g.map_values(|r: BookingRow| booking_row(r)) + seq![
        RowView { kind: RowKind::Total, cells: sum_cells("Gesamt"@, 9, seq![(8, eur_str(booking_total(g)))]) },
    ]
}

pub open spec fn booking_columns() -> Seq<ColumnView> {
    seq![
        ColumnView { title: "Währung"@, align: Align::Left },
        ColumnView { title: "Datum"@, align: Align::Left },
        ColumnView { title: "Asset-Kategorie"@, align: Align::Left },
        ColumnView { title: "ISIN"@, align: Align::Left },
        ColumnView { title: "Name"@, align: Align::Left },
        ColumnView { title: "Beschreibung"@, align: Align::Left },
        ColumnView { title: "Betrag"@, align: Align::Right },
        ColumnView { title: "EZB-Kurs"@, align: Align::Right },
        ColumnView { title: "Betrag EUR"@, align: Align::Right },
    ]
}

pub open spec fn booking_groups_after(p: Seq<char>, gs: Seq<Seq<BookingRow>>) -> Seq<char>
    decreases gs.len(),
{
    if gs.len() == 0 {
        p
    } else {
        let g = gs.last();
        table_after(
            booking_groups_after(p, gs.drop_last()) + h3_text(booking_kind_text(g[0].kind)),
            booking_columns(),
            booking_group_rows(g),
        )
    }
}

#[verifier::opaque]
pub open spec fn bookings_intro() -> Seq<char> {
    section_start_text("buchungen"@, "Barwirksame Buchungen"@) + p_text(
        "Die folgenden Tabellen enthalten alle "@ + bold("barwirksamen Buchungen"@) + " des Steuerjahres, die für die steuerliche \
             Betrachtung relevant sind: Dividenden und Ausschüttungen, einbehaltene \
             Quellensteuer, Guthabenzinsen, Gebühren sowie sonstige Zuflüsse. Beträge in \
             Originalwährung und – zum EZB-Referenzkurs des Buchungstags – in EUR."@,
    )
}

fn write_bookings_intro(out: &mut String)
    ensures
        final(out)@ == old(out)@ + bookings_intro(),
{
    section_start(out, "buchungen", "Barwirksame Buchungen");
    let mut text = <String as StringExecFns>::from_str("Die folgenden Tabellen enthalten alle ");
    text.append(b("barwirksamen Buchungen").as_str());
    text.append(" des Steuerjahres, die für die steuerliche \
             Betrachtung relevant sind: Dividenden und Ausschüttungen, einbehaltene \
             Quellensteuer, Guthabenzinsen, Gebühren sowie sonstige Zuflüsse. Beträge in \
             Originalwährung und – zum EZB-Referenzkurs des Buchungstags – in EUR.");
    p(out, text.as_str());
    assert(out@ =~= old(out)@ + bookings_intro()) by {
        reveal(bookings_intro);
    }
}

/// Each amount must fit the formatter.
pub open spec fn booking_ok(r: BookingRow) -> bool {
    small(r.amount) && small(r.amount_eur) && eur_ok(r.eur_per_unit)
}

/// At most 100 000 bookings, each amount at most a trillion.
pub open spec fn bookings_ok(st: GermanTaxStatement) -> bool {
    &&& st.report.bookings@.len() <= 100_000
    &&& forall|i: int| 0 <= i < st.report.bookings@.len() ==> booking_ok(#[trigger] st.report.bookings@[i])
}

/// The section: omitted without bookings.
pub open spec fn bookings_after(p: Seq<char>, st: GermanTaxStatement) -> Seq<char> {
    if st.report.bookings@.len() == 0 {
        p
    } else {
        booking_groups_after(p + bookings_intro(), booking_groups(st.report.bookings@)) + "</section>\n"@
    }
}

fn booking_category(c: Option<AssetCategory>) -> (r: &'static str)
    ensures
        r@ == booking_category_text(c),
{
    match c {
        Some(c) => category_label(c),
        None => "Cash",
    }
}

#[verifier::spinoff_prover]
#[verifier::rlimit(40)]
fn booking_line(r: &BookingRow) -> (row: Row)
    requires
        booking_ok(*r),
    ensures
        row@ == booking_row(*r),
{
    proof {
        lemma_bounded_is_eur(r.amount, 1);
        lemma_bounded_is_eur(r.amount_eur, 1);
    }
    let mut cells: Vec<Cell> = Vec::new();
    push_cell(&mut cells, Cell::text(r.currency.as_str()));
    push_cell(&mut cells, Cell::text(date(r.date).as_str()));
    push_cell(&mut cells, Cell::text(booking_category(r.category)));
    push_cell(&mut cells, Cell::text(r.isin.as_str()));
    push_cell(&mut cells, Cell::text(r.name.as_str()));
    push_cell(&mut cells, Cell::text(r.description.as_str()));
    push_cell(&mut cells, Cell::num(dec2(r.amount).as_str()));
    push_cell(&mut cells, Cell::num(rate(r.eur_per_unit).as_str()));
    push_cell(&mut cells, Cell::num(eur(r.amount_eur).as_str()));
    let row = Row::data(cells);
    assert(row@.cells =~= booking_row(*r).cells);
    row
}

fn booking_keys(rows: &Vec<BookingRow>) -> (r: Vec<SortKey>)
    ensures
        keys_view(r@) == rows@.map_values(|x: BookingRow| booking_key(x)),
{
    let mut keys: Vec<SortKey> = Vec::new();
    let mut i: usize = 0;
    while i < rows.len()
        invariant
            i <= rows@.len(),
            keys_view(keys@) == rows@.take(i as int).map_values(|x: BookingRow| booking_key(x)),
        decreases rows@.len() - i,
    {
        let r = &rows[i];
        let texts: Vec<String> = Vec::new();
        let day = (r.date.year() as i64) * 10000 + (r.date.month() as i64) * 100 + (r.date.day() as i64);
        let k = SortKey { rank: booking_rank_of(r.kind), texts, day };
        let ghost before = keys_view(keys@);
        proof {
            assert(k@.texts =~= Seq::<Seq<char>>::empty());
        }
        keys.push(k);
        proof {
            assert(keys_view(keys@) =~= before.push(booking_key(*r)));
            assert(rows@.take(i + 1).map_values(|x: BookingRow| booking_key(x)) =~= before.push(booking_key(rows@[i as int])));
        }
        i = i + 1;
    }
    proof {
        assert(rows@.take(i as int) =~= rows@);
    }
    keys
}

fn amount_pair(index: usize, text: String) -> (r: (usize, String))
    ensures
        r.0 == index,
        r.1@ == text@,
{
    (index, text)
}

/// The table of one kind of booking under its heading.
#[verifier::rlimit(30)]
fn write_booking_group(out: &mut String, rows: &Vec<BookingRow>, g: &Vec<usize>)
    requires
        forall|i: int| 0 <= i < rows@.len() ==> booking_ok(#[trigger] rows@[i]),
        g@.len() > 0,
        g@.len() <= 100_000,
        forall|q: int| 0 <= q < g@.len() ==> #[trigger] g@[q] < rows@.len(),
    ensures
        ({
            let gv = index_view(g@).map_values(|i: int| rows@[i]);
            final(out)@ == table_after(
                old(out)@ + h3_text(booking_kind_text(gv[0].kind)),
                booking_columns(),
                booking_group_rows(gv),
            )
        }),
{
    let ghost sv = index_view(g@).map_values(|i: int| rows@[i]);
    let first = &rows[g[0]];
    assert(sv[0] == *first);
    h3(out, booking_kind_label(first.kind));
    assert(out@ =~= old(out)@ + h3_text(booking_kind_text(sv[0].kind)));
    let mut lines: Vec<Row> = Vec::new();
    let mut total = Decimal::zero();
    proof {
        crate::decimal::Decimal::lemma_spec_zero();
    }
    let mut k: usize = 0;
    while k < g.len()
        invariant
            forall|i: int| 0 <= i < rows@.len() ==> booking_ok(#[trigger] rows@[i]),
            g@.len() <= 100_000,
            forall|q: int| 0 <= q < g@.len() ==> #[trigger] g@[q] < rows@.len(),
            sv == index_view(g@).map_values(|i: int| rows@[i]),
            k <= g@.len(),
            rows_view(lines@) == sv.take(k as int).map_values(|r: BookingRow| booking_row(r)),
            total == booking_total(sv.take(k as int)) && bounded(total, k as int),
        decreases g@.len() - k,
    {
        let r = &rows[g[k]];
        proof {
            assert(sv.take(k + 1).drop_last() =~= sv.take(k as int));
            assert(sv.take(k + 1).last() == *r);
            assert(booking_ok(rows@[g@[k as int] as int]));
            lemma_sum_step(total, r.amount_eur, k as int);
        }
        let t = total.add(&r.amount_eur);
        proof {
            lemma_sum_bounded(total, r.amount_eur, t, k as int);
        }
        total = t;
        let line = booking_line(r);
        let ghost before = rows_view(lines@);
        lines.push(line);
        proof {
            assert(rows_view(lines@) =~= before.push(booking_row(*r)));
            assert(sv.take(k + 1).map_values(|r: BookingRow| booking_row(r)) =~= before.push(booking_row(*r)));
        }
        k = k + 1;
    }
    proof {
        assert(sv.take(k as int) =~= sv);
        lemma_bounded_is_eur(total, k as int);
    }
    let mut values: Vec<(usize, String)> = Vec::new();
    values.push(amount_pair(8, eur(total)));
    let sum = sum_row(RowKind::Total, "Gesamt", 9, &values);
    proof {
        assert(values@.map_values(|v: (usize, String)| (v.0 as int, v.1@)) =~= seq![
            (8int, eur_str(booking_total(sv))),
        ]);
    }
    let ghost before = rows_view(lines@);
    lines.push(sum);
    proof {
        assert(rows_view(lines@) =~= booking_group_rows(sv));
    }
    let mut columns: Vec<Column> = Vec::new();
    columns.push(col("Währung", Align::Left));
    columns.push(col("Datum", Align::Left));
    columns.push(col("Asset-Kategorie", Align::Left));
    columns.push(col("ISIN", Align::Left));
    columns.push(col("Name", Align::Left));
    columns.push(col("Beschreibung", Align::Left));
    columns.push(col("Betrag", Align::Right));
    columns.push(col("EZB-Kurs", Align::Right));
    columns.push(col("Betrag EUR", Align::Right));
    proof {
        assert(columns_view(columns@) =~= booking_columns());
    }
    table(out, &columns, &lines);
}

/// Section: Barwirksame Buchungen. Omitted without bookings.
#[verifier::rlimit(30)]
pub fn bookings(out: &mut String, st: &GermanTaxStatement) -> (r: bool)
    requires
        bookings_ok(*st),
    ensures
        r == (st.report.bookings@.len() > 0),
        final(out)@ == bookings_after(old(out)@, *st),
{
    let rows = &st.report.bookings;
    if rows.len() == 0 {
        return false;
    }
    write_bookings_intro(out);
    let ghost start = out@;
    let keys = booking_keys(rows);
    let order = sort_order(&keys);
    let groups = split_runs(&order, &keys);
    let ghost kv = keys_view(keys@);
    let ghost gs = booking_groups(rows@);
    proof {
        assert(kv == rows@.map_values(|x: BookingRow| booking_key(x)));
        assert(kv.len() == keys@.len());
        assert(index_view(order@) == sorted_order(kv, keys@.len()));
        assert(runs_view(groups@).map_values(|g: Seq<int>| g.map_values(|i: int| rows@[i])) == gs);
    }
    let mut k: usize = 0;
    while k < groups.len()
        invariant
            bookings_ok(*st),
            rows == &st.report.bookings,
            gs == runs_view(groups@).map_values(|g: Seq<int>| g.map_values(|i: int| rows@[i])),
            order@.len() == rows@.len(),
            forall|g: int| 0 <= g < groups@.len() ==> (#[trigger] groups@[g])@.len() > 0 && groups@[g]@.len() <= order@.len(),
            forall|g: int, q: int| 0 <= g < groups@.len() && 0 <= q < groups@[g]@.len() ==> #[trigger] groups@[g]@[q] < keys@.len(),
            keys@.len() == rows@.len(),
            k <= groups@.len(),
            out@ == booking_groups_after(start, gs.take(k as int)),
        decreases groups@.len() - k,
    {
        let g = &groups[k];
        proof {
            assert(gs.take(k + 1).drop_last() =~= gs.take(k as int));
            assert(gs.take(k + 1).last() == index_view(g@).map_values(|i: int| rows@[i]));
        }
        write_booking_group(out, rows, g);
        k = k + 1;
    }
    proof {
        assert(gs.take(k as int) =~= gs);
    }
    section_end(out);
    proof {
        assert(out@ =~= bookings_after(old(out)@, *st));
    }
    true
}

} // verus!
