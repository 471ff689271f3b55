//! The raw trades of the German report: every buy and sell of the year in original currency, per
//! security, with cash signs as the account sees them.
use vstd::prelude::*;

use crate::date::dotted_text;
use crate::decimal::Decimal;
use crate::tax_statement::eur::eur_ok;
use crate::tax_statement::germany::report_details::{TradeRow, TradeSide};
use crate::tax_statement::germany::statement::GermanTaxStatement;
use crate::tax_statement::html::builder::{
    b, bold, col, columns_view, h4, h4_text, num_cell, p, p_text, push_cell, rows_view, section_end,
    section_start, section_start_text, strings_view, table, table_after, text_cell, ul, ul_text, Align,
    Cell, Column, ColumnView, Row, RowKind, RowView,
};
use crate::tax_statement::html::format::rate_text;
use crate::tax_statement::html::grouping::{
    index_view, keys_view, runs, runs_view, sort_order, sorted_order, split_runs, KeyView, SortKey,
};

use super::format::{date, dec2, eur, qty, rate, side_label, side_text};
use super::fund_section::{bounded, lemma_bounded_is_eur, lemma_sum_bounded, lemma_sum_step, small};
use super::fx_section::{sum_cells, sum_row};
use super::sales_section::{id_cell, opt_text, qty_text, security_heading, security_heading_text};
use super::summary::eur_str;

verus! {

/// The quantity with the cash sign of the trade: positive for buys, negative for sells.
pub open spec fn signed_quantity(t: TradeRow) -> Decimal {
    match t.side {
        TradeSide::Buy => t.quantity,
        TradeSide::Sell => t.quantity.spec_neg(),
    }
}

pub open spec fn trade_row(t: TradeRow) -> RowView {
    RowView {
        kind: RowKind::Data,
        cells: seq![
            text_cell(t.currency@),
            num_cell(rate_text(t.eur_per_unit)),
            text_cell(dotted_text(t.date)),
            text_cell(dotted_text(t.settle_date)),
            text_cell(opt_text(t.trade_id)),
            text_cell(side_text(t.side)),
            num_cell(qty_text(signed_quantity(t))),
            num_cell(eur_str(t.price)),
            num_cell(eur_str(t.gross)),
            num_cell(eur_str(t.commission)),
            num_cell(eur_str(t.net)),
            num_cell(eur_str(t.amount_eur)),
        ],
    }
}

pub open spec fn trade_ok(t: TradeRow) -> bool {
    &&& small(t.quantity) && small(t.gross) && small(t.commission) && small(t.net) && small(t.amount_eur)
    &&& eur_ok(t.eur_per_unit) && eur_ok(t.price)
}

pub open spec fn sum_signed(s: Seq<TradeRow>) -> Decimal
    decreases s.len(),
{
    if s.len() == 0 {
        Decimal::spec_zero()
    } else {
        sum_signed(s.drop_last()).spec_add(signed_quantity(s.last()))
    }
}

pub open spec fn sum_of(s: Seq<TradeRow>, f: spec_fn(TradeRow) -> Decimal) -> Decimal
    decreases s.len(),
{
    if s.len() == 0 {
        Decimal::spec_zero()
    } else {
        sum_of(s.drop_last(), f).spec_add(f(s.last()))
    }
}

pub open spec fn gross_of(t: TradeRow) -> Decimal {
    t.gross
}

pub open spec fn commission_of(t: TradeRow) -> Decimal {
    t.commission
}

pub open spec fn net_of(t: TradeRow) -> Decimal {
    t.net
}

pub open spec fn amount_of(t: TradeRow) -> Decimal {
    t.amount_eur
}

/// The lines of one security: its trades in the order given, then their total.
pub open spec fn trade_group_rows(g: Seq<TradeRow>) -> Seq<RowView> {
    g.map_values(|t: TradeRow| trade_row(t)) + seq![
        RowView {
            kind: RowKind::Total,
            cells: sum_cells(
                "Gesamt"@,
                12,
                seq![
                    (6, qty_text(sum_signed(g))),
                    (8, eur_str(sum_of(g, |t: TradeRow| gross_of(t)))),
                    (9, eur_str(sum_of(g, |t: TradeRow| commission_of(t)))),
                    (10, eur_str(sum_of(g, |t: TradeRow| net_of(t)))),
                    (11, eur_str(sum_of(g, |t: TradeRow| amount_of(t)))),
                ],
            ),
        },
    ]
}

pub open spec fn trade_columns() -> Seq<ColumnView> {
    seq![
        ColumnView { title: "Währung"@, align: Align::Left },
        ColumnView { title: "EZB-Kurs"@, align: Align::Right },
        ColumnView { title: "Datum"@, align: Align::Left },
        ColumnView { title: "Valuta"@, align: Align::Left },
        ColumnView { title: "ID"@, align: Align::Left },
        ColumnView { title: "Art"@, align: Align::Left },
        ColumnView { title: "Menge"@, align: Align::Right },
        ColumnView { title: "Kurs"@, align: Align::Right },
        ColumnView { title: "Erlös"@, align: Align::Right },
        ColumnView { title: "Gebühren"@, align: Align::Right },
        ColumnView { title: "Netto"@, align: Align::Right },
        ColumnView { title: "Betrag EUR"@, align: Align::Right },
    ]
}

/// Trades grouped by (name, symbol, ISIN), each group in the order given.
pub open spec fn trade_key(t: TradeRow) -> KeyView {
    KeyView { rank: 0, texts: seq![t.name@, t.symbol@, t.isin@], day: 0 }
}

pub open spec fn trade_groups(trades: Seq<TradeRow>) -> Seq<Seq<TradeRow>> {
    let keys = trades.map_values(|x: TradeRow| trade_key(x));
    runs(sorted_order(keys, trades.len()), keys).map_values(|g: Seq<int>| g.map_values(|i: int| trades[i]))
}

pub open spec fn trade_groups_after(p: Seq<char>, gs: Seq<Seq<TradeRow>>) -> Seq<char>
    decreases gs.len(),
{
    if gs.len() == 0 {
        p
    } else {
        let g = gs.last();
        table_after(
            trade_groups_after(p, gs.drop_last()) + security_heading_text(g[0].name@, g[0].isin@, g[0].symbol@),
            trade_columns(),
            trade_group_rows(g),
        )
    }
}

#[verifier::opaque]
pub open spec fn trades_intro_head() -> Seq<char> {
    section_start_text("wertpapiertransaktionen"@, "Wertpapiertransaktionen"@) + p_text(
        "Diese Tabelle zeigt alle "@ + bold("einzelnen Wertpapiertransaktionen"@) + " aus Ihrem Konto im chronologischen Detail. Sie dient \
             als vollständige Dokumentation aller Kauf- und Verkaufsorders im Steuerjahr."@,
    ) + h4_text("Was enthält diese Übersicht?"@)
}

#[verifier::opaque]
pub open spec fn trades_intro_list() -> Seq<char> {
    ul_text(
        seq![
            "<b>Handelsinformationen:</b> Datum, Valuta, Symbol, ISIN, Wertpapiername"@,
            "<b>Order-Details:</b> Kauf/Verkauf, Anzahl der Anteile, Preis pro Anteil"@,
            "<b>Kosten &amp; Gebühren:</b> Kommissionen"@,
            "<b>Währungen:</b> Originalwährung und umgerechnete Beträge in EUR (EZB-Kurs des \
             Valutatags)"@,
            "<b>Transaktions-IDs:</b> Eindeutige Identifikationsnummern des Brokers, soweit im \
             Kontoauszug enthalten"@,
        ],
    ) + p_text(bold("Hinweis:"@) + " Diese Tabelle zeigt die Rohdaten aller Trades. Die steuerlich relevanten \
             Berechnungen (FIFO-Gewinne und -Verluste) finden Sie in der Tabelle „Gewinne und \
             Verluste aus Wertpapiergeschäften“. Vorzeichen aus Sicht des Kontos: Käufe negativ, \
             Verkäufe positiv."@)
}

pub open spec fn trades_intro() -> Seq<char> {
    trades_intro_head() + trades_intro_list()
}

fn write_trades_head(out: &mut String)
    ensures
        final(out)@ == old(out)@ + trades_intro_head(),
{
    section_start(out, "wertpapiertransaktionen", "Wertpapiertransaktionen");
    let mut text = <String as StringExecFns>::from_str("Diese Tabelle zeigt alle ");
    text.append(b("einzelnen Wertpapiertransaktionen").as_str());
    text.append(" aus Ihrem Konto im chronologischen Detail. Sie dient \
             als vollständige Dokumentation aller Kauf- und Verkaufsorders im Steuerjahr.");
    p(out, text.as_str());
    h4(out, "Was enthält diese Übersicht?");
    assert(out@ =~= old(out)@ + trades_intro_head()) by {
        reveal(trades_intro_head);
    }
}

fn write_trades_list(out: &mut String)
    ensures
        final(out)@ == old(out)@ + trades_intro_list(),
{
    let mut items: Vec<String> = Vec::new();
    items.push(<String as StringExecFns>::from_str("<b>Handelsinformationen:</b> Datum, Valuta, Symbol, ISIN, Wertpapiername"));
    items.push(<String as StringExecFns>::from_str("<b>Order-Details:</b> Kauf/Verkauf, Anzahl der Anteile, Preis pro Anteil"));
    items.push(<String as StringExecFns>::from_str("<b>Kosten &amp; Gebühren:</b> Kommissionen"));
    items.push(<String as StringExecFns>::from_str("<b>Währungen:</b> Originalwährung und umgerechnete Beträge in EUR (EZB-Kurs des \
             Valutatags)"));
    items.push(<String as StringExecFns>::from_str("<b>Transaktions-IDs:</b> Eindeutige Identifikationsnummern des Brokers, soweit im \
             Kontoauszug enthalten"));
    let ghost before1 = out@;
    ul(out, &items);
    proof {
        let iv = seq![
            "<b>Handelsinformationen:</b> Datum, Valuta, Symbol, ISIN, Wertpapiername"@,
            "<b>Order-Details:</b> Kauf/Verkauf, Anzahl der Anteile, Preis pro Anteil"@,
            "<b>Kosten &amp; Gebühren:</b> Kommissionen"@,
            "<b>Währungen:</b> Originalwährung und umgerechnete Beträge in EUR (EZB-Kurs des \
             Valutatags)"@,
            "<b>Transaktions-IDs:</b> Eindeutige Identifikationsnummern des Brokers, soweit im \
             Kontoauszug enthalten"@,
        ];
        assert(strings_view(items@) =~= iv);
        crate::tax_statement::html::builder::lemma_list_items_prefix(before1 + "<ul>\n"@, iv);
        crate::tax_statement::html::builder::lemma_list_items_prefix("<ul>\n"@, iv);
    }
    let mut text = b("Hinweis:");
    text.append(" Diese Tabelle zeigt die Rohdaten aller Trades. Die steuerlich relevanten \
             Berechnungen (FIFO-Gewinne und -Verluste) finden Sie in der Tabelle „Gewinne und \
             Verluste aus Wertpapiergeschäften“. Vorzeichen aus Sicht des Kontos: Käufe negativ, \
             Verkäufe positiv.");
    p(out, text.as_str());
    assert(out@ =~= old(out)@ + trades_intro_list()) by {
        reveal(trades_intro_list);
    }
}

fn write_trades_intro(out: &mut String)
    ensures
        final(out)@ == old(out)@ + trades_intro(),
{
    write_trades_head(out);
    write_trades_list(out);
    assert(out@ =~= old(out)@ + trades_intro());
}

fn signed(t: &TradeRow) -> (r: Decimal)
    ensures
        r == signed_quantity(*t),
        r.units() == (match t.side {
            TradeSide::Buy => t.quantity.units(),
            TradeSide::Sell => -t.quantity.units(),
        }),
{
    match t.side {
        TradeSide::Buy => t.quantity,
        TradeSide::Sell => t.quantity.neg(),
    }
}

#[verifier::spinoff_prover]
#[verifier::rlimit(40)]
fn trade_line(t: &TradeRow) -> (r: Row)
    requires
        trade_ok(*t),
    ensures
        r@ == trade_row(*t),
{
    let mut cells: Vec<Cell> = Vec::new();
    push_cell(&mut cells, Cell::text(t.currency.as_str()));
    push_cell(&mut cells, Cell::num(rate(t.eur_per_unit).as_str()));
    push_cell(&mut cells, Cell::text(date(t.date).as_str()));
    push_cell(&mut cells, Cell::text(date(t.settle_date).as_str()));
    push_cell(&mut cells, id_cell(&t.trade_id));
    push_cell(&mut cells, Cell::text(side_label(t.side)));
    push_cell(&mut cells, Cell::num(qty(signed(t)).as_str()));
    push_cell(&mut cells, Cell::num(dec2(t.price).as_str()));
    push_cell(&mut cells, Cell::num(dec2(t.gross).as_str()));
    push_cell(&mut cells, Cell::num(dec2(t.commission).as_str()));
    push_cell(&mut cells, Cell::num(dec2(t.net).as_str()));
    push_cell(&mut cells, Cell::num(eur(t.amount_eur).as_str()));
    let r = Row::data(cells);
    assert(r@.cells =~= trade_row(*t).cells);
    r
}

fn trade_keys(trades: &Vec<TradeRow>) -> (r: Vec<SortKey>)
    ensures
        keys_view(r@) == trades@.map_values(|x: TradeRow| trade_key(x)),
{
    let mut keys: Vec<SortKey> = Vec::new();
    let mut i: usize = 0;
    while i < trades.len()
        invariant
            i <= trades@.len(),
            keys_view(keys@) == trades@.take(i as int).map_values(|x: TradeRow| trade_key(x)),
        decreases trades@.len() - i,
    {
        let t = &trades[i];
        let mut texts: Vec<String> = Vec::new();
        texts.push(<String as StringExecFns>::from_str(t.name.as_str()));
        texts.push(<String as StringExecFns>::from_str(t.symbol.as_str()));
        texts.push(<String as StringExecFns>::from_str(t.isin.as_str()));
        let k = SortKey { rank: 0, texts, day: 0 };
        let ghost before = keys_view(keys@);
        proof {
            assert(k@.texts =~= seq![t.name@, t.symbol@, t.isin@]);
        }
        keys.push(k);
        proof {
            assert(keys_view(keys@) =~= before.push(trade_key(*t)));
            assert(trades@.take(i + 1).map_values(|x: TradeRow| trade_key(x)) =~= before.push(trade_key(trades@[i as int])));
        }
        i = i + 1;
    }
    proof {
        assert(trades@.take(i as int) =~= trades@);
    }
    keys
}

fn amount_pair(index: usize, text: String) -> (r: (usize, String))
    ensures
        r.0 == index,
        r.1@ == text@,
{
    (index, text)
}

/// The table of one security under its heading.
#[verifier::rlimit(30)]
fn write_trade_group(out: &mut String, trades: &Vec<TradeRow>, g: &Vec<usize>)
    requires
        forall|i: int| 0 <= i < trades@.len() ==> trade_ok(#[trigger] trades@[i]),
        g@.len() > 0,
        g@.len() <= 100_000,
        forall|q: int| 0 <= q < g@.len() ==> #[trigger] g@[q] < trades@.len(),
    ensures
        ({
            let gv = index_view(g@).map_values(|i: int| trades@[i]);
            final(out)@ == table_after(
                old(out)@ + security_heading_text(gv[0].name@, gv[0].isin@, gv[0].symbol@),
                trade_columns(),
                trade_group_rows(gv),
            )
        }),
{
    let ghost sv = index_view(g@).map_values(|i: int| trades@[i]);
    let first = &trades[g[0]];
    assert(sv[0] == *first);
    security_heading(out, first.name.as_str(), first.isin.as_str(), first.symbol.as_str());
    let mut rows: Vec<Row> = Vec::new();
    let mut quantity = Decimal::zero();
    let mut gross = Decimal::zero();
    let mut commission = Decimal::zero();
    let mut net = Decimal::zero();
    let mut amount = Decimal::zero();
    let mut k: usize = 0;
    while k < g.len()
        invariant
            forall|i: int| 0 <= i < trades@.len() ==> trade_ok(#[trigger] trades@[i]),
            g@.len() <= 100_000,
            forall|q: int| 0 <= q < g@.len() ==> #[trigger] g@[q] < trades@.len(),
            sv == index_view(g@).map_values(|i: int| trades@[i]),
            k <= g@.len(),
            rows_view(rows@) == sv.take(k as int).map_values(|t: TradeRow| trade_row(t)),
            quantity == sum_signed(sv.take(k as int)) && bounded(quantity, k as int),
            gross == sum_of(sv.take(k as int), |t: TradeRow| gross_of(t)) && bounded(gross, k as int),
            commission == sum_of(sv.take(k as int), |t: TradeRow| commission_of(t)) && bounded(commission, k as int),
            net == sum_of(sv.take(k as int), |t: TradeRow| net_of(t)) && bounded(net, k as int),
            amount == sum_of(sv.take(k as int), |t: TradeRow| amount_of(t)) && bounded(amount, k as int),
        decreases g@.len() - k,
    {
        let t = &trades[g[k]];
        let sq = signed(t);
        proof {
            assert(sv.take(k + 1).drop_last() =~= sv.take(k as int));
            assert(sv.take(k + 1).last() == *t);
            assert(trade_ok(trades@[g@[k as int] as int]));
            assert(small(sq));
            lemma_sum_step(quantity, sq, k as int);
            lemma_sum_step(gross, t.gross, k as int);
            lemma_sum_step(commission, t.commission, k as int);
            lemma_sum_step(net, t.net, k as int);
            lemma_sum_step(amount, t.amount_eur, k as int);
        }
        let a1 = quantity.add(&sq);
        let a2 = gross.add(&t.gross);
        let a3 = commission.add(&t.commission);
        let a4 = net.add(&t.net);
        let a5 = amount.add(&t.amount_eur);
        proof {
            lemma_sum_bounded(quantity, sq, a1, k as int);
            lemma_sum_bounded(gross, t.gross, a2, k as int);
            lemma_sum_bounded(commission, t.commission, a3, k as int);
            lemma_sum_bounded(net, t.net, a4, k as int);
            lemma_sum_bounded(amount, t.amount_eur, a5, k as int);
        }
        quantity = a1;
        gross = a2;
        commission = a3;
        net = a4;
        amount = a5;
        let line = trade_line(t);
        let ghost before = rows_view(rows@);
        rows.push(line);
        proof {
            assert(rows_view(rows@) =~= before.push(trade_row(*t)));
            assert(sv.take(k + 1).map_values(|t: TradeRow| trade_row(t)) =~= before.push(trade_row(*t)));
        }
        k = k + 1;
    }
    proof {
        assert(sv.take(k as int) =~= sv);
        lemma_bounded_is_eur(gross, k as int);
        lemma_bounded_is_eur(commission, k as int);
        lemma_bounded_is_eur(net, k as int);
        lemma_bounded_is_eur(amount, k as int);
    }
    let mut values: Vec<(usize, String)> = Vec::new();
    values.push(amount_pair(6, qty(quantity)));
    values.push(amount_pair(8, dec2(gross)));
    values.push(amount_pair(9, dec2(commission)));
    values.push(amount_pair(10, dec2(net)));
    values.push(amount_pair(11, eur(amount)));
    let total = sum_row(RowKind::Total, "Gesamt", 12, &values);
    proof {
        assert(values@.map_values(|v: (usize, String)| (v.0 as int, v.1@)) =~= seq![
            (6int, qty_text(sum_signed(sv))),
            (8int, eur_str(sum_of(sv, |t: TradeRow| gross_of(t)))),
            (9int, eur_str(sum_of(sv, |t: TradeRow| commission_of(t)))),
            (10int, eur_str(sum_of(sv, |t: TradeRow| net_of(t)))),
            (11int, eur_str(sum_of(sv, |t: TradeRow| amount_of(t)))),
        ]);
    }
    let ghost before = rows_view(rows@);
    rows.push(total);
    proof {
        assert(rows_view(rows@) =~= trade_group_rows(sv));
    }
    let mut columns: Vec<Column> = Vec::new();
    columns.push(col("Währung", Align::Left));
    columns.push(col("EZB-Kurs", Align::Right));
    columns.push(col("Datum", Align::Left));
    columns.push(col("Valuta", Align::Left));
    columns.push(col("ID", Align::Left));
    columns.push(col("Art", Align::Left));
    columns.push(col("Menge", Align::Right));
    columns.push(col("Kurs", Align::Right));
    columns.push(col("Erlös", Align::Right));
    columns.push(col("Gebühren", Align::Right));
    columns.push(col("Netto", Align::Right));
    columns.push(col("Betrag EUR", Align::Right));
    proof {
        assert(columns_view(columns@) =~= trade_columns());
    }
    table(out, &columns, &rows);
}

pub open spec fn trades_ok(st: GermanTaxStatement) -> bool {
    &&& st.report.trades@.len() <= 100_000
    &&& forall|i: int| 0 <= i < st.report.trades@.len() ==> trade_ok(#[trigger] st.report.trades@[i])
}

/// The section: omitted without trades.
pub open spec fn trades_after(p: Seq<char>, st: GermanTaxStatement) -> Seq<char> {
    if st.report.trades@.len() == 0 {
        p
    } else {
        trade_groups_after(p + trades_intro(), trade_groups(st.report.trades@)) + "</section>\n"@
    }
}

/// Section: Wertpapiertransaktionen. Omitted without trades.
#[verifier::rlimit(30)]
pub fn trades(out: &mut String, st: &GermanTaxStatement) -> (r: bool)
    requires
        trades_ok(*st),
    ensures
        r == (st.report.trades@.len() > 0),
        final(out)@ == trades_after(old(out)@, *st),
{
    let trades = &st.report.trades;
    if trades.len() == 0 {
        return false;
    }
    write_trades_intro(out);
    let ghost start = out@;
    let keys = trade_keys(trades);
    let order = sort_order(&keys);
    let groups = split_runs(&order, &keys);
    let ghost kv = keys_view(keys@);
    let ghost gs = trade_groups(trades@);
    proof {
        assert(kv == trades@.map_values(|x: TradeRow| trade_key(x)));
        assert(kv.len() == keys@.len());
        assert(index_view(order@) == sorted_order(kv, keys@.len()));
        assert(runs_view(groups@).map_values(|g: Seq<int>| g.map_values(|i: int| trades@[i])) == gs);
    }
    let mut k: usize = 0;
    while k < groups.len()
        invariant
            trades_ok(*st),
            trades == &st.report.trades,
            gs == runs_view(groups@).map_values(|g: Seq<int>| g.map_values(|i: int| trades@[i])),
            order@.len() == trades@.len(),
            forall|g: int| 0 <= g < groups@.len() ==> (#[trigger] groups@[g])@.len() > 0 && groups@[g]@.len() <= order@.len(),
            forall|g: int, q: int| 0 <= g < groups@.len() && 0 <= q < groups@[g]@.len() ==> #[trigger] groups@[g]@[q] < keys@.len(),
            keys@.len() == trades@.len(),
            k <= groups@.len(),
            out@ == trade_groups_after(start, gs.take(k as int)),
        decreases groups@.len() - k,
    {
        let g = &groups[k];
        proof {
            assert(gs.take(k + 1).drop_last() =~= gs.take(k as int));
            assert(gs.take(k + 1).last() == index_view(g@).map_values(|i: int| trades@[i]));
        }
        write_trade_group(out, trades, g);
        k = k + 1;
    }
    proof {
        assert(gs.take(k as int) =~= gs);
    }
    section_end(out);
    proof {
        assert(out@ =~= trades_after(old(out)@, *st));
    }
    true
}

} // verus!
