//! The per-security results of the German report: for every security its dividends and its
//! sales, gains and losses apart, per asset class with subtotals.
use vstd::prelude::*;

use crate::decimal::Decimal;
use crate::tax_statement::germany::report_details::{category_of, AssetCategory, SecurityRow};
use crate::tax_statement::germany::statement::{CapitalGainEntry, DividendEntry, GermanTaxStatement};
use crate::tax_statement::html::builder::{
    b, bold, col, columns_view, empty_cell, escape_html, h3, h3_text, num_cell, p, p_text, push_cell, rows_view,
    section_end, section_start, section_start_text, table, table_after, text_cell, Align, Cell, Column,
    ColumnView, Row, RowKind, RowView,
};
use crate::tax_statement::html::grouping::{
    index_view, keys_view, lemma_runs_total, lemma_total_len_map, lemma_total_len_take, runs, runs_view,
    sort_order, sorted_order, split_runs, total_len, KeyView, SortKey,
};
use crate::text::text_eq;

use super::activity_section::class_of;
use super::format::{category_label, category_text, eur};
use super::fund_section::{
    bounded, lemma_bounded_add, lemma_bounded_is_eur, lemma_bounded_more, lemma_sum_bounded, lemma_sum_step,
    small,
};
use super::sales_section::{category_rank, category_rank_of};
use super::summary::eur_str;

verus! {

/// The display name of a symbol: that of the last security listed with it, else the symbol.
pub open spec fn name_of(secs: Seq<SecurityRow>, symbol: Seq<char>) -> Seq<char>
    decreases secs.len(),
{
    if secs.len() == 0 {
        symbol
    } else if secs.last().symbol@ == symbol {
        secs.last().name@
    } else {
        name_of(secs.drop_last(), symbol)
    }
}

pub fn security_name(secs: &Vec<SecurityRow>, symbol: &str) -> (r: String)
    ensures
        r@ == name_of(secs@, symbol@),
{
    let mut i: usize = secs.len();
    assert(secs@.take(secs@.len() as int) =~= secs@);
    while i > 0
        invariant
            i <= secs@.len(),
            name_of(secs@, symbol@) == name_of(secs@.take(i as int), symbol@),
        decreases i,
    {
        proof {
            assert(secs@.take(i as int).drop_last() =~= secs@.take(i - 1));
            assert(secs@.take(i as int).last() == secs@[i - 1]);
        }
        i = i - 1;
        if text_eq(secs[i].symbol.as_str(), symbol) {
            return <String as StringExecFns>::from_str(secs[i].name.as_str());
        }
    }
    assert(secs@.take(0) =~= Seq::<SecurityRow>::empty());
    <String as StringExecFns>::from_str(symbol)
}

/// A sale or a dividend as the section sees it.
pub struct ItemView {
    pub category: AssetCategory,
    pub name: Seq<char>,
    pub symbol: Seq<char>,
    pub isin: Seq<char>,
    pub dividend: bool,
    pub amount: Decimal,
}

pub struct SecItem {
    pub category: AssetCategory,
    pub name: String,
    pub symbol: String,
    pub isin: String,
    pub dividend: bool,
    pub amount: Decimal,
}

impl View for SecItem {
    type V = ItemView;

    open spec fn view(&self) -> ItemView {
        ItemView {
            category: self.category,
            name: self.name@,
            symbol: self.symbol@,
            isin: self.isin@,
            dividend: self.dividend,
            amount: self.amount,
        }
    }
}

pub open spec fn items_view(v: Seq<SecItem>) -> Seq<ItemView> {
    v.map_values(|x: SecItem| x@)
}

pub open spec fn gain_item(secs: Seq<SecurityRow>, e: CapitalGainEntry) -> ItemView {
    ItemView {
        category: category_of(e.teilfreistellung_rate),
        name: name_of(secs, e.symbol@),
        symbol: e.symbol@,
        isin: e.isin@,
        dividend: false,
        amount: e.gross_gain_loss,
    }
}

pub open spec fn dividend_item(secs: Seq<SecurityRow>, e: DividendEntry) -> ItemView {
    ItemView {
        category: category_of(e.teilfreistellung_rate),
        name: name_of(secs, e.symbol@),
        symbol: e.symbol@,
        isin: e.isin@,
        dividend: true,
        amount: e.gross_amount_eur,
    }
}

/// The sales, then the dividends, in statement order.
pub open spec fn items_of(st: GermanTaxStatement) -> Seq<ItemView> {
    let secs = st.report.securities@;
    st.capital_gains@.map_values(|e: CapitalGainEntry| gain_item(secs, e)) + st.dividends@.map_values(
        |e: DividendEntry| dividend_item(secs, e),
    )
}

/// Items grouped by asset class, then by (name, symbol, ISIN).
pub open spec fn item_key(it: ItemView) -> KeyView {
    KeyView { rank: category_rank(it.category), texts: seq![it.name, it.symbol, it.isin], day: 0 }
}

pub open spec fn security_groups(items: Seq<ItemView>) -> Seq<Seq<ItemView>> {
    let keys = items.map_values(|x: ItemView| item_key(x));
    runs(sorted_order(keys, items.len()), keys).map_values(|g: Seq<int>| g.map_values(|i: int| items[i]))
}

/// An amount added to a (gain, loss) pair: to the gain when not negative, else to the loss.
pub open spec fn add_pair(slot: Option<(Decimal, Decimal)>, amount: Decimal) -> Option<(Decimal, Decimal)> {
    let (g, l) = match slot {
        Some(p) => p,
        None => (Decimal::spec_zero(), Decimal::spec_zero()),
    };
    Some(if amount.units() >= 0 { (g.spec_add(amount), l) } else { (g, l.spec_add(amount)) })
}

/// The dividends (or the sales) of a security as gain and loss; none when it had none.
pub open spec fn result_of(g: Seq<ItemView>, dividend: bool) -> Option<(Decimal, Decimal)>
    decreases g.len(),
{
    if g.len() == 0 {
        None
    } else {
        let r = result_of(g.drop_last(), dividend);
        if g.last().dividend == dividend {
            add_pair(r, g.last().amount)
        } else {
            r
        }
    }
}

pub open spec fn pair_row(kind: RowKind, name: Seq<char>, isin: Seq<char>, label: Seq<char>, p: (Decimal, Decimal)) -> RowView {
    RowView {
        kind,
        cells: seq![
            text_cell(name),
            text_cell(isin),
            text_cell(label),
            num_cell(eur_str(p.0)),
            num_cell(eur_str(p.1)),
            num_cell(eur_str(p.0.spec_add(p.1))),
        ],
    }
}

/// The lines of one security: its dividends, then its sales, each when there are any.
pub open spec fn security_lines(g: Seq<ItemView>) -> Seq<RowView> {
    (match result_of(g, true) {
        Some(p) => seq![pair_row(RowKind::Data, g[0].name, g[0].isin, "Dividenden"@, p)],
        None => Seq::empty(),
    }) + (match result_of(g, false) {
        Some(p) => seq![pair_row(RowKind::Data, g[0].name, g[0].isin, "Veräußerungen"@, p)],
        None => Seq::empty(),
    })
}

pub open spec fn add_result(acc: (Decimal, Decimal), r: Option<(Decimal, Decimal)>) -> (Decimal, Decimal) {
    match r {
        Some(p) => (acc.0.spec_add(p.0), acc.1.spec_add(p.1)),
        None => acc,
    }
}

pub open spec fn nonzero_pair(p: (Decimal, Decimal)) -> bool {
    p.0.units() != 0 || p.1.units() != 0
}

pub open spec fn subtotal_row(label: Seq<char>, p: (Decimal, Decimal)) -> RowView {
    RowView {
        kind: RowKind::Subtotal,
        cells: seq![
            text_cell(label),
            empty_cell(),
            empty_cell(),
            num_cell(eur_str(p.0)),
            num_cell(eur_str(p.1)),
            num_cell(eur_str(p.0.spec_add(p.1))),
        ],
    }
}

/// The closing lines of an asset class: the dividend and the sale subtotals when not zero, then
/// the total.
pub open spec fn closing_rows(d: (Decimal, Decimal), s: (Decimal, Decimal)) -> Seq<RowView> {
    (if nonzero_pair(d) {
        seq![subtotal_row("Gesamt – Dividenden"@, d)]
    } else {
        Seq::empty()
    }) + (if nonzero_pair(s) {
        seq![subtotal_row("Gesamt – Veräußerungen"@, s)]
    } else {
        Seq::empty()
    }) + seq![
        RowView {
            kind: RowKind::Total,
            cells: seq![
                text_cell("Gesamt"@),
                empty_cell(),
                empty_cell(),
                num_cell(eur_str(d.0.spec_add(s.0))),
                num_cell(eur_str(d.1.spec_add(s.1))),
                num_cell(eur_str(d.0.spec_add(s.0).spec_add(d.1).spec_add(s.1))),
            ],
        },
    ]
}

pub open spec fn security_columns() -> Seq<ColumnView> {
    seq![
        ColumnView { title: "Name"@, align: Align::Left },
        ColumnView { title: "ISIN"@, align: Align::Left },
        ColumnView { title: "Aktivität"@, align: Align::Left },
        ColumnView { title: "Gewinn EUR"@, align: Align::Right },
        ColumnView { title: "Verlust EUR"@, align: Align::Right },
        ColumnView { title: "G/V EUR"@, align: Align::Right },
    ]
}

pub open spec fn close_table(w: Seq<char>, rows: Seq<RowView>, d: (Decimal, Decimal), s: (Decimal, Decimal)) -> Seq<char> {
    table_after(w, security_columns(), rows + closing_rows(d, s))
}

pub open spec fn zero_pair() -> (Decimal, Decimal) {
    (Decimal::spec_zero(), Decimal::spec_zero())
}

/// After the first `gs.len()` securities: the text written, the rows of the open table and the
/// dividend and sale sums of its asset class. A new asset class closes the open table and starts
/// its own under a heading.
pub open spec fn tables_state(p: Seq<char>, gs: Seq<Seq<ItemView>>) -> (
    Seq<char>,
    Seq<RowView>,
    (Decimal, Decimal),
    (Decimal, Decimal),
)
    decreases gs.len(),
{
    if gs.len() == 0 {
        (p, Seq::empty(), zero_pair(), zero_pair())
    } else {
        let prev = tables_state(p, gs.drop_last());
        let g = gs.last();
        let k = gs.len() - 1;
        let opened = if k == 0 {
            (prev.0 + h3_text(category_text(g[0].category)), Seq::<RowView>::empty(), zero_pair(), zero_pair())
        } else if gs[k - 1][0].category != g[0].category {
            (
                close_table(prev.0, prev.1, prev.2, prev.3) + h3_text(category_text(g[0].category)),
                Seq::<RowView>::empty(),
                zero_pair(),
                zero_pair(),
            )
        } else {
            prev
        };
        (
            opened.0,
            opened.1 + security_lines(g),
            add_result(opened.2, result_of(g, true)),
            add_result(opened.3, result_of(g, false)),
        )
    }
}

pub open spec fn security_tables_after(p: Seq<char>, gs: Seq<Seq<ItemView>>) -> Seq<char> {
    if gs.len() == 0 {
        p
    } else {
        let s = tables_state(p, gs);
        close_table(s.0, s.1, s.2, s.3)
    }
}

#[verifier::opaque]
pub open spec fn security_intro() -> Seq<char> {
    section_start_text("wertpapiere"@, "Gewinne und Verluste nach Wertpapier"@) + p_text(
        "Diese Tabelle zeigt eine "@ + bold("detaillierte Aufschlüsselung aller realisierten Gewinne und Verluste"@)
            + " des Steuerjahres – "@ + bold("gruppiert nach einzelnen Wertpapieren"@)
            + ". Für jedes Wertpapier wird der "@ + bold("Gewinn, Verlust und Gesamtsaldo in EUR"@) + " \
             dargestellt, zusätzlich aufgeschlüsselt nach "@ + bold("Aktivitätsart"@) + " (Veräußerungen, Dividenden). Beträge \
             sind Bruttowerte vor Teilfreistellung."@,
    ) + p_text(
        "Diese Übersicht eignet sich besonders zur "@ + bold("Plausibilitätsprüfung"@) + " der Steuerwerte und zur detaillierten \
             Dokumentation für das Finanzamt."@,
    )
}

fn write_security_intro(out: &mut String)
    ensures
        final(out)@ == old(out)@ + security_intro(),
{
    section_start(out, "wertpapiere", "Gewinne und Verluste nach Wertpapier");
    let mut text = <String as StringExecFns>::from_str("Diese Tabelle zeigt eine ");
    text.append(b("detaillierte Aufschlüsselung aller realisierten Gewinne und Verluste").as_str());
    text.append(" des Steuerjahres – ");
    text.append(b("gruppiert nach einzelnen Wertpapieren").as_str());
    text.append(". Für jedes Wertpapier wird der ");
    text.append(b("Gewinn, Verlust und Gesamtsaldo in EUR").as_str());
    text.append(" \
             dargestellt, zusätzlich aufgeschlüsselt nach ");
    text.append(b("Aktivitätsart").as_str());
    text.append(" (Veräußerungen, Dividenden). Beträge \
             sind Bruttowerte vor Teilfreistellung.");
    p(out, text.as_str());
    let mut text2 = <String as StringExecFns>::from_str("Diese Übersicht eignet sich besonders zur ");
    text2.append(b("Plausibilitätsprüfung").as_str());
    text2.append(" der Steuerwerte und zur detaillierten \
             Dokumentation für das Finanzamt.");
    p(out, text2.as_str());
    assert(out@ =~= old(out)@ + security_intro()) by {
        reveal(security_intro);
    }
}

/// At most 10 000 sales and 10 000 dividends, each amount at most a trillion.
pub open spec fn security_ok(st: GermanTaxStatement) -> bool {
    &&& st.capital_gains@.len() <= 10_000 && st.dividends@.len() <= 10_000
    &&& forall|i: int| 0 <= i < st.capital_gains@.len() ==> small(#[trigger] st.capital_gains@[i].gross_gain_loss)
    &&& forall|i: int| 0 <= i < st.dividends@.len() ==> small(#[trigger] st.dividends@[i].gross_amount_eur)
}

/// The section: omitted without sales and dividends.
pub open spec fn security_after(p: Seq<char>, st: GermanTaxStatement) -> Seq<char> {
    if st.capital_gains@.len() == 0 && st.dividends@.len() == 0 {
        p
    } else {
        security_tables_after(p + security_intro(), security_groups(items_of(st))) + "</section>\n"@
    }
}

fn collect_items(st: &GermanTaxStatement) -> (r: Vec<SecItem>)
    requires
        security_ok(*st),
    ensures
        items_view(r@) == items_of(*st),
        r@.len() <= 20_000,
        forall|i: int| 0 <= i < r@.len() ==> small(#[trigger] r@[i].amount),
{
    let ghost secs = st.report.securities@;
    let mut items: Vec<SecItem> = Vec::new();
    let mut i: usize = 0;
    while i < st.capital_gains.len()
        invariant
            security_ok(*st),
            secs == st.report.securities@,
            i <= st.capital_gains@.len(),
            items_view(items@) == st.capital_gains@.take(i as int).map_values(|e: CapitalGainEntry| gain_item(secs, e)),
            forall|j: int| 0 <= j < items@.len() ==> small(#[trigger] items@[j].amount),
        decreases st.capital_gains@.len() - i,
    {
        let e = &st.capital_gains[i];
        let it = SecItem {
            category: class_of(e.teilfreistellung_rate),
            name: security_name(&st.report.securities, e.symbol.as_str()),
            symbol: <String as StringExecFns>::from_str(e.symbol.as_str()),
            isin: <String as StringExecFns>::from_str(e.isin.as_str()),
            dividend: false,
            amount: e.gross_gain_loss,
        };
        let ghost before = items_view(items@);
        proof {
            assert(small(st.capital_gains@[i as int].gross_gain_loss));
        }
        items.push(it);
        proof {
            assert(items_view(items@) =~= before.push(gain_item(secs, *e)));
            assert(st.capital_gains@.take(i + 1).map_values(|e: CapitalGainEntry| gain_item(secs, e)) =~= before.push(
                gain_item(secs, *e),
            ));
        }
        i = i + 1;
    }
    proof {
        assert(st.capital_gains@.take(i as int) =~= st.capital_gains@);
    }
    let ghost gains = items_view(items@);
    let mut j: usize = 0;
    while j < st.dividends.len()
        invariant
            security_ok(*st),
            secs == st.report.securities@,
            j <= st.dividends@.len(),
            gains == st.capital_gains@.map_values(|e: CapitalGainEntry| gain_item(secs, e)),
            items_view(items@) == gains + st.dividends@.take(j as int).map_values(|e: DividendEntry| dividend_item(secs, e)),
            forall|q: int| 0 <= q < items@.len() ==> small(#[trigger] items@[q].amount),
        decreases st.dividends@.len() - j,
    {
        let e = &st.dividends[j];
        let it = SecItem {
            category: class_of(e.teilfreistellung_rate),
            name: security_name(&st.report.securities, e.symbol.as_str()),
            symbol: <String as StringExecFns>::from_str(e.symbol.as_str()),
            isin: <String as StringExecFns>::from_str(e.isin.as_str()),
            dividend: true,
            amount: e.gross_amount_eur,
        };
        let ghost before = items_view(items@);
        proof {
            assert(small(st.dividends@[j as int].gross_amount_eur));
        }
        items.push(it);
        proof {
            assert(items_view(items@) =~= before.push(dividend_item(secs, *e)));
            assert(gains + st.dividends@.take(j + 1).map_values(|e: DividendEntry| dividend_item(secs, e)) =~= before.push(
                dividend_item(secs, *e),
            ));
        }
        j = j + 1;
    }
    proof {
        assert(st.dividends@.take(j as int) =~= st.dividends@);
        assert(items_view(items@).len() == items@.len());
    }
    items
}

fn item_keys(items: &Vec<SecItem>) -> (r: Vec<SortKey>)
    ensures
        keys_view(r@) == items_view(items@).map_values(|x: ItemView| item_key(x)),
{
    let ghost iv = items_view(items@);
    let mut keys: Vec<SortKey> = Vec::new();
    let mut i: usize = 0;
    while i < items.len()
        invariant
            iv == items_view(items@),
            i <= items@.len(),
            keys_view(keys@) == iv.take(i as int).map_values(|x: ItemView| item_key(x)),
        decreases items@.len() - i,
    {
        let it = &items[i];
        let mut texts: Vec<String> = Vec::new();
        texts.push(<String as StringExecFns>::from_str(it.name.as_str()));
        texts.push(<String as StringExecFns>::from_str(it.symbol.as_str()));
        texts.push(<String as StringExecFns>::from_str(it.isin.as_str()));
        let k = SortKey { rank: category_rank_of(it.category), texts, day: 0 };
        let ghost before = keys_view(keys@);
        proof {
            assert(k@.texts =~= seq![it.name@, it.symbol@, it.isin@]);
        }
        keys.push(k);
        proof {
            assert(keys_view(keys@) =~= before.push(item_key(it@)));
            assert(iv.take(i + 1).map_values(|x: ItemView| item_key(x)) =~= before.push(item_key(iv[i as int])));
        }
        i = i + 1;
    }
    proof {
        assert(iv.take(i as int) =~= iv);
    }
    keys
}

/// The dividends (or the sales) of one security.
fn group_result(items: &Vec<SecItem>, g: &Vec<usize>, dividend: bool) -> (r: Option<(Decimal, Decimal)>)
    requires
        forall|i: int| 0 <= i < items@.len() ==> small(#[trigger] items@[i].amount),
        g@.len() <= 100_000,
        forall|q: int| 0 <= q < g@.len() ==> #[trigger] g@[q] < items@.len(),
    ensures
        r == result_of(index_view(g@).map_values(|i: int| items_view(items@)[i]), dividend),
        r matches Some(p) ==> bounded(p.0, g@.len() as int) && bounded(p.1, g@.len() as int),
{
    let ghost sv = index_view(g@).map_values(|i: int| items_view(items@)[i]);
    let mut r: Option<(Decimal, Decimal)> = None;
    let mut k: usize = 0;
    while k < g.len()
        invariant
            forall|i: int| 0 <= i < items@.len() ==> small(#[trigger] items@[i].amount),
            g@.len() <= 100_000,
            forall|q: int| 0 <= q < g@.len() ==> #[trigger] g@[q] < items@.len(),
            sv == index_view(g@).map_values(|i: int| items_view(items@)[i]),
            k <= g@.len(),
            r == result_of(sv.take(k as int), dividend),
            r matches Some(p) ==> bounded(p.0, k as int) && bounded(p.1, k as int),
        decreases g@.len() - k,
    {
        let it = &items[g[k]];
        proof {
            assert(sv.take(k + 1).drop_last() =~= sv.take(k as int));
            assert(sv.take(k + 1).last() == it@);
            assert(small(items@[g@[k as int] as int].amount));
        }
        if it.dividend == dividend {
            let (gain, loss) = match r {
                Some(p) => p,
                None => {
                    let z = Decimal::zero();
                    proof {
                        crate::decimal::Decimal::lemma_spec_zero();
                        lemma_bounded_more(z, 0, k as int);
                    }
                    (z, z)
                },
            };
            let zero = Decimal::zero();
            proof {
                crate::decimal::Decimal::lemma_spec_zero();
            }
            if zero.le(&it.amount) {
                proof {
                    lemma_sum_step(gain, it.amount, k as int);
                }
                let a = gain.add(&it.amount);
                proof {
                    lemma_sum_bounded(gain, it.amount, a, k as int);
                    lemma_bounded_more(loss, k as int, k + 1);
                }
                r = Some((a, loss));
            } else {
                proof {
                    lemma_sum_step(loss, it.amount, k as int);
                }
                let a = loss.add(&it.amount);
                proof {
                    lemma_sum_bounded(loss, it.amount, a, k as int);
                    lemma_bounded_more(gain, k as int, k + 1);
                }
                r = Some((gain, a));
            }
        } else {
            proof {
                if let Some(p) = r {
                    lemma_bounded_more(p.0, k as int, k + 1);
                    lemma_bounded_more(p.1, k as int, k + 1);
                }
            }
        }
        k = k + 1;
    }
    proof {
        assert(sv.take(k as int) =~= sv);
    }
    r
}

fn pair_line(kind: RowKind, name: &str, isin: &str, label: &str, p: (Decimal, Decimal), Ghost(k): Ghost<int>) -> (row: Row)
    requires
        0 <= k <= 200_000,
        bounded(p.0, k),
        bounded(p.1, k),
    ensures
        row@ == pair_row(kind, name@, isin@, label@, p),
{
    proof {
        lemma_bounded_is_eur(p.0, k);
        lemma_bounded_is_eur(p.1, k);
        lemma_bounded_add(p.0, k, p.1, k);
    }
    let net = p.0.add(&p.1);
    proof {
        lemma_bounded_is_eur(net, 2 * k + 1);
    }
    let mut cells: Vec<Cell> = Vec::new();
    push_cell(&mut cells, Cell::text(name));
    push_cell(&mut cells, Cell::text(isin));
    push_cell(&mut cells, Cell::text(label));
    push_cell(&mut cells, Cell::num(eur(p.0).as_str()));
    push_cell(&mut cells, Cell::num(eur(p.1).as_str()));
    push_cell(&mut cells, Cell::num(eur(net).as_str()));
    let row = Row { kind, cells };
    assert(row@.cells =~= pair_row(kind, name@, isin@, label@, p).cells);
    row
}

/// The lines of one security appended; its dividend and sale results returned.
fn push_security_lines(lines: &mut Vec<Row>, items: &Vec<SecItem>, g: &Vec<usize>) -> (r: (
    Option<(Decimal, Decimal)>,
    Option<(Decimal, Decimal)>,
))
    requires
        forall|i: int| 0 <= i < items@.len() ==> small(#[trigger] items@[i].amount),
        0 < g@.len() <= 100_000,
        forall|q: int| 0 <= q < g@.len() ==> #[trigger] g@[q] < items@.len(),
    ensures
        ({
            let gv = index_view(g@).map_values(|i: int| items_view(items@)[i]);
            &&& rows_view(final(lines)@) == rows_view(old(lines)@) + security_lines(gv)
            &&& r.0 == result_of(gv, true)
            &&& r.1 == result_of(gv, false)
            &&& (r.0 matches Some(p) ==> bounded(p.0, g@.len() as int) && bounded(p.1, g@.len() as int))
            &&& (r.1 matches Some(p) ==> bounded(p.0, g@.len() as int) && bounded(p.1, g@.len() as int))
        }),
{
    let ghost gv = index_view(g@).map_values(|i: int| items_view(items@)[i]);
    let ghost start = rows_view(lines@);
    let first = &items[g[0]];
    assert(gv[0] == first@);
    let d = group_result(items, g, true);
    let s = group_result(items, g, false);
    match d {
        Some(p) => {
            let line = pair_line(RowKind::Data, first.name.as_str(), first.isin.as_str(), "Dividenden", p, Ghost(g@.len() as int));
            lines.push(line);
        },
        None => {},
    }
    let ghost mid = rows_view(lines@);
    match s {
        Some(p) => {
            let line = pair_line(RowKind::Data, first.name.as_str(), first.isin.as_str(), "Veräußerungen", p, Ghost(g@.len() as int));
            lines.push(line);
        },
        None => {},
    }
    assert(rows_view(lines@) =~= start + security_lines(gv));
    (d, s)
}

fn add_to(acc: (Decimal, Decimal), r: Option<(Decimal, Decimal)>, Ghost(a): Ghost<int>, Ghost(b): Ghost<int>) -> (out: (Decimal, Decimal))
    requires
        0 <= a,
        0 <= b,
        a + b <= 1_000_000,
        bounded(acc.0, a),
        bounded(acc.1, a),
        r matches Some(p) ==> bounded(p.0, b) && bounded(p.1, b),
    ensures
        out == add_result(acc, r),
        bounded(out.0, a + b + 1),
        bounded(out.1, a + b + 1),
{
    match r {
        Some(p) => {
            proof {
                lemma_bounded_add(acc.0, a, p.0, b);
                lemma_bounded_add(acc.1, a, p.1, b);
            }
            (acc.0.add(&p.0), acc.1.add(&p.1))
        },
        None => {
            proof {
                lemma_bounded_more(acc.0, a, a + b + 1);
                lemma_bounded_more(acc.1, a, a + b + 1);
            }
            acc
        },
    }
}

fn security_column_list() -> (r: Vec<Column>)
    ensures
        columns_view(r@) == security_columns(),
{
    let mut columns: Vec<Column> = Vec::new();
    columns.push(col("Name", Align::Left));
    columns.push(col("ISIN", Align::Left));
    columns.push(col("Aktivität", Align::Left));
    columns.push(col("Gewinn EUR", Align::Right));
    columns.push(col("Verlust EUR", Align::Right));
    columns.push(col("G/V EUR", Align::Right));
    assert(columns_view(columns@) =~= security_columns());
    columns
}

fn total_line(d: (Decimal, Decimal), s: (Decimal, Decimal)) -> (row: Row)
    requires
        bounded(d.0, 50_000),
        bounded(d.1, 50_000),
        bounded(s.0, 50_000),
        bounded(s.1, 50_000),
    ensures
        row@ == closing_rows(d, s).last(),
{
    proof {
        lemma_bounded_add(d.0, 50_000, s.0, 50_000);
        lemma_bounded_add(d.1, 50_000, s.1, 50_000);
    }
    let gain = d.0.add(&s.0);
    let loss = d.1.add(&s.1);
    proof {
        lemma_bounded_is_eur(gain, 100_001);
        lemma_bounded_is_eur(loss, 100_001);
        lemma_bounded_add(gain, 100_001, d.1, 50_000);
    }
    let t1 = gain.add(&d.1);
    proof {
        lemma_bounded_add(t1, 150_002, s.1, 50_000);
    }
    let t2 = t1.add(&s.1);
    proof {
        lemma_bounded_is_eur(t2, 200_003);
    }
    let mut cells: Vec<Cell> = Vec::new();
    push_cell(&mut cells, Cell::text("Gesamt"));
    push_cell(&mut cells, Cell::empty());
    push_cell(&mut cells, Cell::empty());
    push_cell(&mut cells, Cell::num(eur(gain).as_str()));
    push_cell(&mut cells, Cell::num(eur(loss).as_str()));
    push_cell(&mut cells, Cell::num(eur(t2).as_str()));
    let row = Row::total(cells);
    assert(row@.cells =~= closing_rows(d, s).last().cells);
    row
}

/// Close the open table: the subtotals and the total, then the table itself.
fn write_security_table(out: &mut String, lines: &mut Vec<Row>, d: (Decimal, Decimal), s: (Decimal, Decimal))
    requires
        bounded(d.0, 50_000),
        bounded(d.1, 50_000),
        bounded(s.0, 50_000),
        bounded(s.1, 50_000),
    ensures
        final(out)@ == close_table(old(out)@, rows_view(old(lines)@), d, s),
{
    let ghost start = rows_view(lines@);
    if !(d.0.is_zero() && d.1.is_zero()) {
        let line = pair_line(RowKind::Subtotal, "Gesamt – Dividenden", "", "", d, Ghost(50_000));
        lines.push(line);
    }
    let ghost mid = rows_view(lines@);
    if !(s.0.is_zero() && s.1.is_zero()) {
        let line = pair_line(RowKind::Subtotal, "Gesamt – Veräußerungen", "", "", s, Ghost(50_000));
        lines.push(line);
    }
    let ghost before_total = rows_view(lines@);
    let total = total_line(d, s);
    lines.push(total);
    proof {
        reveal_strlit("");
        assert(escape_html(""@) =~= Seq::<char>::empty());
        assert(text_cell(""@) == empty_cell());
        assert(pair_row(RowKind::Subtotal, "Gesamt – Dividenden"@, ""@, ""@, d).cells =~= subtotal_row(
            "Gesamt – Dividenden"@,
            d,
        ).cells);
        assert(pair_row(RowKind::Subtotal, "Gesamt – Veräußerungen"@, ""@, ""@, s).cells =~= subtotal_row(
            "Gesamt – Veräußerungen"@,
            s,
        ).cells);
        assert(rows_view(lines@) =~= start + closing_rows(d, s));
    }
    let columns = security_column_list();
    table(out, &columns, lines);
}


/// Every table of the section, one per asset class.
#[verifier::rlimit(60)]
fn write_security_tables(out: &mut String, items: &Vec<SecItem>)
    requires
        0 < items@.len() <= 20_000,
        forall|i: int| 0 <= i < items@.len() ==> small(#[trigger] items@[i].amount),
    ensures
        final(out)@ == security_tables_after(old(out)@, security_groups(items_view(items@))),
{
    let ghost iv = items_view(items@);
    let keys = item_keys(items);
    let order = sort_order(&keys);
    let groups = split_runs(&order, &keys);
    let ghost kv = keys_view(keys@);
    let ghost gs = security_groups(iv);
    let ghost start = out@;
    proof {
        assert(kv == iv.map_values(|x: ItemView| item_key(x)));
        assert(kv.len() == keys@.len());
        assert(index_view(order@) == sorted_order(kv, keys@.len()));
        let rs = runs(sorted_order(kv, iv.len()), kv);
        assert(runs_view(groups@).map_values(|g: Seq<int>| g.map_values(|i: int| iv[i])) == gs);
        lemma_runs_total(sorted_order(kv, iv.len()), kv);
        lemma_total_len_map(rs, gs);
    }
    let mut lines: Vec<Row> = Vec::new();
    let mut d = (Decimal::zero(), Decimal::zero());
    let mut s = (Decimal::zero(), Decimal::zero());
    proof {
        crate::decimal::Decimal::lemma_spec_zero();
    }
    let mut k: usize = 0;
    while k < groups.len()
        invariant
            forall|i: int| 0 <= i < items@.len() ==> small(#[trigger] items@[i].amount),
            iv == items_view(items@),
            items@.len() <= 20_000,
            gs == runs_view(groups@).map_values(|g: Seq<int>| g.map_values(|i: int| iv[i])),
            total_len(gs) == items@.len(),
            order@.len() == items@.len(),
            forall|g: int| 0 <= g < groups@.len() ==> (#[trigger] groups@[g])@.len() > 0 && groups@[g]@.len() <= order@.len(),
            forall|g: int, q: int| 0 <= g < groups@.len() && 0 <= q < groups@[g]@.len() ==> #[trigger] groups@[g]@[q] < keys@.len(),
            keys@.len() == items@.len(),
            k <= groups@.len(),
            (out@, rows_view(lines@), d, s) == tables_state(start, gs.take(k as int)),
            bounded(d.0, total_len(gs.take(k as int)) + k),
            bounded(d.1, total_len(gs.take(k as int)) + k),
            bounded(s.0, total_len(gs.take(k as int)) + k),
            bounded(s.1, total_len(gs.take(k as int)) + k),
            k <= total_len(gs.take(k as int)) <= items@.len(),
        decreases groups@.len() - k,
    {
        let g = &groups[k];
        let first = &items[g[0]];
        let ghost gv = index_view(g@).map_values(|i: int| iv[i]);
        let ghost a = total_len(gs.take(k as int)) + k;
        proof {
            assert(gs.take(k + 1).drop_last() =~= gs.take(k as int));
            assert(gs.take(k + 1).last() == gv);
            assert(gs[k as int] == gv);
            assert(gv[0] == first@);
            lemma_total_len_take(gs, k as int);
            lemma_total_len_take(gs, k + 1);
            assert(gv.len() == g@.len());
        }
        let fresh = if k == 0 {
            true
        } else {
            let pg = &groups[k - 1];
            let prev = &items[pg[0]];
            proof {
                assert(gs.take(k + 1)[k - 1] == gs[k - 1]);
                assert(gs[k - 1][0] == prev@);
            }
            !(prev.category == first.category)
        };
        if fresh {
            if k > 0 {
                proof {
                    lemma_bounded_more(d.0, a, 50_000);
                    lemma_bounded_more(d.1, a, 50_000);
                    lemma_bounded_more(s.0, a, 50_000);
                    lemma_bounded_more(s.1, a, 50_000);
                }
                write_security_table(out, &mut lines, d, s);
            }
            h3(out, category_label(first.category));
            lines = Vec::new();
            d = (Decimal::zero(), Decimal::zero());
            s = (Decimal::zero(), Decimal::zero());
            proof {
                crate::decimal::Decimal::lemma_spec_zero();
                lemma_bounded_more(d.0, 0, a);
                lemma_bounded_more(d.1, 0, a);
                lemma_bounded_more(s.0, 0, a);
                lemma_bounded_more(s.1, 0, a);
            }
            assert(rows_view(lines@) =~= Seq::<RowView>::empty());
        }
        proof {
            assert(out@ =~= tables_state(start, gs.take(k + 1)).0);
        }
        let r = push_security_lines(&mut lines, items, g);
        d = add_to(d, r.0, Ghost(a), Ghost(g@.len() as int));
        s = add_to(s, r.1, Ghost(a), Ghost(g@.len() as int));
        proof {
            assert(rows_view(lines@) == tables_state(start, gs.take(k + 1)).1);
        }
        k = k + 1;
    }
    proof {
        assert(gs.take(k as int) =~= gs);
        assert(gs.len() > 0);
        lemma_bounded_more(d.0, total_len(gs) + k, 50_000);
        lemma_bounded_more(d.1, total_len(gs) + k, 50_000);
        lemma_bounded_more(s.0, total_len(gs) + k, 50_000);
        lemma_bounded_more(s.1, total_len(gs) + k, 50_000);
    }
    write_security_table(out, &mut lines, d, s);
}

/// Section: Gewinne und Verluste nach Wertpapier. Omitted without sales and dividends.
pub fn by_security(out: &mut String, st: &GermanTaxStatement) -> (r: bool)
    requires
        security_ok(*st),
    ensures
        r == (st.capital_gains@.len() > 0 || st.dividends@.len() > 0),
        final(out)@ == security_after(old(out)@, *st),
{
    if st.capital_gains.len() == 0 && st.dividends.len() == 0 {
        return false;
    }
    let items = collect_items(st);
    proof {
        assert(items_view(items@).len() == items@.len());
        assert(items_of(*st).len() == st.capital_gains@.len() + st.dividends@.len());
    }
    write_security_intro(out);
    write_security_tables(out, &items);
    section_end(out);
    true
}

} // verus!
