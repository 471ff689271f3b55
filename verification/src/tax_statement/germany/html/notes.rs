//! The notes section of the German report: warnings about what the statement could not cover, the
//! notes the processor attached to single positions, corporate actions, stock and cash grants, and
//! the method and its limits.
use vstd::prelude::*;

use crate::date::{dotted_text, valid_date, Date};
use crate::decimal::Decimal;
use crate::tax_statement::eur::eur_ok;
use crate::tax_statement::germany::statement::{action_label, GermanTaxStatement};
use crate::tax_statement::html::builder::{
    col, columns_view, empty_cell, escape, escape_html, h3, h3_text, list_items, note, note_text,
    num_cell, p, p_text, rows_view, section_end, section_start, section_start_text, strings_view,
    table, table_after, text_cell, ul, ul_text, Align, Cell, Column, ColumnView, Row, RowKind,
    RowView,
};
use crate::tax_statement::germany::statement::{
    CapitalGainEntry, CashGrantEntry, CorporateActionEntry, DividendEntry, StockGrantEntry,
};
use crate::tax_statement::html::format::punctuated;
use crate::text::text_eq;

use super::format::{date, eur, qty};
use super::summary::eur_str;
use super::ReportMeta;

verus! {

/// `items` joined by `sep`.
pub open spec fn joined(items: Seq<Seq<char>>, sep: Seq<char>) -> Seq<char>
    decreases items.len(),
{
    if items.len() == 0 {
        Seq::empty()
    } else if items.len() == 1 {
        items[0]
    } else {
        joined(items.drop_last(), sep) + sep + items.last()
    }
}

/// Join texts with a separator.
pub fn join(items: &Vec<String>, sep: &str) -> (r: String)
    ensures
        r@ == joined(strings_view(items@), sep@),
{
    let mut r = String::new();
    let mut i: usize = 0;
    while i < items.len()
        invariant
            i <= items@.len(),
            r@ == joined(strings_view(items@.take(i as int)), sep@),
        decreases items@.len() - i,
    {
        proof {
            assert(strings_view(items@.take(i + 1)).drop_last() =~= strings_view(items@.take(i as int)));
        }
        if i > 0 {
            r.append(sep);
        } else {
            assert(strings_view(items@.take(1)) =~= seq![items@[0]@]);
        }
        r.append(items[i].as_str());
        i = i + 1;
    }
    proof {
        assert(strings_view(items@.take(i as int)) =~= strings_view(items@));
    }
    r
}

/// Consecutive repetitions collapsed to one (`Vec::dedup`).
pub open spec fn dedup(s: Seq<Seq<char>>) -> Seq<Seq<char>>
    decreases s.len(),
{
    if s.len() == 0 {
        s
    } else {
        let d = dedup(s.drop_last());
        if d.len() > 0 && d.last() == s.last() {
            d
        } else {
            d.push(s.last())
        }
    }
}

fn dedup_strings(items: &Vec<String>) -> (r: Vec<String>)
    ensures
        strings_view(r@) == dedup(strings_view(items@)),
{
    let mut r: Vec<String> = Vec::new();
    let mut i: usize = 0;
    while i < items.len()
        invariant
            i <= items@.len(),
            strings_view(r@) == dedup(strings_view(items@.take(i as int))),
        decreases items@.len() - i,
    {
        proof {
            assert(strings_view(items@.take(i + 1)).drop_last() =~= strings_view(items@.take(i as int)));
        }
        let item = &items[i];
        let n = r.len();
        if n > 0 && text_eq(r[n - 1].as_str(), item.as_str()) {
        } else {
            let ghost before = strings_view(r@);
            let copy = <String as StringExecFns>::from_str(item.as_str());
            r.push(copy);
            proof {
                assert(strings_view(r@) =~= before.push(item@));
            }
        }
        i = i + 1;
    }
    proof {
        assert(strings_view(items@.take(i as int)) =~= strings_view(items@));
    }
    r
}

/// The warning when the statement does not cover the whole tax year.
pub open spec fn coverage_warning(st: GermanTaxStatement, meta: ReportMeta) -> Seq<Seq<char>> {
    let first = meta.period.first();
    let last = meta.period.last();
    if first.key() > st.year * 10000 + 101 || last.key() < st.year * 10000 + 1231 {
        seq![
            "Der Kontoauszug deckt nicht das gesamte Steuerjahr ab ("@ + dotted_text(first) + " – "@
                + dotted_text(last) + "). Erträge und \
             Transaktionen außerhalb dieses Zeitraums fehlen."@,
        ]
    } else {
        seq![]
    }
}

/// One short position as the warning lists it: `SYMBOL: quantity`.
pub open spec fn short_text(p: (String, Decimal)) -> Seq<char> {
    escape_html(p.0@) + ": "@ + punctuated(p.1.spec_round_dp(4).spec_normalized().text())
}

pub open spec fn shorts_text(s: Seq<(String, Decimal)>) -> Seq<Seq<char>> {
    s.map_values(|p: (String, Decimal)| short_text(p))
}

/// The warnings of the section, in order: coverage of the year, short positions, a §23
/// borrowed-currency result, funds without NAVs.
pub open spec fn warnings(st: GermanTaxStatement, meta: ReportMeta) -> Seq<Seq<char>> {
    coverage_warning(st, meta) + (if st.short_positions@.len() > 0 {
        seq![
            "Short-Positionen zum Jahresende werden nicht steuerlich berechnet und erfordern eine \
             manuelle Prüfung nach §20 EStG (Termin-/Stillhaltergeschäfte): "@ + joined(
                shorts_text(st.short_positions@),
                ", "@,
            ) + "."@,
        ]
    } else {
        seq![]
    }) + (if st.section23.borrowed_review.units() != 0 {
        seq![
            "Realisierung aus Fremdwährungskredit unter §23 EStG in Höhe von "@ + eur_str(
                st.section23.borrowed_review,
            ) + " EUR: die \
             §20-Ausnahme (BMF 19.05.2022 Rz. 131) gilt hier nicht; ggf. als privates \
             Veräußerungsgeschäft anzusetzen."@,
        ]
    } else {
        seq![]
    }) + (if st.vorabpauschale_missing_nav@.len() > 0 {
        seq![
            "Vorabpauschale nicht berechnet (fehlende Rücknahmepreise): "@ + escape_html(
                joined(strings_view(st.vorabpauschale_missing_nav@), ", "@),
            ) + "."@,
        ]
    } else {
        seq![]
    })
}

fn push_if(items: &mut Vec<String>, cond: bool, item: String)
    ensures
        strings_view(final(items)@) == strings_view(old(items)@) + (if cond {
            seq![item@]
        } else {
            Seq::<Seq<char>>::empty()
        }),
{
    if cond {
        items.push(item);
        assert(strings_view(items@) =~= strings_view(old(items)@) + seq![item@]);
    } else {
        assert(strings_view(items@) =~= strings_view(old(items)@) + Seq::<Seq<char>>::empty());
    }
}

fn short_list(shorts: &Vec<(String, Decimal)>) -> (r: String)
    ensures
        r@ == joined(shorts_text(shorts@), ", "@),
{
    let mut listed: Vec<String> = Vec::new();
    let mut i: usize = 0;
    while i < shorts.len()
        invariant
            i <= shorts@.len(),
            strings_view(listed@) == shorts_text(shorts@.take(i as int)),
        decreases shorts@.len() - i,
    {
        let mut t = escape(shorts[i].0.as_str());
        t.append(": ");
        t.append(qty(shorts[i].1).as_str());
        let ghost before = strings_view(listed@);
        proof {
            assert(t@ == short_text(shorts@[i as int]));
            assert(shorts_text(shorts@.take(i + 1)) =~= shorts_text(shorts@.take(i as int)).push(short_text(shorts@[i as int])));
        }
        listed.push(t);
        proof {
            assert(strings_view(listed@) =~= before.push(t@));
        }
        i = i + 1;
    }
    proof {
        assert(shorts@.take(i as int) =~= shorts@);
    }
    join(&listed, ", ")
}

/// What the notes section prints must fit the amount formatter, and the year must be a date.
pub open spec fn notes_ok(st: GermanTaxStatement) -> bool {
    &&& valid_date(st.year as int, 1, 1) && valid_date(st.year as int, 12, 31)
    &&& eur_ok(st.section23.borrowed_review)
    &&& forall|i: int| 0 <= i < st.corporate_actions@.len() ==> (match (#[trigger] st.corporate_actions@[i]).tax_impact_eur {
        Some(v) => eur_ok(v),
        None => true,
    })
    &&& forall|i: int| 0 <= i < st.stock_grants@.len() ==> eur_ok((#[trigger] st.stock_grants@[i]).fmv_per_share_eur)
        && eur_ok(st.stock_grants@[i].total_fmv_eur)
    &&& forall|i: int| 0 <= i < st.cash_grants@.len() ==> eur_ok((#[trigger] st.cash_grants@[i]).amount_eur)
    &&& eur_ok(st.total_stock_grant_income) && eur_ok(st.total_cash_grant_income)
}

fn collect_warnings(st: &GermanTaxStatement, meta: &ReportMeta) -> (r: Vec<String>)
    requires
        notes_ok(*st),
    ensures
        strings_view(r@) == warnings(*st, *meta),
{
    let mut items: Vec<String> = Vec::new();
    let first = meta.period.first_date();
    let last = meta.period.last_date();
    let year_start = Date::from_ymd_opt(st.year, 1, 1);
    let year_end = Date::from_ymd_opt(st.year, 12, 31);
    let (year_start, year_end) = match (year_start, year_end) {
        (Some(a), Some(b)) => (a, b),
        _ => {
            return items;
        },
    };
    let mut text = <String as StringExecFns>::from_str("Der Kontoauszug deckt nicht das gesamte Steuerjahr ab (");
    text.append(date(first).as_str());
    text.append(" – ");
    text.append(date(last).as_str());
    text.append(
        "). Erträge und \
             Transaktionen außerhalb dieses Zeitraums fehlen.",
    );
    push_if(&mut items, year_start.before(&first) || last.before(&year_end), text);
    let mut text = <String as StringExecFns>::from_str(
        "Short-Positionen zum Jahresende werden nicht steuerlich berechnet und erfordern eine \
             manuelle Prüfung nach §20 EStG (Termin-/Stillhaltergeschäfte): ",
    );
    text.append(short_list(&st.short_positions).as_str());
    text.append(".");
    push_if(&mut items, st.short_positions.len() > 0, text);
    let borrowed = st.section23.borrowed_review;
    let mut text = <String as StringExecFns>::from_str("Realisierung aus Fremdwährungskredit unter §23 EStG in Höhe von ");
    text.append(eur(borrowed).as_str());
    text.append(
        " EUR: die \
             §20-Ausnahme (BMF 19.05.2022 Rz. 131) gilt hier nicht; ggf. als privates \
             Veräußerungsgeschäft anzusetzen.",
    );
    push_if(&mut items, !borrowed.is_zero(), text);
    let mut text = <String as StringExecFns>::from_str("Vorabpauschale nicht berechnet (fehlende Rücknahmepreise): ");
    text.append(escape(join(&st.vorabpauschale_missing_nav, ", ").as_str()).as_str());
    text.append(".");
    push_if(&mut items, st.vorabpauschale_missing_nav.len() > 0, text);
    proof {
        assert(strings_view(items@) =~= warnings(*st, *meta));
    }
    items
}

pub open spec fn warn_notes(p: Seq<char>, w: Seq<Seq<char>>) -> Seq<char>
    decreases w.len(),
{
    if w.len() == 0 {
        p
    } else {
        warn_notes(p, w.drop_last()) + note_text("warn"@, "⚠️ "@ + w.last())
    }
}

/// The warnings under their heading; nothing when there are none.
pub open spec fn warnings_after(p: Seq<char>, w: Seq<Seq<char>>) -> Seq<char> {
    if w.len() == 0 {
        p
    } else {
        warn_notes(p + h3_text("Warnungen"@), w)
    }
}

fn write_warnings(out: &mut String, w: &Vec<String>)
    ensures
        final(out)@ == warnings_after(old(out)@, strings_view(w@)),
{
    if w.len() == 0 {
        return;
    }
    h3(out, "Warnungen");
    let ghost start = out@;
    assert(start =~= old(out)@ + h3_text("Warnungen"@));
    let mut i: usize = 0;
    while i < w.len()
        invariant
            i <= w@.len(),
            out@ == warn_notes(start, strings_view(w@.take(i as int))),
        decreases w@.len() - i,
    {
        proof {
            assert(strings_view(w@.take(i + 1)).drop_last() =~= strings_view(w@.take(i as int)));
        }
        let mut text = <String as StringExecFns>::from_str("⚠️ ");
        text.append(w[i].as_str());
        note(out, "warn", text.as_str());
        i = i + 1;
    }
    proof {
        assert(strings_view(w@.take(i as int)) =~= strings_view(w@));
    }
}

/// `date – SYMBOL: note`, the symbol and the note escaped.
pub open spec fn position_note(d: Date, symbol: Seq<char>, text: Seq<char>) -> Seq<char> {
    dotted_text(d) + " – "@ + escape_html(symbol) + ": "@ + escape_html(text)
}

/// The notes attached to capital-gain entries, in order.
pub open spec fn gain_notes(s: Seq<CapitalGainEntry>) -> Seq<Seq<char>>
    decreases s.len(),
{
    if s.len() == 0 {
        seq![]
    } else {
        let e = s.last();
        gain_notes(s.drop_last()) + match e.notes {
            Some(t) => seq![position_note(e.transaction_date, e.symbol@, t@)],
            None => seq![],
        }
    }
}

/// The notes attached to dividend entries, in order.
pub open spec fn dividend_notes(s: Seq<DividendEntry>) -> Seq<Seq<char>>
    decreases s.len(),
{
    if s.len() == 0 {
        seq![]
    } else {
        let e = s.last();
        dividend_notes(s.drop_last()) + match e.notes {
            Some(t) => seq![position_note(e.payment_date, e.symbol@, t@)],
            None => seq![],
        }
    }
}

/// The per-position notes: those of the capital gains, then those of the dividends, with
/// consecutive repetitions dropped.
pub open spec fn position_notes(st: GermanTaxStatement) -> Seq<Seq<char>> {
    dedup(gain_notes(st.capital_gains@) + dividend_notes(st.dividends@))
}

fn note_line(d: Date, symbol: &String, text: &String) -> (r: String)
    ensures
        r@ == position_note(d, symbol@, text@),
{
    let mut line = date(d);
    line.append(" – ");
    line.append(escape(symbol.as_str()).as_str());
    line.append(": ");
    line.append(escape(text.as_str()).as_str());
    line
}

fn collect_position_notes(st: &GermanTaxStatement) -> (r: Vec<String>)
    ensures
        strings_view(r@) == position_notes(*st),
{
    let mut all: Vec<String> = Vec::new();
    let mut i: usize = 0;
    while i < st.capital_gains.len()
        invariant
            i <= st.capital_gains@.len(),
            strings_view(all@) == gain_notes(st.capital_gains@.take(i as int)),
        decreases st.capital_gains@.len() - i,
    {
        proof {
            assert(st.capital_gains@.take(i + 1).drop_last() =~= st.capital_gains@.take(i as int));
        }
        let e = &st.capital_gains[i];
        let ghost before = strings_view(all@);
        match &e.notes {
            Some(t) => {
                all.push(note_line(e.transaction_date, &e.symbol, t));
                assert(strings_view(all@) =~= before + seq![position_note(e.transaction_date, e.symbol@, t@)]);
            },
            None => {
                assert(strings_view(all@) =~= before + Seq::<Seq<char>>::empty());
            },
        }
        i = i + 1;
    }
    proof {
        assert(st.capital_gains@.take(i as int) =~= st.capital_gains@);
    }
    let ghost gains = strings_view(all@);
    let mut k: usize = 0;
    while k < st.dividends.len()
        invariant
            k <= st.dividends@.len(),
            gains == gain_notes(st.capital_gains@),
            strings_view(all@) == gains + dividend_notes(st.dividends@.take(k as int)),
        decreases st.dividends@.len() - k,
    {
        proof {
            assert(st.dividends@.take(k + 1).drop_last() =~= st.dividends@.take(k as int));
        }
        let e = &st.dividends[k];
        let ghost before = strings_view(all@);
        match &e.notes {
            Some(t) => {
                let line = note_line(e.payment_date, &e.symbol, t);
                all.push(line);
                assert(strings_view(all@) =~= before.push(line@));
                assert(st.dividends@.take(k + 1).last() == *e);
                assert(strings_view(all@) =~= gains + dividend_notes(st.dividends@.take(k + 1)));
            },
            None => {
                assert(strings_view(all@) =~= gains + dividend_notes(st.dividends@.take(k + 1)));
            },
        }
        k = k + 1;
    }
    proof {
        assert(st.dividends@.take(k as int) =~= st.dividends@);
    }
    dedup_strings(&all)
}

pub open spec fn position_notes_after(p: Seq<char>, notes: Seq<Seq<char>>) -> Seq<char> {
    if notes.len() == 0 {
        p
    } else {
        p + h3_text("Hinweise zu einzelnen Positionen"@) + ul_text(notes)
    }
}

pub open spec fn action_columns() -> Seq<ColumnView> {
    seq![
        ColumnView { title: "Datum"@, align: Align::Left },
        ColumnView { title: "Wertpapier"@, align: Align::Left },
        ColumnView { title: "Art"@, align: Align::Left },
        ColumnView { title: "Beschreibung"@, align: Align::Left },
        ColumnView { title: "Steuerliche Auswirkung (EUR)"@, align: Align::Right },
        ColumnView { title: "Hinweis"@, align: Align::Left },
    ]
}

pub open spec fn action_row(e: CorporateActionEntry) -> RowView {
    RowView {
        kind: RowKind::Data,
        cells: seq![
            text_cell(dotted_text(e.date)),
            text_cell(e.symbol@),
            text_cell(action_label(e.action_type)),
            text_cell(e.description@),
            num_cell(
                match e.tax_impact_eur {
                    Some(v) => eur_str(v),
                    None => Seq::empty(),
                },
            ),
            text_cell(
                match e.notes {
                    Some(n) => n@,
                    None => Seq::empty(),
                },
            ),
        ],
    }
}

pub open spec fn action_rows(s: Seq<CorporateActionEntry>) -> Seq<RowView> {
    s.map_values(|e: CorporateActionEntry| action_row(e))
}

pub open spec fn actions_after(p: Seq<char>, st: GermanTaxStatement) -> Seq<char> {
    if st.corporate_actions@.len() == 0 {
        p
    } else {
        table_after(p + h3_text("Kapitalmaßnahmen"@), action_columns(), action_rows(st.corporate_actions@))
    }
}

fn cells_of(a: Cell, b: Cell, c: Cell, d: Cell, e: Cell, f: Cell) -> (r: Vec<Cell>)
    ensures
        crate::tax_statement::html::builder::cells_view(r@) == seq![a@, b@, c@, d@, e@, f@],
{
    let mut v = Vec::new();
    v.push(a);
    v.push(b);
    v.push(c);
    v.push(d);
    v.push(e);
    v.push(f);
    assert(crate::tax_statement::html::builder::cells_view(v@) =~= seq![a@, b@, c@, d@, e@, f@]);
    v
}

fn write_actions(out: &mut String, st: &GermanTaxStatement)
    requires
        notes_ok(*st),
    ensures
        final(out)@ == actions_after(old(out)@, *st),
{
    if st.corporate_actions.len() == 0 {
        return;
    }
    h3(out, "Kapitalmaßnahmen");
    assert(out@ =~= old(out)@ + h3_text("Kapitalmaßnahmen"@));
    let mut columns: Vec<Column> = Vec::new();
    columns.push(col("Datum", Align::Left));
    columns.push(col("Wertpapier", Align::Left));
    columns.push(col("Art", Align::Left));
    columns.push(col("Beschreibung", Align::Left));
    columns.push(col("Steuerliche Auswirkung (EUR)", Align::Right));
    columns.push(col("Hinweis", Align::Left));
    proof {
        assert(columns_view(columns@) =~= action_columns());
    }
    let mut rows: Vec<Row> = Vec::new();
    let mut i: usize = 0;
    while i < st.corporate_actions.len()
        invariant
            notes_ok(*st),
            i <= st.corporate_actions@.len(),
            rows_view(rows@) == action_rows(st.corporate_actions@.take(i as int)),
        decreases st.corporate_actions@.len() - i,
    {
        let e = &st.corporate_actions[i];
        assert(e == st.corporate_actions@[i as int]);
        let impact = match e.tax_impact_eur {
            Some(v) => eur(v),
            None => String::new(),
        };
        let notes = match &e.notes {
            Some(n) => <String as StringExecFns>::from_str(n.as_str()),
            None => String::new(),
        };
        let cells = cells_of(
            Cell::text(date(e.date).as_str()),
            Cell::text(e.symbol.as_str()),
            Cell::text(e.action_type.label().as_str()),
            Cell::text(e.description.as_str()),
            Cell::num(impact.as_str()),
            Cell::text(notes.as_str()),
        );
        let row = Row::data(cells);
        let ghost before = rows_view(rows@);
        proof {
            assert(row@.cells =~= action_row(*e).cells);
            assert(row@ == action_row(*e));
            assert(action_rows(st.corporate_actions@.take(i + 1)) =~= before.push(action_row(*e)));
        }
        rows.push(row);
        proof {
            assert(rows_view(rows@) =~= before.push(row@));
        }
        i = i + 1;
    }
    proof {
        assert(st.corporate_actions@.take(i as int) =~= st.corporate_actions@);
    }
    table(out, &columns, &rows);
}

pub open spec fn grant_columns() -> Seq<ColumnView> {
    seq![
        ColumnView { title: "Vesting"@, align: Align::Left },
        ColumnView { title: "Wertpapier"@, align: Align::Left },
        ColumnView { title: "ISIN"@, align: Align::Left },
        ColumnView { title: "Menge"@, align: Align::Right },
        ColumnView { title: "Marktwert je Stück (EUR)"@, align: Align::Right },
        ColumnView { title: "Arbeitslohn (EUR)"@, align: Align::Right },
    ]
}

pub open spec fn grant_row(e: StockGrantEntry) -> RowView {
    RowView {
        kind: RowKind::Data,
        cells: seq![
            text_cell(dotted_text(e.vest_date)),
            text_cell(e.symbol@),
            text_cell(e.isin@),
            num_cell(punctuated(e.quantity.spec_round_dp(4).spec_normalized().text())),
            num_cell(eur_str(e.fmv_per_share_eur)),
            num_cell(eur_str(e.total_fmv_eur)),
        ],
    }
}

pub open spec fn grant_rows(st: GermanTaxStatement) -> Seq<RowView> {
    st.stock_grants@.map_values(|e: StockGrantEntry| grant_row(e)).push(
        RowView {
            kind: RowKind::Total,
            cells: seq![
                text_cell("Gesamt"@),
                empty_cell(),
                empty_cell(),
                empty_cell(),
                empty_cell(),
                num_cell(eur_str(st.total_stock_grant_income)),
            ],
        },
    )
}

pub open spec fn grants_after(p: Seq<char>, st: GermanTaxStatement) -> Seq<char> {
    if st.stock_grants@.len() == 0 {
        p
    } else {
        table_after(p + h3_text("Aktienzuteilungen (Anlage N)"@), grant_columns(), grant_rows(st)) + p_text(
            "Der Marktwert bei Vesting ist bereits als Arbeitslohn versteuert und bildet die \
             Anschaffungskosten der Aktien für spätere Veräußerungen."@,
        )
    }
}

fn write_grants(out: &mut String, st: &GermanTaxStatement)
    requires
        notes_ok(*st),
    ensures
        final(out)@ == grants_after(old(out)@, *st),
{
    if st.stock_grants.len() == 0 {
        return;
    }
    h3(out, "Aktienzuteilungen (Anlage N)");
    assert(out@ =~= old(out)@ + h3_text("Aktienzuteilungen (Anlage N)"@));
    let mut columns: Vec<Column> = Vec::new();
    columns.push(col("Vesting", Align::Left));
    columns.push(col("Wertpapier", Align::Left));
    columns.push(col("ISIN", Align::Left));
    columns.push(col("Menge", Align::Right));
    columns.push(col("Marktwert je Stück (EUR)", Align::Right));
    columns.push(col("Arbeitslohn (EUR)", Align::Right));
    proof {
        assert(columns_view(columns@) =~= grant_columns());
    }
    let mut rows: Vec<Row> = Vec::new();
    let mut i: usize = 0;
    while i < st.stock_grants.len()
        invariant
            notes_ok(*st),
            i <= st.stock_grants@.len(),
            rows_view(rows@) == st.stock_grants@.take(i as int).map_values(|e: StockGrantEntry| grant_row(e)),
        decreases st.stock_grants@.len() - i,
    {
        let e = &st.stock_grants[i];
        assert(e == st.stock_grants@[i as int]);
        let cells = cells_of(
            Cell::text(date(e.vest_date).as_str()),
            Cell::text(e.symbol.as_str()),
            Cell::text(e.isin.as_str()),
            Cell::num(qty(e.quantity).as_str()),
            Cell::num(eur(e.fmv_per_share_eur).as_str()),
            Cell::num(eur(e.total_fmv_eur).as_str()),
        );
        let row = Row::data(cells);
        let ghost before = rows_view(rows@);
        proof {
            assert(row@.cells =~= grant_row(*e).cells);
            assert(st.stock_grants@.take(i + 1).map_values(|e: StockGrantEntry| grant_row(e))
                =~= before.push(grant_row(*e)));
        }
        rows.push(row);
        proof {
            assert(rows_view(rows@) =~= before.push(row@));
        }
        i = i + 1;
    }
    proof {
        assert(st.stock_grants@.take(i as int) =~= st.stock_grants@);
    }
    let total = cells_of(
        Cell::text("Gesamt"),
        Cell::empty(),
        Cell::empty(),
        Cell::empty(),
        Cell::empty(),
        Cell::num(eur(st.total_stock_grant_income).as_str()),
    );
    let ghost before = rows_view(rows@);
    let total_row = Row::total(total);
    rows.push(total_row);
    proof {
        assert(rows_view(rows@) =~= grant_rows(*st));
    }
    table(out, &columns, &rows);
    p(
        out,
        "Der Marktwert bei Vesting ist bereits als Arbeitslohn versteuert und bildet die \
             Anschaffungskosten der Aktien für spätere Veräußerungen.",
    );
}

pub open spec fn cash_columns() -> Seq<ColumnView> {
    seq![
        ColumnView { title: "Datum"@, align: Align::Left },
        ColumnView { title: "Beschreibung"@, align: Align::Left },
        ColumnView { title: "Betrag (EUR)"@, align: Align::Right },
    ]
}

pub open spec fn cash_row(e: CashGrantEntry) -> RowView {
    RowView {
        kind: RowKind::Data,
        cells: seq![text_cell(dotted_text(e.date)), text_cell(e.description@), num_cell(eur_str(e.amount_eur))],
    }
}

pub open spec fn cash_rows(st: GermanTaxStatement) -> Seq<RowView> {
    st.cash_grants@.map_values(|e: CashGrantEntry| cash_row(e)).push(
        RowView {
            kind: RowKind::Total,
            cells: seq![text_cell("Gesamt"@), empty_cell(), num_cell(eur_str(st.total_cash_grant_income))],
        },
    )
}

pub open spec fn cash_after(p: Seq<char>, st: GermanTaxStatement) -> Seq<char> {
    if st.cash_grants@.len() == 0 {
        p
    } else {
        table_after(p + h3_text("Bargeldzuwendungen (§22 Nr. 3 EStG)"@), cash_columns(), cash_rows(st)) + p_text(
            "Sonstige Einkünfte sind steuerpflichtig, wenn sie zusammen mit anderen Einkünften nach \
             §22 Nr. 3 EStG die Freigrenze von 256 EUR im Jahr erreichen."@,
        )
    }
}

fn cells_of3(a: Cell, b: Cell, c: Cell) -> (r: Vec<Cell>)
    ensures
        crate::tax_statement::html::builder::cells_view(r@) == seq![a@, b@, c@],
{
    let mut v = Vec::new();
    v.push(a);
    v.push(b);
    v.push(c);
    assert(crate::tax_statement::html::builder::cells_view(v@) =~= seq![a@, b@, c@]);
    v
}

fn write_cash(out: &mut String, st: &GermanTaxStatement)
    requires
        notes_ok(*st),
    ensures
        final(out)@ == cash_after(old(out)@, *st),
{
    if st.cash_grants.len() == 0 {
        return;
    }
    h3(out, "Bargeldzuwendungen (§22 Nr. 3 EStG)");
    assert(out@ =~= old(out)@ + h3_text("Bargeldzuwendungen (§22 Nr. 3 EStG)"@));
    let mut columns: Vec<Column> = Vec::new();
    columns.push(col("Datum", Align::Left));
    columns.push(col("Beschreibung", Align::Left));
    columns.push(col("Betrag (EUR)", Align::Right));
    proof {
        assert(columns_view(columns@) =~= cash_columns());
    }
    let mut rows: Vec<Row> = Vec::new();
    let mut i: usize = 0;
    while i < st.cash_grants.len()
        invariant
            notes_ok(*st),
            i <= st.cash_grants@.len(),
            rows_view(rows@) == st.cash_grants@.take(i as int).map_values(|e: CashGrantEntry| cash_row(e)),
        decreases st.cash_grants@.len() - i,
    {
        let e = &st.cash_grants[i];
        assert(e == st.cash_grants@[i as int]);
        let cells = cells_of3(
            Cell::text(date(e.date).as_str()),
            Cell::text(e.description.as_str()),
            Cell::num(eur(e.amount_eur).as_str()),
        );
        let row = Row::data(cells);
        let ghost before = rows_view(rows@);
        proof {
            assert(row@.cells =~= cash_row(*e).cells);
            assert(st.cash_grants@.take(i + 1).map_values(|e: CashGrantEntry| cash_row(e))
                =~= before.push(cash_row(*e)));
        }
        rows.push(row);
        proof {
            assert(rows_view(rows@) =~= before.push(row@));
        }
        i = i + 1;
    }
    proof {
        assert(st.cash_grants@.take(i as int) =~= st.cash_grants@);
    }
    let total = cells_of3(Cell::text("Gesamt"), Cell::empty(), Cell::num(eur(st.total_cash_grant_income).as_str()));
    let total_row = Row::total(total);
    rows.push(total_row);
    proof {
        assert(rows_view(rows@) =~= cash_rows(*st));
    }
    table(out, &columns, &rows);
    p(
        out,
        "Sonstige Einkünfte sind steuerpflichtig, wenn sie zusammen mit anderen Einkünften nach \
             §22 Nr. 3 EStG die Freigrenze von 256 EUR im Jahr erreichen.",
    );
}

/// The closing list: how the figures were made and what the report leaves out.
pub open spec fn method_items() -> Seq<Seq<char>> {
    seq![
        "Veräußerungsgewinne werden je Verkauf nach dem FIFO-Prinzip (§20 Abs. 4 Satz 7 \
             EStG) aus den tatsächlichen Anschaffungskosten inklusive Kaufgebühren ermittelt; \
             Verkaufsgebühren mindern den Erlös."@,
        "Fremdwährungsbeträge werden mit dem EZB-Referenzkurs des jeweiligen Buchungstags \
             umgerechnet (Erlöse und Anschaffungskosten am Valutatag, Gebühren am Handelstag); \
             echte Devisengeschäfte mit dem Ausführungskurs."@,
        "Ausländische Quellensteuer wird pauschal bis zur Höhe von 15 % des Bruttoertrags \
             (typischer DBA-Satz) und höchstens 25 % des steuerpflichtigen Betrags als anrechenbar \
             ausgewiesen. Eine länderspezifische DBA-Tabelle ist nicht hinterlegt; bei abweichenden \
             Sätzen (z. B. Schweiz, Frankreich) bitte manuell prüfen. Fondsausschüttungen sind \
             nach InvStG nicht anrechenbar."@,
        "Derivate, Optionen und Termingeschäfte werden nicht ausgewertet; entsprechende \
             Zeilen des Kontoauszugs wurden übersprungen."@,
        "Die Klassifizierung von Fonds (Teilfreistellung) folgt der Konfiguration je ISIN; \
             nicht klassifizierte Wertpapiere gelten als Aktien."@,
        "Die Steuerberechnung ist eine Schätzung ohne Berücksichtigung persönlicher \
             Verhältnisse (Günstigerprüfung, Freistellungsaufträge bei anderen Instituten, \
             sonstige Kapitalerträge)."@,
    ]
}

fn write_method(out: &mut String)
    ensures
        final(out)@ == old(out)@ + h3_text("Methodik und Grenzen"@) + ul_text(method_items()),
{
    h3(out, "Methodik und Grenzen");
    let mut items: Vec<String> = Vec::new();
    items.push(<String as StringExecFns>::from_str(
        "Veräußerungsgewinne werden je Verkauf nach dem FIFO-Prinzip (§20 Abs. 4 Satz 7 \
             EStG) aus den tatsächlichen Anschaffungskosten inklusive Kaufgebühren ermittelt; \
             Verkaufsgebühren mindern den Erlös.",
    ));
    items.push(<String as StringExecFns>::from_str(
        "Fremdwährungsbeträge werden mit dem EZB-Referenzkurs des jeweiligen Buchungstags \
             umgerechnet (Erlöse und Anschaffungskosten am Valutatag, Gebühren am Handelstag); \
             echte Devisengeschäfte mit dem Ausführungskurs.",
    ));
    items.push(<String as StringExecFns>::from_str(
        "Ausländische Quellensteuer wird pauschal bis zur Höhe von 15 % des Bruttoertrags \
             (typischer DBA-Satz) und höchstens 25 % des steuerpflichtigen Betrags als anrechenbar \
             ausgewiesen. Eine länderspezifische DBA-Tabelle ist nicht hinterlegt; bei abweichenden \
             Sätzen (z. B. Schweiz, Frankreich) bitte manuell prüfen. Fondsausschüttungen sind \
             nach InvStG nicht anrechenbar.",
    ));
    items.push(<String as StringExecFns>::from_str(
        "Derivate, Optionen und Termingeschäfte werden nicht ausgewertet; entsprechende \
             Zeilen des Kontoauszugs wurden übersprungen.",
    ));
    items.push(<String as StringExecFns>::from_str(
        "Die Klassifizierung von Fonds (Teilfreistellung) folgt der Konfiguration je ISIN; \
             nicht klassifizierte Wertpapiere gelten als Aktien.",
    ));
    items.push(<String as StringExecFns>::from_str(
        "Die Steuerberechnung ist eine Schätzung ohne Berücksichtigung persönlicher \
             Verhältnisse (Günstigerprüfung, Freistellungsaufträge bei anderen Instituten, \
             sonstige Kapitalerträge).",
    ));
    let ghost before_list = out@;
    ul(out, &items);
    proof {
        assert(strings_view(items@) =~= method_items());
        crate::tax_statement::html::builder::lemma_list_items_prefix(before_list + "<ul>\n"@, method_items());
        crate::tax_statement::html::builder::lemma_list_items_prefix("<ul>\n"@, method_items());
        assert(out@ =~= old(out)@ + h3_text("Methodik und Grenzen"@) + ul_text(method_items()));
    }
}

/// The whole section, in order: warnings, per-position notes, corporate actions, stock grants,
/// cash grants, method and limits.
pub open spec fn notes_after(p: Seq<char>, st: GermanTaxStatement, meta: ReportMeta) -> Seq<char> {
    cash_after(
        grants_after(
            actions_after(
                position_notes_after(
                    warnings_after(p + section_start_text("hinweise"@, "Hinweise und Warnungen"@), warnings(st, meta)),
                    position_notes(st),
                ),
                st,
            ),
            st,
        ),
        st,
    ) + h3_text("Methodik und Grenzen"@) + ul_text(method_items()) + "</section>\n"@
}

/// Section: Hinweise und Warnungen. Always shown.
pub fn notes(out: &mut String, st: &GermanTaxStatement, meta: &ReportMeta) -> (r: bool)
    requires
        notes_ok(*st),
    ensures
        r,
        final(out)@ == notes_after(old(out)@, *st, *meta),
{
    section_start(out, "hinweise", "Hinweise und Warnungen");
    assert(out@ =~= old(out)@ + section_start_text("hinweise"@, "Hinweise und Warnungen"@));
    let w = collect_warnings(st, meta);
    write_warnings(out, &w);
    let ghost after_warnings = out@;
    let position = collect_position_notes(st);
    if position.len() > 0 {
        h3(out, "Hinweise zu einzelnen Positionen");
        let ghost before_list = out@;
        assert(before_list =~= after_warnings + h3_text("Hinweise zu einzelnen Positionen"@));
        ul(out, &position);
        proof {
            crate::tax_statement::html::builder::lemma_list_items_prefix(before_list + "<ul>\n"@, strings_view(position@));
            crate::tax_statement::html::builder::lemma_list_items_prefix("<ul>\n"@, strings_view(position@));
            assert(out@ =~= position_notes_after(after_warnings, position_notes(*st)));
        }
    }
    let ghost after_positions = out@;
    assert(after_positions == position_notes_after(after_warnings, position_notes(*st)));
    write_actions(out, st);
    write_grants(out, st);
    write_cash(out, st);
    write_method(out);
    section_end(out);
    proof {
        assert(out@ =~= notes_after(old(out)@, *st, *meta));
    }
    true
}

} // verus!
