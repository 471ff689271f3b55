//! The foreign-currency section of the German report: every movement portion of the year per
//! currency account, with per-treatment subtotals, and the figures the forms take from them.
use vstd::prelude::*;

use crate::date::{dotted_text, Date};
use crate::decimal::Decimal;
use crate::tax_statement::eur::eur_ok;
use crate::tax_statement::germany::report_details::{FxRow, FxTreatment};
use crate::tax_statement::germany::statement::GermanTaxStatement;
use crate::tax_statement::html::builder::{
    b, bold, cells_view, col, columns_view, empty_cell, escape_html, h3, h3_text, h4, h4_text, note,
    note_text, num_cell, p, p_text, rows_view, section_end, section_start, section_start_text,
    strings_view, table, table_after, text_cell, ul, ul_text, Align, Cell, CellView, Column,
    ColumnView, Row, RowKind, RowView,
};
use crate::tax_statement::html::format::rate_text;
use crate::tax_statement::html::grouping::{
    index_view, keys_view, runs, runs_view, sort_order, sorted_order, split_runs, KeyView, SortKey,
};
use crate::text::int_text;

use super::format::{activity_label, activity_text, date, dec2, eur, rate, treatment_label, treatment_text};
use super::fund_section::{bounded, lemma_bounded_is_eur, lemma_sum_bounded, lemma_sum_step, small};
use super::summary::eur_str;

verus! {

/// A summary row: the label first, the given texts as numbers at their columns, empty cells
/// elsewhere.
pub open spec fn sum_cells(label: Seq<char>, width: nat, values: Seq<(int, Seq<char>)>) -> Seq<CellView> {
    Seq::new(
        width,
        |j: int|
            if j == 0 {
                text_cell(label)
            } else {
                match value_at(values, j) {
                    Some(v) => num_cell(v),
                    None => empty_cell(),
                }
            },
    )
}

/// The first value given for column `j`.
pub open spec fn value_at(values: Seq<(int, Seq<char>)>, j: int) -> Option<Seq<char>>
    decreases values.len(),
{
    if values.len() == 0 {
        None
    } else if values[0].0 == j {
        Some(values[0].1)
    } else {
        value_at(values.drop_first(), j)
    }
}

pub fn sum_row(kind: RowKind, label: &str, width: usize, values: &Vec<(usize, String)>) -> (r: Row)
    ensures
        r@ == (RowView {
            kind,
            cells: sum_cells(label@, width as nat, values@.map_values(|v: (usize, String)| (v.0 as int, v.1@))),
        }),
{
    let ghost vv = values@.map_values(|v: (usize, String)| (v.0 as int, v.1@));
    let mut cells: Vec<Cell> = Vec::new();
    let mut j: usize = 0;
    while j < width
        invariant
            j <= width,
            vv == values@.map_values(|v: (usize, String)| (v.0 as int, v.1@)),
            cells_view(cells@) =~= sum_cells(label@, width as nat, vv).take(j as int),
        decreases width - j,
    {
        let c = if j == 0 {
            Cell::text(label)
        } else {
            let mut found: Option<usize> = None;
            let mut k: usize = 0;
            assert(vv.skip(0) =~= vv);
            while k < values.len()
                invariant
                    k <= values@.len(),
                    vv == values@.map_values(|v: (usize, String)| (v.0 as int, v.1@)),
                    found is None ==> value_at(vv, j as int) == value_at(vv.skip(k as int), j as int),
                    found matches Some(f) ==> f < values@.len() && value_at(vv, j as int) == Some(values@[f as int].1@),
                decreases values@.len() - k,
            {
                if found.is_none() {
                    proof {
                        assert(vv.skip(k as int)[0] == vv[k as int]);
                        assert(vv.skip(k as int).drop_first() =~= vv.skip(k + 1));
                    }
                    if values[k].0 == j {
                        found = Some(k);
                    }
                }
                k = k + 1;
            }
            match found {
                Some(f) => Cell::num(values[f].1.as_str()),
                None => {
                    assert(vv.skip(k as int) =~= Seq::<(int, Seq<char>)>::empty());
                    Cell::empty()
                },
            }
        };
        let ghost before = cells_view(cells@);
        cells.push(c);
        proof {
            assert(cells_view(cells@) =~= before.push(c@));
            assert(sum_cells(label@, width as nat, vv).take(j + 1) =~= sum_cells(label@, width as nat, vv).take(j as int).push(c@));
        }
        j = j + 1;
    }
    let r = Row { kind, cells };
    assert(r@.cells =~= sum_cells(label@, width as nat, vv));
    r
}

pub open spec fn fx_key(r: FxRow) -> KeyView {
    KeyView { rank: 0, texts: seq![r.currency@], day: 0 }
}

fn fx_keys(rows: &Vec<FxRow>) -> (r: Vec<SortKey>)
    ensures
        keys_view(r@) == rows@.map_values(|x: FxRow| fx_key(x)),
{
    let mut keys: Vec<SortKey> = Vec::new();
    let mut i: usize = 0;
    while i < rows.len()
        invariant
            i <= rows@.len(),
            keys_view(keys@) == rows@.take(i as int).map_values(|x: FxRow| fx_key(x)),
        decreases rows@.len() - i,
    {
        let mut texts: Vec<String> = Vec::new();
        texts.push(<String as StringExecFns>::from_str(rows[i].currency.as_str()));
        let k = SortKey { rank: 0, texts, day: 0 };
        let ghost before = keys_view(keys@);
        proof {
            assert(k@.texts =~= seq![rows@[i as int].currency@]);
        }
        keys.push(k);
        proof {
            assert(keys_view(keys@) =~= before.push(k@));
            assert(rows@.take(i + 1).map_values(|x: FxRow| fx_key(x)) =~= before.push(fx_key(rows@[i as int])));
        }
        i = i + 1;
    }
    proof {
        assert(rows@.take(i as int) =~= rows@);
    }
    keys
}

/// The rows grouped by currency: currencies in `str` order, the rows of one currency in ledger
/// order.
pub open spec fn fx_groups(rows: Seq<FxRow>) -> Seq<Seq<FxRow>> {
    let keys = rows.map_values(|x: FxRow| fx_key(x));
    runs(sorted_order(keys, rows.len()), keys).map_values(|g: Seq<int>| g.map_values(|i: int| rows[i]))
}

pub open spec fn realized(r: FxRow) -> bool {
    r.gain_loss_eur is Some && r.treatment is Some
}

pub open spec fn sum_units(s: Seq<FxRow>) -> Decimal
    decreases s.len(),
{
    if s.len() == 0 {
        Decimal::spec_zero()
    } else {
        sum_units(s.drop_last()).spec_add(s.last().units)
    }
}

pub open spec fn sum_amount(s: Seq<FxRow>) -> Decimal
    decreases s.len(),
{
    if s.len() == 0 {
        Decimal::spec_zero()
    } else {
        sum_amount(s.drop_last()).spec_add(s.last().amount_eur)
    }
}

/// The realized results of the rows, in order.
pub open spec fn sum_gain(s: Seq<FxRow>) -> Decimal
    decreases s.len(),
{
    if s.len() == 0 {
        Decimal::spec_zero()
    } else if realized(s.last()) {
        sum_gain(s.drop_last()).spec_add(s.last().gain_loss_eur.unwrap())
    } else {
        sum_gain(s.drop_last())
    }
}

/// The realized results of one treatment, in order.
pub open spec fn sum_treatment(s: Seq<FxRow>, t: FxTreatment) -> Decimal
    decreases s.len(),
{
    if s.len() == 0 {
        Decimal::spec_zero()
    } else if realized(s.last()) && s.last().treatment == Some(t) {
        sum_treatment(s.drop_last(), t).spec_add(s.last().gain_loss_eur.unwrap())
    } else {
        sum_treatment(s.drop_last(), t)
    }
}

/// Whether a realized result of the treatment is among the rows.
pub open spec fn has_treatment(s: Seq<FxRow>, t: FxTreatment) -> bool
    decreases s.len(),
{
    if s.len() == 0 {
        false
    } else {
        has_treatment(s.drop_last(), t) || (realized(s.last()) && s.last().treatment == Some(t))
    }
}

pub open spec fn opt_date_text(o: Option<Date>) -> Seq<char> {
    match o {
        Some(d) => dotted_text(d),
        None => Seq::empty(),
    }
}

pub open spec fn opt_eur_text(o: Option<Decimal>) -> Seq<char> {
    match o {
        Some(v) => eur_str(v),
        None => Seq::empty(),
    }
}

pub open spec fn fx_row_view(r: FxRow) -> RowView {
    RowView {
        kind: RowKind::Data,
        cells: seq![
            text_cell(dotted_text(r.date)),
            text_cell(r.transaction_id@),
            text_cell(activity_text(r.activity_code@)),
            num_cell(eur_str(r.units)),
            num_cell(rate_text(r.eur_per_unit)),
            num_cell(eur_str(r.amount_eur)),
            text_cell(opt_date_text(r.open_date)),
            num_cell(opt_eur_text(r.open_value_eur)),
            num_cell(opt_eur_text(r.gain_loss_eur)),
            num_cell(eur_str(r.balance_after)),
            num_cell(
                match r.holding_days {
                    Some(d) => int_text(d as int),
                    None => Seq::empty(),
                },
            ),
            text_cell(
                match r.treatment {
                    Some(t) => treatment_text(t),
                    None => Seq::empty(),
                },
            ),
        ],
    }
}

pub open spec fn subtotal_view(s: Seq<FxRow>, t: FxTreatment) -> Seq<RowView> {
    if has_treatment(s, t) {
        seq![
            RowView {
                kind: RowKind::Subtotal,
                cells: sum_cells("Gesamt – "@ + treatment_text(t), 12, seq![(8, eur_str(sum_treatment(s, t)))]),
            },
        ]
    } else {
        seq![]
    }
}

/// The rows of one currency's table: each movement, a subtotal per treatment present (in the order
/// §20, loan repayment, §23 short, §23 long, §23 borrowed), and the total.
pub open spec fn group_rows(s: Seq<FxRow>) -> Seq<RowView> {
    s.map_values(|r: FxRow| fx_row_view(r)) + subtotal_view(s, FxTreatment::Section20Taxable) + subtotal_view(
        s,
        FxTreatment::LoanRepaymentNonTaxable,
    ) + subtotal_view(s, FxTreatment::Section23ShortTerm) + subtotal_view(
        s,
        FxTreatment::Section23LongTermTaxFree,
    ) + subtotal_view(s, FxTreatment::Section23BorrowedReview) + seq![
        RowView {
            kind: RowKind::Total,
            cells: sum_cells(
                "Gesamt"@,
                12,
                seq![(3, eur_str(sum_units(s))), (5, eur_str(sum_amount(s))), (8, eur_str(sum_gain(s)))],
            ),
        },
    ]
}

pub open spec fn fx_columns() -> Seq<ColumnView> {
    seq![
        ColumnView { title: "Datum"@, align: Align::Left },
        ColumnView { title: "ID"@, align: Align::Left },
        ColumnView { title: "Aktivität"@, align: Align::Left },
        ColumnView { title: "Betrag (FX)"@, align: Align::Right },
        ColumnView { title: "EZB-Kurs"@, align: Align::Right },
        ColumnView { title: "Betrag EUR"@, align: Align::Right },
        ColumnView { title: "Eröffnungsdatum"@, align: Align::Left },
        ColumnView { title: "Eröffnungswert (EUR)"@, align: Align::Right },
        ColumnView { title: "FX G/V EUR"@, align: Align::Right },
        ColumnView { title: "Bestand FX"@, align: Align::Right },
        ColumnView { title: "Haltedauer (d)"@, align: Align::Right },
        ColumnView { title: "Behandlung"@, align: Align::Left },
    ]
}

/// One table per currency, each under its heading.
pub open spec fn groups_after(p: Seq<char>, gs: Seq<Seq<FxRow>>) -> Seq<char>
    decreases gs.len(),
{
    if gs.len() == 0 {
        p
    } else {
        let g = gs.last();
        table_after(
            groups_after(p, gs.drop_last()) + h3_text(g[0].currency@ + " – Fremdwährungskonto"@),
            fx_columns(),
            group_rows(g),
        )
    }
}

pub open spec fn row_ok(r: FxRow) -> bool {
    &&& small(r.units) && small(r.amount_eur) && eur_ok(r.eur_per_unit) && eur_ok(r.balance_after)
    &&& match r.open_value_eur {
        Some(v) => eur_ok(v),
        None => true,
    }
    &&& match r.gain_loss_eur {
        Some(v) => small(v),
        None => true,
    }
}

/// What the section prints must fit the formatter: at most 100 000 rows of at most a trillion
/// each, and form figures of at most 10^18.
pub open spec fn fx_ok(st: GermanTaxStatement) -> bool {
    &&& st.report.fx_rows@.len() <= 100_000
    &&& forall|i: int| 0 <= i < st.report.fx_rows@.len() ==> row_ok(#[trigger] st.report.fx_rows@[i])
    &&& eur_ok(st.total_fx_gains) && eur_ok(st.total_fx_losses) && eur_ok(st.non_taxable_margin_fx)
    &&& eur_ok(st.section23.short_term_gains) && eur_ok(st.section23.short_term_losses)
    &&& eur_ok(st.section23.short_term_gains.spec_sub(st.section23.short_term_losses))
    &&& eur_ok(st.section23.long_term_tax_free) && eur_ok(st.section23.borrowed_review)
}

/// The treatments in the order their subtotals are shown.
pub open spec fn treatment_at(k: int) -> FxTreatment {
    if k == 0 {
        FxTreatment::Section20Taxable
    } else if k == 1 {
        FxTreatment::LoanRepaymentNonTaxable
    } else if k == 2 {
        FxTreatment::Section23ShortTerm
    } else if k == 3 {
        FxTreatment::Section23LongTermTaxFree
    } else {
        FxTreatment::Section23BorrowedReview
    }
}

fn treatment_index(t: FxTreatment) -> (r: usize)
    ensures
        r < 5,
        treatment_at(r as int) == t,
{
    match t {
        FxTreatment::Section20Taxable => 0,
        FxTreatment::LoanRepaymentNonTaxable => 1,
        FxTreatment::Section23ShortTerm => 2,
        FxTreatment::Section23LongTermTaxFree => 3,
        FxTreatment::Section23BorrowedReview => 4,
    }
}

fn treatment_of(k: usize) -> (r: FxTreatment)
    requires
        k < 5,
    ensures
        r == treatment_at(k as int),
{
    if k == 0 {
        FxTreatment::Section20Taxable
    } else if k == 1 {
        FxTreatment::LoanRepaymentNonTaxable
    } else if k == 2 {
        FxTreatment::Section23ShortTerm
    } else if k == 3 {
        FxTreatment::Section23LongTermTaxFree
    } else {
        FxTreatment::Section23BorrowedReview
    }
}

fn push_cell(cells: &mut Vec<Cell>, c: Cell)
    ensures
        cells_view(final(cells)@) == cells_view(old(cells)@).push(c@),
{
    cells.push(c);
    assert(cells_view(cells@) =~= cells_view(old(cells)@).push(c@));
}

fn fx_first_cells(cells: &mut Vec<Cell>, r: &FxRow)
    requires
        row_ok(*r),
    ensures
        cells_view(final(cells)@) == cells_view(old(cells)@) + fx_row_view(*r).cells.take(6),
{
    let ghost start = cells_view(cells@);
    push_cell(cells, Cell::text(date(r.date).as_str()));
    push_cell(cells, Cell::text(r.transaction_id.as_str()));
    push_cell(cells, Cell::text(activity_label(r.activity_code.as_str()).as_str()));
    push_cell(cells, Cell::num(dec2(r.units).as_str()));
    push_cell(cells, Cell::num(rate(r.eur_per_unit).as_str()));
    push_cell(cells, Cell::num(eur(r.amount_eur).as_str()));
    assert(cells_view(cells@) =~= start + fx_row_view(*r).cells.take(6));
}

fn opt_eur(o: Option<Decimal>) -> (r: String)
    requires
        match o {
            Some(v) => eur_ok(v),
            None => true,
        },
    ensures
        r@ == opt_eur_text(o),
{
    match o {
        Some(v) => eur(v),
        None => String::new(),
    }
}

fn fx_last_cells(cells: &mut Vec<Cell>, r: &FxRow)
    requires
        row_ok(*r),
    ensures
        cells_view(final(cells)@) == cells_view(old(cells)@) + fx_row_view(*r).cells.skip(6),
{
    let ghost start = cells_view(cells@);
    let open = match r.open_date {
        Some(d) => date(d),
        None => String::new(),
    };
    push_cell(cells, Cell::text(open.as_str()));
    push_cell(cells, Cell::num(opt_eur(r.open_value_eur).as_str()));
    push_cell(cells, Cell::num(opt_eur(r.gain_loss_eur).as_str()));
    push_cell(cells, Cell::num(dec2(r.balance_after).as_str()));
    let days = match r.holding_days {
        Some(d) => crate::tax_statement::html::format::days(d),
        None => String::new(),
    };
    push_cell(cells, Cell::num(days.as_str()));
    let treatment = match r.treatment {
        Some(t) => <String as StringExecFns>::from_str(treatment_label(t)),
        None => String::new(),
    };
    push_cell(cells, Cell::text(treatment.as_str()));
    assert(cells_view(cells@) =~= start + fx_row_view(*r).cells.skip(6));
}

fn fx_line(r: &FxRow) -> (row: Row)
    requires
        row_ok(*r),
    ensures
        row@ == fx_row_view(*r),
{
    let mut cells: Vec<Cell> = Vec::new();
    fx_first_cells(&mut cells, r);
    fx_last_cells(&mut cells, r);
    let row = Row::data(cells);
    assert(row@.cells =~= fx_row_view(*r).cells);
    row
}

fn amount_pair(index: usize, text: String) -> (r: (usize, String))
    ensures
        r.0 == index,
        r.1@ == text@,
{
    (index, text)
}

/// The data rows of one currency's movements and their running totals: units, EUR amounts,
/// realized results, and the results and presence of each treatment.
fn group_data(rows: &Vec<FxRow>, g: &Vec<usize>) -> (r: (Vec<Row>, Decimal, Decimal, Decimal, Vec<Decimal>, Vec<bool>))
    requires
        rows@.len() <= 100_000,
        forall|i: int| 0 <= i < rows@.len() ==> row_ok(#[trigger] rows@[i]),
        g@.len() <= 100_000,
        forall|p: int| 0 <= p < g@.len() ==> #[trigger] g@[p] < rows@.len(),
    ensures
        ({
            let sv = index_view(g@).map_values(|i: int| rows@[i]);
            let (table_rows, units, amount, gain, sums, present) = r;
            &&& rows_view(table_rows@) == sv.map_values(|r: FxRow| fx_row_view(r))
            &&& units == sum_units(sv) && amount == sum_amount(sv) && gain == sum_gain(sv)
            &&& bounded(units, g@.len() as int) && bounded(amount, g@.len() as int)
            &&& bounded(gain, g@.len() as int)
            &&& sums@.len() == 5 && present@.len() == 5
            &&& forall|q: int| 0 <= q < 5 ==> #[trigger] sums@[q] == sum_treatment(sv, treatment_at(q))
                && bounded(sums@[q], g@.len() as int)
            &&& forall|q: int| 0 <= q < 5 ==> #[trigger] present@[q] == has_treatment(sv, treatment_at(q))
        }),
{
    let ghost sv = index_view(g@).map_values(|i: int| rows@[i]);
    let mut table_rows: Vec<Row> = Vec::new();
    let mut units = Decimal::zero();
    let mut amount = Decimal::zero();
    let mut gain = Decimal::zero();
    let mut sums: Vec<Decimal> = Vec::new();
    let mut present: Vec<bool> = Vec::new();
    let mut t: usize = 0;
    while t < 5
        invariant
            t <= 5,
            sums@.len() == t,
            present@.len() == t,
            forall|q: int| 0 <= q < t ==> sums@[q] == Decimal::spec_zero() && !present@[q],
        decreases 5 - t,
    {
        sums.push(Decimal::zero());
        present.push(false);
        t = t + 1;
    }
    proof {
        crate::decimal::Decimal::lemma_spec_zero();
    }
    let mut k: usize = 0;
    while k < g.len()
        invariant
            rows@.len() <= 100_000,
            forall|i: int| 0 <= i < rows@.len() ==> row_ok(#[trigger] rows@[i]),
            g@.len() <= 100_000,
            forall|p: int| 0 <= p < g@.len() ==> #[trigger] g@[p] < rows@.len(),
            sv == index_view(g@).map_values(|i: int| rows@[i]),
            k <= g@.len(),
            rows_view(table_rows@) == sv.take(k as int).map_values(|r: FxRow| fx_row_view(r)),
            units == sum_units(sv.take(k as int)),
            amount == sum_amount(sv.take(k as int)),
            gain == sum_gain(sv.take(k as int)),
            bounded(units, k as int),
            bounded(amount, k as int),
            bounded(gain, k as int),
            sums@.len() == 5,
            present@.len() == 5,
            forall|q: int| 0 <= q < 5 ==> #[trigger] sums@[q] == sum_treatment(sv.take(k as int), treatment_at(q))
                && bounded(sums@[q], k as int),
            forall|q: int| 0 <= q < 5 ==> #[trigger] present@[q] == has_treatment(sv.take(k as int), treatment_at(q)),
        decreases g@.len() - k,
    {
        let r = &rows[g[k]];
        proof {
            assert(sv.take(k + 1).drop_last() =~= sv.take(k as int));
            assert(sv.take(k + 1).last() == *r);
            assert(row_ok(rows@[g@[k as int] as int]));
            lemma_sum_step(units, r.units, k as int);
            lemma_sum_step(amount, r.amount_eur, k as int);
        }
        let u = units.add(&r.units);
        let a = amount.add(&r.amount_eur);
        proof {
            lemma_sum_bounded(units, r.units, u, k as int);
            lemma_sum_bounded(amount, r.amount_eur, a, k as int);
        }
        units = u;
        amount = a;
        match (r.gain_loss_eur, r.treatment) {
            (Some(result), Some(treatment)) => {
                proof {
                    lemma_sum_step(gain, result, k as int);
                }
                let x = gain.add(&result);
                proof {
                    lemma_sum_bounded(gain, result, x, k as int);
                }
                gain = x;
                let q = treatment_index(treatment);
                let old_sum = sums[q];
                proof {
                    lemma_sum_step(old_sum, result, k as int);
                }
                let y = old_sum.add(&result);
                proof {
                    lemma_sum_bounded(old_sum, result, y, k as int);
                }
                let ghost sums_before = sums@;
                let ghost present_before = present@;
                sums.set(q, y);
                present.set(q, true);
                proof {
                    assert forall|z: int| 0 <= z < 5 implies #[trigger] sums@[z] == sum_treatment(sv.take(k + 1), treatment_at(z))
                        && bounded(sums@[z], k + 1) by {
                        if z != q {
                            assert(sums@[z] == sums_before[z]);
                            assert(treatment_at(z) != treatment_at(q as int));
                            let s = sums@[z];
                            let c = k as int;
                            assert(bounded(s, c));
                            assert(bounded(s, c + 1)) by {
                                let w = crate::decimal::quantity_bound() + crate::decimal::unit();
                                assert((c + 1) * w == c * w + w) by (nonlinear_arith);
                                assert((-(c + 1)) * w == -(c * w) - w) by (nonlinear_arith);
                                assert((-c) * w == -(c * w)) by (nonlinear_arith);
                            }
                        }
                    }
                    assert forall|z: int| 0 <= z < 5 implies #[trigger] present@[z] == has_treatment(sv.take(k + 1), treatment_at(z)) by {
                        if z != q {
                            assert(present@[z] == present_before[z]);
                            assert(treatment_at(z) != treatment_at(q as int));
                        }
                    }
                }
            },
            _ => {
                proof {
                    assert forall|z: int| 0 <= z < 5 implies #[trigger] sums@[z] == sum_treatment(sv.take(k + 1), treatment_at(z))
                        && bounded(sums@[z], k + 1) by {
                        let s = sums@[z];
                        let c = k as int;
                        assert(bounded(s, c));
                        assert(bounded(s, c + 1)) by {
                            let w = crate::decimal::quantity_bound() + crate::decimal::unit();
                            assert((c + 1) * w == c * w + w) by (nonlinear_arith);
                            assert((-(c + 1)) * w == -(c * w) - w) by (nonlinear_arith);
                            assert((-c) * w == -(c * w)) by (nonlinear_arith);
                        }
                    }
                    assert forall|z: int| 0 <= z < 5 implies #[trigger] present@[z] == has_treatment(sv.take(k + 1), treatment_at(z)) by {
                    }
                    let c = k as int;
                    assert(bounded(gain, c + 1)) by {
                        let w = crate::decimal::quantity_bound() + crate::decimal::unit();
                        assert((c + 1) * w == c * w + w) by (nonlinear_arith);
                        assert((-(c + 1)) * w == -(c * w) - w) by (nonlinear_arith);
                        assert((-c) * w == -(c * w)) by (nonlinear_arith);
                    }
                }
            },
        }
        let line = fx_line(r);
        let ghost before = rows_view(table_rows@);
        table_rows.push(line);
        proof {
            assert(rows_view(table_rows@) =~= before.push(fx_row_view(*r)));
            assert(sv.take(k + 1).map_values(|r: FxRow| fx_row_view(r)) =~= before.push(fx_row_view(*r)));
        }
        k = k + 1;
    }
    proof {
        assert(sv.take(k as int) =~= sv);
    }
    (table_rows, units, amount, gain, sums, present)
}

/// Append the subtotal rows of the treatments present.
fn push_subtotals(table_rows: &mut Vec<Row>, sums: &Vec<Decimal>, present: &Vec<bool>, Ghost(sv): Ghost<Seq<FxRow>>, Ghost(n): Ghost<int>)
    requires
        sums@.len() == 5,
        present@.len() == 5,
        0 <= n <= 100_000,
        forall|z: int| 0 <= z < 5 ==> #[trigger] sums@[z] == sum_treatment(sv, treatment_at(z)) && bounded(sums@[z], n),
        forall|z: int| 0 <= z < 5 ==> #[trigger] present@[z] == has_treatment(sv, treatment_at(z)),
    ensures
        rows_view(final(table_rows)@) == rows_view(old(table_rows)@) + subtotals_upto(sv, 5),
{
    let ghost data = rows_view(table_rows@);
    let mut q: usize = 0;
    while q < 5
        invariant
            q <= 5,
            sums@.len() == 5,
            present@.len() == 5,
            0 <= n <= 100_000,
            forall|z: int| 0 <= z < 5 ==> #[trigger] sums@[z] == sum_treatment(sv, treatment_at(z))
                && bounded(sums@[z], n),
            forall|z: int| 0 <= z < 5 ==> #[trigger] present@[z] == has_treatment(sv, treatment_at(z)),
            rows_view(table_rows@) == data + subtotals_upto(sv, q as int),
        decreases 5 - q,
    {
        let ghost before = rows_view(table_rows@);
        if present[q] {
            let treatment = treatment_of(q);
            let mut label = <String as StringExecFns>::from_str("Gesamt – ");
            label.append(treatment_label(treatment));
            proof {
                lemma_bounded_is_eur(sums@[q as int], n);
            }
            let mut values: Vec<(usize, String)> = Vec::new();
            values.push(amount_pair(8, eur(sums[q])));
            let row = sum_row(RowKind::Subtotal, label.as_str(), 12, &values);
            proof {
                assert(values@.map_values(|v: (usize, String)| (v.0 as int, v.1@)) =~= seq![(8int, eur_str(sum_treatment(sv, treatment_at(q as int))))]);
            }
            table_rows.push(row);
            proof {
                assert(rows_view(table_rows@) =~= before.push(row@));
                assert(subtotals_upto(sv, q + 1) =~= subtotals_upto(sv, q as int) + subtotal_view(sv, treatment_at(q as int)));
            }
        } else {
            proof {
                assert(subtotals_upto(sv, q + 1) =~= subtotals_upto(sv, q as int) + subtotal_view(sv, treatment_at(q as int)));
            }
        }
        q = q + 1;
    }
}

/// The table of one currency under its heading.
fn write_group(out: &mut String, rows: &Vec<FxRow>, g: &Vec<usize>)
    requires
        rows@.len() <= 100_000,
        forall|i: int| 0 <= i < rows@.len() ==> row_ok(#[trigger] rows@[i]),
        g@.len() > 0,
        g@.len() <= 100_000,
        forall|p: int| 0 <= p < g@.len() ==> #[trigger] g@[p] < rows@.len(),
    ensures
        final(out)@ == table_after(
            old(out)@ + h3_text(rows@[g@[0] as int].currency@ + " – Fremdwährungskonto"@),
            fx_columns(),
            group_rows(index_view(g@).map_values(|i: int| rows@[i])),
        ),
{
    let ghost sv = index_view(g@).map_values(|i: int| rows@[i]);
    let mut heading = <String as StringExecFns>::from_str(rows[g[0]].currency.as_str());
    heading.append(" – Fremdwährungskonto");
    h3(out, heading.as_str());
    let ghost after_heading = out@;
    assert(after_heading =~= old(out)@ + h3_text(rows@[g@[0] as int].currency@ + " – Fremdwährungskonto"@));
    let (mut table_rows, units, amount, gain, sums, present) = group_data(rows, g);
    let ghost data = rows_view(table_rows@);
    push_subtotals(&mut table_rows, &sums, &present, Ghost(sv), Ghost(g@.len() as int));
    proof {
        lemma_bounded_is_eur(units, g@.len() as int);
        lemma_bounded_is_eur(amount, g@.len() as int);
        lemma_bounded_is_eur(gain, g@.len() as int);
    }
    let mut values: Vec<(usize, String)> = Vec::new();
    values.push(amount_pair(3, dec2(units)));
    values.push(amount_pair(5, eur(amount)));
    values.push(amount_pair(8, eur(gain)));
    let total = sum_row(RowKind::Total, "Gesamt", 12, &values);
    proof {
        assert(values@.map_values(|v: (usize, String)| (v.0 as int, v.1@)) =~= seq![
            (3int, eur_str(sum_units(sv))),
            (5int, eur_str(sum_amount(sv))),
            (8int, eur_str(sum_gain(sv))),
        ]);
    }
    let ghost before_total = rows_view(table_rows@);
    table_rows.push(total);
    proof {
        assert(rows_view(table_rows@) =~= before_total.push(total@));
        reveal_with_fuel(subtotals_upto, 6);
        assert(subtotals_upto(sv, 5) =~= subtotal_view(sv, FxTreatment::Section20Taxable) + subtotal_view(
            sv,
            FxTreatment::LoanRepaymentNonTaxable,
        ) + subtotal_view(sv, FxTreatment::Section23ShortTerm) + subtotal_view(
            sv,
            FxTreatment::Section23LongTermTaxFree,
        ) + subtotal_view(sv, FxTreatment::Section23BorrowedReview));
        assert(rows_view(table_rows@) =~= group_rows(sv));
    }
    let mut columns: Vec<Column> = Vec::new();
    columns.push(col("Datum", Align::Left));
    columns.push(col("ID", Align::Left));
    columns.push(col("Aktivität", Align::Left));
    columns.push(col("Betrag (FX)", Align::Right));
    columns.push(col("EZB-Kurs", Align::Right));
    columns.push(col("Betrag EUR", Align::Right));
    columns.push(col("Eröffnungsdatum", Align::Left));
    columns.push(col("Eröffnungswert (EUR)", Align::Right));
    columns.push(col("FX G/V EUR", Align::Right));
    columns.push(col("Bestand FX", Align::Right));
    columns.push(col("Haltedauer (d)", Align::Right));
    columns.push(col("Behandlung", Align::Left));
    proof {
        assert(columns_view(columns@) =~= fx_columns());
    }
    table(out, &columns, &table_rows);
}

/// The subtotal rows of the first `q` treatments.
pub open spec fn subtotals_upto(s: Seq<FxRow>, q: int) -> Seq<RowView>
    decreases q,
{
    if q <= 0 {
        seq![]
    } else {
        subtotals_upto(s, q - 1) + subtotal_view(s, treatment_at(q - 1))
    }
}

#[verifier::opaque]
pub open spec fn fx_intro_accounts() -> Seq<char> {
    section_start_text("fremdwaehrung"@, "Fremdwährungsgewinne/-verluste"@) + p_text(
        "Diese Tabelle zeigt realisierte Gewinne oder Verluste aus der Verwendung von \
             Fremdwährungen (z. B. USD, GBP, CAD), die zuvor auf einem Fremdwährungskonto beim \
             Broker gehalten wurden. Steuerlich wird zwischen "@ + bold("verzinslichen"@) + " und "@ + bold("unverzinslichen"@) + " Fremdwährungskonten \
             unterschieden:"@,
    ) + ul_text(
        seq![
            "<b>Verzinsliche Fremdwährungskonten (§20 EStG):</b> Guthaben, auf die der Broker \
             grundsätzlich Habenzinsen vorsieht, gelten steuerlich als Kapitalanlagen. Gewinne \
             und Verluste unterliegen daher der Abgeltungsteuer. Verluste können innerhalb des \
             allgemeinen Verlusttopfs mit anderen positiven Einkünften aus Kapitalvermögen (z. B. \
             Zinsen, Dividenden, Fondsgewinne) verrechnet werden."@,
            "<b>Unverzinsliche Fremdwährungskonten (§23 EStG):</b> Guthaben, für die der Broker \
             generell keine Verzinsung vorsieht, gelten als private Veräußerungsgeschäfte. \
             Gewinne sind hier nur steuerpflichtig, wenn zwischen Anschaffung und Verwendung \
             weniger als ein Jahr liegt. Verluste sind steuerlich nicht anrechenbar."@,
        ],
    )
}

#[verifier::opaque]
pub open spec fn fx_intro_method() -> Seq<char> {
    h4_text("Wie werden Fremdwährungsgewinne berechnet?"@) + p_text(
        "Jede Ausgabe von Fremdwährung (z. B. für einen Wertpapierkauf, eine Gebühr oder den \
             Rücktausch in Euro) gilt steuerlich als "@ + bold("Veräußerung"@) + ". Ein Gewinn entsteht, wenn der Euro-Wert \
             zum Zeitpunkt der Verwendung höher ist als beim ursprünglichen Zufluss. Auch wenn \
             kein Euro tatsächlich bewegt wird, z. B. bei einem Kauf in USD, entsteht ein \
             sogenannter "@ + bold("verdeckter Fremdwährungsgewinn"@) + ". Die Zuordnung erfolgt nach FIFO je Währung; ein negativer Bestand \
             ist ein Fremdwährungskredit, dessen Tilgung nicht steuerbar ist (BMF 19.05.2022 Rz. \
             131)."@,
    ) + h4_text("Umrechnungskurse bei Fremdwährungsgeschäften"@) + ul_text(
        seq![
            "<b>Tatsächliche Währungstransaktionen:</b> Bei echten Währungsumtäuschen (z. B. \
             USD → EUR) wird der <i>tatsächlich erzielte Umrechnungskurs</i> aus der \
             Broker-Transaktion verwendet."@,
            "<b>Verdeckte Fremdwährungsgewinne:</b> Bei Transaktionen ohne direkten \
             Währungsumtausch (z. B. Wertpapierkauf in USD ohne EUR-Umtausch) wird der \
             <i>EZB-Referenzkurs</i> des jeweiligen Transaktionsdatums herangezogen."@,
        ],
    )
}

pub open spec fn fx_intro() -> Seq<char> {
    fx_intro_accounts() + fx_intro_method()
}

fn write_fx_accounts(out: &mut String)
    ensures
        final(out)@ == old(out)@ + fx_intro_accounts(),
{
    section_start(out, "fremdwaehrung", "Fremdwährungsgewinne/-verluste");
    let mut text = <String as StringExecFns>::from_str("Diese Tabelle zeigt realisierte Gewinne oder Verluste aus der Verwendung von \
             Fremdwährungen (z. B. USD, GBP, CAD), die zuvor auf einem Fremdwährungskonto beim \
             Broker gehalten wurden. Steuerlich wird zwischen ");
    text.append(b("verzinslichen").as_str());
    text.append(" und ");
    text.append(b("unverzinslichen").as_str());
    text.append(" Fremdwährungskonten \
             unterschieden:");
    p(out, text.as_str());
    let mut items: Vec<String> = Vec::new();
    items.push(<String as StringExecFns>::from_str("<b>Verzinsliche Fremdwährungskonten (§20 EStG):</b> Guthaben, auf die der Broker \
             grundsätzlich Habenzinsen vorsieht, gelten steuerlich als Kapitalanlagen. Gewinne \
             und Verluste unterliegen daher der Abgeltungsteuer. Verluste können innerhalb des \
             allgemeinen Verlusttopfs mit anderen positiven Einkünften aus Kapitalvermögen (z. B. \
             Zinsen, Dividenden, Fondsgewinne) verrechnet werden."));
    items.push(<String as StringExecFns>::from_str("<b>Unverzinsliche Fremdwährungskonten (§23 EStG):</b> Guthaben, für die der Broker \
             generell keine Verzinsung vorsieht, gelten als private Veräußerungsgeschäfte. \
             Gewinne sind hier nur steuerpflichtig, wenn zwischen Anschaffung und Verwendung \
             weniger als ein Jahr liegt. Verluste sind steuerlich nicht anrechenbar."));
    let ghost before_list = out@;
    ul(out, &items);
    proof {
        let iv = seq![
            "<b>Verzinsliche Fremdwährungskonten (§20 EStG):</b> Guthaben, auf die der Broker \
             grundsätzlich Habenzinsen vorsieht, gelten steuerlich als Kapitalanlagen. Gewinne \
             und Verluste unterliegen daher der Abgeltungsteuer. Verluste können innerhalb des \
             allgemeinen Verlusttopfs mit anderen positiven Einkünften aus Kapitalvermögen (z. B. \
             Zinsen, Dividenden, Fondsgewinne) verrechnet werden."@,
            "<b>Unverzinsliche Fremdwährungskonten (§23 EStG):</b> Guthaben, für die der Broker \
             generell keine Verzinsung vorsieht, gelten als private Veräußerungsgeschäfte. \
             Gewinne sind hier nur steuerpflichtig, wenn zwischen Anschaffung und Verwendung \
             weniger als ein Jahr liegt. Verluste sind steuerlich nicht anrechenbar."@,
        ];
        assert(strings_view(items@) =~= iv);
        crate::tax_statement::html::builder::lemma_list_items_prefix(before_list + "<ul>\n"@, iv);
        crate::tax_statement::html::builder::lemma_list_items_prefix("<ul>\n"@, iv);
    }
    assert(out@ =~= old(out)@ + fx_intro_accounts()) by {
        reveal(fx_intro_accounts);
    }
}

fn write_fx_method(out: &mut String)
    ensures
        final(out)@ == old(out)@ + fx_intro_method(),
{
    h4(out, "Wie werden Fremdwährungsgewinne berechnet?");
    let mut text = <String as StringExecFns>::from_str("Jede Ausgabe von Fremdwährung (z. B. für einen Wertpapierkauf, eine Gebühr oder den \
             Rücktausch in Euro) gilt steuerlich als ");
    text.append(b("Veräußerung").as_str());
    text.append(". Ein Gewinn entsteht, wenn der Euro-Wert \
             zum Zeitpunkt der Verwendung höher ist als beim ursprünglichen Zufluss. Auch wenn \
             kein Euro tatsächlich bewegt wird, z. B. bei einem Kauf in USD, entsteht ein \
             sogenannter ");
    text.append(b("verdeckter Fremdwährungsgewinn").as_str());
    text.append(". Die Zuordnung erfolgt nach FIFO je Währung; ein negativer Bestand \
             ist ein Fremdwährungskredit, dessen Tilgung nicht steuerbar ist (BMF 19.05.2022 Rz. \
             131).");
    p(out, text.as_str());
    h4(out, "Umrechnungskurse bei Fremdwährungsgeschäften");
    let mut items: Vec<String> = Vec::new();
    items.push(<String as StringExecFns>::from_str("<b>Tatsächliche Währungstransaktionen:</b> Bei echten Währungsumtäuschen (z. B. \
             USD → EUR) wird der <i>tatsächlich erzielte Umrechnungskurs</i> aus der \
             Broker-Transaktion verwendet."));
    items.push(<String as StringExecFns>::from_str("<b>Verdeckte Fremdwährungsgewinne:</b> Bei Transaktionen ohne direkten \
             Währungsumtausch (z. B. Wertpapierkauf in USD ohne EUR-Umtausch) wird der \
             <i>EZB-Referenzkurs</i> des jeweiligen Transaktionsdatums herangezogen."));
    let ghost before_list2 = out@;
    ul(out, &items);
    proof {
        let iv = seq![
            "<b>Tatsächliche Währungstransaktionen:</b> Bei echten Währungsumtäuschen (z. B. \
             USD → EUR) wird der <i>tatsächlich erzielte Umrechnungskurs</i> aus der \
             Broker-Transaktion verwendet."@,
            "<b>Verdeckte Fremdwährungsgewinne:</b> Bei Transaktionen ohne direkten \
             Währungsumtausch (z. B. Wertpapierkauf in USD ohne EUR-Umtausch) wird der \
             <i>EZB-Referenzkurs</i> des jeweiligen Transaktionsdatums herangezogen."@,
        ];
        assert(strings_view(items@) =~= iv);
        crate::tax_statement::html::builder::lemma_list_items_prefix(before_list2 + "<ul>\n"@, iv);
        crate::tax_statement::html::builder::lemma_list_items_prefix("<ul>\n"@, iv);
    }
    assert(out@ =~= old(out)@ + fx_intro_method()) by {
        reveal(fx_intro_method);
    }
}

fn write_fx_intro(out: &mut String)
    ensures
        final(out)@ == old(out)@ + fx_intro(),
{
    write_fx_accounts(out);
    write_fx_method(out);
    assert(out@ =~= old(out)@ + fx_intro());
}

/// The form figures under the tables: the §20 gains and losses, the non-taxable margin-loan result
/// when there is one, the §23 buckets when any is set.
#[verifier::opaque]
pub open spec fn fx_summary(st: GermanTaxStatement) -> Seq<char> {
    "Steuerformular-Werte (alle Währungen): §20 Fremdwährungsgewinne "@ + bold(eur_str(st.total_fx_gains)) + " EUR und -verluste \
         "@ + bold(eur_str(st.total_fx_losses)) + " EUR (→ KAP Zeile 19 / 22)"@
        + (if st.non_taxable_margin_fx.units() != 0 {
        "; nicht steuerbar (Tilgung Fremdwährungskredit) "@ + bold(eur_str(st.non_taxable_margin_fx)) + " EUR"@
    } else {
        Seq::empty()
    }) + (if !(st.section23.short_term_gains.units() == 0 && st.section23.short_term_losses.units() == 0
        && st.section23.long_term_tax_free.units() == 0 && st.section23.borrowed_review.units() == 0) {
        "; §23 kurzfristig netto "@ + bold(eur_str(st.section23.short_term_gains.spec_sub(st.section23.short_term_losses)))
            + " EUR, langfristig steuerfrei "@ + bold(eur_str(st.section23.long_term_tax_free)) + " EUR, Fremdwährungskredit \
             zu prüfen "@ + bold(
            eur_str(st.section23.borrowed_review),
        ) + " EUR"@
    } else {
        Seq::empty()
    }) + "."@
}

#[verifier::spinoff_prover]
#[verifier::rlimit(60)]
fn fx_summary_text(st: &GermanTaxStatement) -> (r: String)
    requires
        fx_ok(*st),
    ensures
        r@ == fx_summary(*st),
{
    let mut text = <String as StringExecFns>::from_str("Steuerformular-Werte (alle Währungen): §20 Fremdwährungsgewinne ");
    text.append(b(eur(st.total_fx_gains).as_str()).as_str());
    text.append(" EUR und -verluste \
         ");
    text.append(b(eur(st.total_fx_losses).as_str()).as_str());
    text.append(" EUR (→ KAP Zeile 19 / 22)");
    let ghost first = text@;
    if !st.non_taxable_margin_fx.is_zero() {
        text.append("; nicht steuerbar (Tilgung Fremdwährungskredit) ");
        text.append(b(eur(st.non_taxable_margin_fx).as_str()).as_str());
        text.append(" EUR");
    }
    let ghost second = text@;
    let s23 = &st.section23;
    if !s23.is_empty() {
        text.append("; §23 kurzfristig netto ");
        text.append(b(eur(s23.short_term_net()).as_str()).as_str());
        text.append(" EUR, langfristig steuerfrei ");
        text.append(b(eur(s23.long_term_tax_free).as_str()).as_str());
        text.append(" EUR, Fremdwährungskredit \
             zu prüfen ");
        text.append(b(eur(s23.borrowed_review).as_str()).as_str());
        text.append(" EUR");
    }
    text.append(".");
    assert(text@ =~= fx_summary(*st)) by {
        reveal(fx_summary);
    }
    text
}

/// The section: omitted without foreign-currency rows.
pub open spec fn fx_after(p: Seq<char>, st: GermanTaxStatement) -> Seq<char> {
    if st.report.fx_rows@.len() == 0 {
        p
    } else {
        groups_after(p + fx_intro(), fx_groups(st.report.fx_rows@)) + note_text("info"@, fx_summary(st))
            + "</section>\n"@
    }
}

/// Section: Fremdwährungsgewinne/-verluste. Omitted without foreign-currency rows.
pub fn fx(out: &mut String, st: &GermanTaxStatement) -> (r: bool)
    requires
        fx_ok(*st),
    ensures
        r == (st.report.fx_rows@.len() > 0),
        final(out)@ == fx_after(old(out)@, *st),
{
    let rows = &st.report.fx_rows;
    if rows.len() == 0 {
        return false;
    }
    write_fx_intro(out);
    let ghost start = out@;
    let keys = fx_keys(rows);
    let order = sort_order(&keys);
    let groups = split_runs(&order, &keys);
    let ghost kv = keys_view(keys@);
    let ghost gs = fx_groups(rows@);
    proof {
        assert(kv == rows@.map_values(|x: FxRow| fx_key(x)));
        assert(runs_view(groups@).map_values(|g: Seq<int>| g.map_values(|i: int| rows@[i])) == gs);
    }
    let mut k: usize = 0;
    while k < groups.len()
        invariant
            fx_ok(*st),
            rows == &st.report.fx_rows,
            gs == runs_view(groups@).map_values(|g: Seq<int>| g.map_values(|i: int| rows@[i])),
            order@.len() == rows@.len(),
            forall|g: int| 0 <= g < groups@.len() ==> (#[trigger] groups@[g])@.len() > 0 && groups@[g]@.len() <= order@.len(),
            forall|g: int, q: int| 0 <= g < groups@.len() && 0 <= q < groups@[g]@.len() ==> #[trigger] groups@[g]@[q] < keys@.len(),
            keys@.len() == rows@.len(),
            k <= groups@.len(),
            out@ == groups_after(start, gs.take(k as int)),
        decreases groups@.len() - k,
    {
        let g = &groups[k];
        proof {
            assert(gs.take(k + 1).drop_last() =~= gs.take(k as int));
            assert(gs.take(k + 1).last() == index_view(g@).map_values(|i: int| rows@[i]));
            assert(index_view(g@).map_values(|i: int| rows@[i])[0] == rows@[g@[0] as int]);
        }
        write_group(out, rows, g);
        k = k + 1;
    }
    proof {
        assert(gs.take(k as int) =~= gs);
    }
    let summary = fx_summary_text(st);
    note(out, "info", summary.as_str());
    section_end(out);
    proof {
        assert(out@ =~= fx_after(old(out)@, *st));
    }
    true
}

} // verus!
