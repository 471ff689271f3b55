//! The activity overview of the German report: per asset class and kind of activity the gains,
//! the losses and their balance, with the form line each feeds.
use vstd::prelude::*;

use crate::decimal::{quantity_bound, Decimal};
use crate::tax_statement::eur::eur_ok;
use crate::tax_statement::germany::csv_formatter::{kap_inv_zeilen, spec_kap_inv_zeilen};
use crate::tax_statement::germany::report_details::{category_of, AssetCategory};
use crate::tax_statement::germany::statement::{
    CapitalGainEntry, DividendEntry, FeeEntry, FxGainEntry, GermanTaxStatement, InterestEntry,
};
use crate::tax_statement::html::builder::{
    b, bold, col, columns_view, empty_cell, num_cell, p, p_text, push_cell, rows_view, section_end,
    section_start, section_start_text, table, table_after, text_cell, Align, Cell, Column, ColumnView,
    Row, RowKind, RowView,
};
use crate::taxes::germany::TeilfreistellungRate;
use crate::text::{int_text, push_int};

use super::format::{category_label, category_text, eur};
use super::fund_section::{
    bounded, lemma_bounded_add, lemma_bounded_is_eur, lemma_bounded_more,
};
use super::securities::rate_of_category;
use super::summary::eur_str;

verus! {

/// One line of the overview as plain values.
pub struct ActivityView {
    pub category: Seq<char>,
    pub activity: Seq<char>,
    pub gain: Decimal,
    pub loss: Decimal,
    pub mapping: Seq<char>,
}

/// One line of the overview: gains and losses kept apart.
pub struct ActivityRow {
    pub category: String,
    pub activity: String,
    pub gain: Decimal,
    pub loss: Decimal,
    pub mapping: String,
}

impl View for ActivityRow {
    type V = ActivityView;

    open spec fn view(&self) -> ActivityView {
        ActivityView {
            category: self.category@,
            activity: self.activity@,
            gain: self.gain,
            loss: self.loss,
            mapping: self.mapping@,
        }
    }
}

pub open spec fn fresh(category: Seq<char>, activity: Seq<char>, mapping: Seq<char>) -> ActivityView {
    ActivityView { category, activity, gain: Decimal::spec_zero(), loss: Decimal::spec_zero(), mapping }
}

/// An amount booked as a gain when not negative, as a loss otherwise.
pub open spec fn add_signed(r: ActivityView, amount: Decimal) -> ActivityView {
    if amount.units() >= 0 {
        ActivityView { gain: r.gain.spec_add(amount), ..r }
    } else {
        ActivityView { loss: r.loss.spec_add(amount), ..r }
    }
}

pub open spec fn row_bounded(r: ActivityView, k: int) -> bool {
    bounded(r.gain, k) && bounded(r.loss, k)
}

/// A figure of the overview: at most 10^16 euros in magnitude, so that the balance of a line and
/// the totals of all lines stay within what the amount formatter takes.
pub open spec fn fit(d: Decimal) -> bool {
    -(10_000 * quantity_bound()) <= d.units() <= 10_000 * quantity_bound()
}

pub open spec fn row_fit(r: ActivityView) -> bool {
    fit(r.gain) && fit(r.loss)
}

proof fn lemma_fit_bounded(r: ActivityView)
    requires
        row_fit(r),
    ensures
        row_bounded(r, 10_000),
{
}

fn new_row(category: &str, activity: &str, mapping: String) -> (r: ActivityRow)
    ensures
        r@ == fresh(category@, activity@, mapping@),
        row_fit(r@),
{
    proof {
        crate::decimal::Decimal::lemma_spec_zero();
    }
    ActivityRow {
        category: <String as StringExecFns>::from_str(category),
        activity: <String as StringExecFns>::from_str(activity),
        gain: Decimal::zero(),
        loss: Decimal::zero(),
        mapping,
    }
}

fn add_amount(row: &mut ActivityRow, amount: Decimal)
    requires
        row_fit(old(row)@),
        fit(amount),
    ensures
        final(row)@ == add_signed(old(row)@, amount),
{
    let zero = Decimal::zero();
    proof {
        crate::decimal::Decimal::lemma_spec_zero();
    }
    if zero.le(&amount) {
        let g = row.gain.add(&amount);
        row.gain = g;
    } else {
        let l = row.loss.add(&amount);
        row.loss = l;
    }
}

/// The capital gains of an asset class added into a line, in order.
pub open spec fn fold_gains(r: ActivityView, s: Seq<CapitalGainEntry>, c: AssetCategory) -> ActivityView
    decreases s.len(),
{
    if s.len() == 0 {
        r
    } else {
        let before = fold_gains(r, s.drop_last(), c);
        if category_of(s.last().teilfreistellung_rate) == c {
            add_signed(before, s.last().gross_gain_loss)
        } else {
            before
        }
    }
}

/// The dividends of an asset class added into a line, in order.
pub open spec fn fold_dividends(r: ActivityView, s: Seq<DividendEntry>, c: AssetCategory) -> ActivityView
    decreases s.len(),
{
    if s.len() == 0 {
        r
    } else {
        let before = fold_dividends(r, s.drop_last(), c);
        if category_of(s.last().teilfreistellung_rate) == c {
            add_signed(before, s.last().gross_amount_eur)
        } else {
            before
        }
    }
}

/// The withholding on the dividends of an asset class, as negative amounts, in order.
pub open spec fn fold_withholding(r: ActivityView, s: Seq<DividendEntry>, c: AssetCategory) -> ActivityView
    decreases s.len(),
{
    if s.len() == 0 {
        r
    } else {
        let before = fold_withholding(r, s.drop_last(), c);
        if category_of(s.last().teilfreistellung_rate) == c && s.last().foreign_withholding_tax.units() != 0 {
            add_signed(before, s.last().foreign_withholding_tax.spec_neg())
        } else {
            before
        }
    }
}

pub open spec fn has_gains(s: Seq<CapitalGainEntry>, c: AssetCategory) -> bool {
    exists|i: int| 0 <= i < s.len() && category_of((#[trigger] s[i]).teilfreistellung_rate) == c
}

pub open spec fn has_dividends(s: Seq<DividendEntry>, c: AssetCategory) -> bool {
    exists|i: int| 0 <= i < s.len() && category_of((#[trigger] s[i]).teilfreistellung_rate) == c
}

pub open spec fn has_withholding(s: Seq<DividendEntry>, c: AssetCategory) -> bool {
    exists|i: int|
        0 <= i < s.len() && category_of((#[trigger] s[i]).teilfreistellung_rate) == c
            && s[i].foreign_withholding_tax.units() != 0
}

/// Where the dividends of an asset class go on the forms.
pub open spec fn dividend_mapping(c: AssetCategory) -> Seq<char> {
    match c {
        AssetCategory::Stock => "→ KAP Zeile 19"@,
        _ => match spec_kap_inv_zeilen(rate_of_category(c)) {
            Some((z, _, _)) => "→ KAP-INV Zeile "@ + int_text(z as int) + " (brutto)"@,
            None => Seq::empty(),
        },
    }
}

pub open spec fn withholding_mapping(c: AssetCategory) -> Seq<char> {
    match c {
        AssetCategory::Stock => "anrechenbar (max. 15 %) → KAP Zeile 41"@,
        _ => "nicht anrechenbar (InvStG)"@,
    }
}

/// Where the net sale result of an asset class goes on the forms.
pub open spec fn sale_mapping(c: AssetCategory, net: Decimal) -> Seq<char> {
    match c {
        AssetCategory::Stock => if net.units() < 0 {
            "Verlust "@ + eur_str(net) + " EUR → KAP Zeile 23 | Netto → KAP Zeile 19"@
        } else {
            "Gewinn "@ + eur_str(net) + " EUR → KAP Zeile 20 | Netto → KAP Zeile 19"@
        },
        _ => match spec_kap_inv_zeilen(rate_of_category(c)) {
            Some((_, _, z)) => "Netto → KAP-INV Zeile "@ + int_text(z as int) + " (brutto)"@,
            None => Seq::empty(),
        },
    }
}

/// The lines of one asset class: dividends, withholding, sales, each when there is any.
pub open spec fn class_rows(st: GermanTaxStatement, c: AssetCategory) -> Seq<ActivityView> {
    let label = category_text(c);
    (if has_dividends(st.dividends@, c) {
        seq![fold_dividends(fresh(label, "Dividenden / Ausschüttungen"@, dividend_mapping(c)), st.dividends@, c)]
    } else {
        seq![]
    }) + (if has_withholding(st.dividends@, c) {
        seq![fold_withholding(fresh(label, "Quellensteuern"@, withholding_mapping(c)), st.dividends@, c)]
    } else {
        seq![]
    }) + (if has_gains(st.capital_gains@, c) {
        let r = fold_gains(fresh(label, "Veräußerungen"@, Seq::empty()), st.capital_gains@, c);
        seq![ActivityView { mapping: sale_mapping(c, r.gain.spec_add(r.loss)), ..r }]
    } else {
        seq![]
    })
}

pub open spec fn dividends_start(c: AssetCategory) -> ActivityView {
    fresh(category_text(c), "Dividenden / Ausschüttungen"@, dividend_mapping(c))
}

pub open spec fn withholding_start(c: AssetCategory) -> ActivityView {
    fresh(category_text(c), "Quellensteuern"@, withholding_mapping(c))
}

pub open spec fn sales_start(c: AssetCategory) -> ActivityView {
    fresh(category_text(c), "Veräußerungen"@, Seq::empty())
}

/// No running total of a line of the overview leaves what the formatter takes: every entry and
/// every partial sum of every line fits.
pub open spec fn activity_ok(st: GermanTaxStatement) -> bool {
    let s = st.section23;
    let x = extra_rows(st);
    &&& forall|c: AssetCategory, n: int| 0 <= n <= st.dividends@.len() ==> row_fit(
        #[trigger] fold_dividends(dividends_start(c), st.dividends@.take(n), c),
    )
    &&& forall|c: AssetCategory, n: int| 0 <= n <= st.dividends@.len() ==> row_fit(
        #[trigger] fold_withholding(withholding_start(c), st.dividends@.take(n), c),
    )
    &&& forall|c: AssetCategory, n: int| 0 <= n <= st.capital_gains@.len() ==> row_fit(
        #[trigger] fold_gains(sales_start(c), st.capital_gains@.take(n), c),
    )
    &&& forall|n: int| 0 <= n <= st.interest@.len() ==> row_fit(
        #[trigger] fold_interest(fresh("Cash"@, "Guthabenzinsen"@, "→ KAP Zeile 19"@), st.interest@.take(n)),
    )
    &&& forall|n: int| 0 <= n <= st.fx_gains@.len() ==> row_fit(
        #[trigger] fold_fx(
            fresh(
                "Devisen"@,
                "Währungsgewinne/-verluste (verzinsl. Konto, §20 EStG)"@,
                "Netto → KAP Zeile 19 | Verluste → KAP Zeile 22"@,
            ),
            st.fx_gains@.take(n),
        ),
    )
    &&& forall|n: int| 0 <= n <= st.fees@.len() ==> row_fit(
        #[trigger] fold_fees(
            fresh("Cash"@, "Gebühren"@, "informativ – kein Werbungskostenabzug (§20 Abs. 9 EStG)"@),
            st.fees@.take(n),
        ),
    )
    &&& forall|i: int| 0 <= i < st.capital_gains@.len() ==> fit(#[trigger] st.capital_gains@[i].gross_gain_loss)
    &&& forall|i: int| 0 <= i < st.dividends@.len() ==> fit(#[trigger] st.dividends@[i].gross_amount_eur)
        && fit(st.dividends@[i].foreign_withholding_tax)
    &&& forall|i: int| 0 <= i < st.interest@.len() ==> fit(#[trigger] st.interest@[i].gross_amount_eur)
    &&& forall|i: int| 0 <= i < st.fx_gains@.len() ==> fit(#[trigger] st.fx_gains@[i].gross_amount_eur)
    &&& forall|i: int| 0 <= i < st.fees@.len() ==> fit(#[trigger] st.fees@[i].amount_eur)
    &&& fit(st.non_taxable_margin_fx) && fit(s.short_term_gains) && fit(s.short_term_losses)
    &&& fit(s.long_term_tax_free) && fit(s.borrowed_review)
    &&& fit(st.total_stock_grant_income) && fit(st.total_cash_grant_income)
    &&& row_fit(x[2]) && row_fit(x[3]) && row_fit(x[4]) && row_fit(x[5]) && row_fit(x[7]) && row_fit(x[8])
    &&& row_fit(add_signed(
        fresh("Devisen"@, "Private Veräußerungsgeschäfte (§23 EStG, ≤ 1 Jahr)"@, "→ Anlage SO Zeilen 41–47"@),
        s.short_term_gains,
    ))
}

fn category_rate(c: AssetCategory) -> (r: TeilfreistellungRate)
    ensures
        r == rate_of_category(c),
{
    match c {
        AssetCategory::Stock => TeilfreistellungRate::NotFund,
        AssetCategory::EquityFund => TeilfreistellungRate::Equity,
        AssetCategory::MixedFund => TeilfreistellungRate::Mixed,
        AssetCategory::OtherFund => TeilfreistellungRate::Bond,
    }
}

pub fn class_of(rate: TeilfreistellungRate) -> (r: AssetCategory)
    ensures
        r == category_of(rate),
{
    match rate {
        TeilfreistellungRate::NotFund => AssetCategory::Stock,
        TeilfreistellungRate::Equity => AssetCategory::EquityFund,
        TeilfreistellungRate::Mixed => AssetCategory::MixedFund,
        TeilfreistellungRate::Bond => AssetCategory::OtherFund,
    }
}

fn dividend_mapping_text(c: AssetCategory) -> (r: String)
    ensures
        r@ == dividend_mapping(c),
{
    match c {
        AssetCategory::Stock => <String as StringExecFns>::from_str("→ KAP Zeile 19"),
        _ => match kap_inv_zeilen(category_rate(c)) {
            Some((z, _, _)) => {
                let mut t = <String as StringExecFns>::from_str("→ KAP-INV Zeile ");
                push_int(&mut t, z as i64);
                t.append(" (brutto)");
                t
            },
            None => String::new(),
        },
    }
}

fn withholding_mapping_text(c: AssetCategory) -> (r: String)
    ensures
        r@ == withholding_mapping(c),
{
    match c {
        AssetCategory::Stock => <String as StringExecFns>::from_str("anrechenbar (max. 15 %) → KAP Zeile 41"),
        _ => <String as StringExecFns>::from_str("nicht anrechenbar (InvStG)"),
    }
}

fn sale_mapping_text(c: AssetCategory, net: Decimal) -> (r: String)
    requires
        eur_ok(net),
    ensures
        r@ == sale_mapping(c, net),
{
    match c {
        AssetCategory::Stock => {
            let zero = Decimal::zero();
            proof {
                crate::decimal::Decimal::lemma_spec_zero();
            }
            if net.lt(&zero) {
                let mut t = <String as StringExecFns>::from_str("Verlust ");
                t.append(eur(net).as_str());
                t.append(" EUR → KAP Zeile 23 | Netto → KAP Zeile 19");
                t
            } else {
                let mut t = <String as StringExecFns>::from_str("Gewinn ");
                t.append(eur(net).as_str());
                t.append(" EUR → KAP Zeile 20 | Netto → KAP Zeile 19");
                t
            }
        },
        _ => match kap_inv_zeilen(category_rate(c)) {
            Some((_, _, z)) => {
                let mut t = <String as StringExecFns>::from_str("Netto → KAP-INV Zeile ");
                push_int(&mut t, z as i64);
                t.append(" (brutto)");
                t
            },
            None => String::new(),
        },
    }
}

/// The dividends line of an asset class, when it has dividends.
fn dividends_line(st: &GermanTaxStatement, c: AssetCategory) -> (r: Option<ActivityRow>)
    requires
        activity_ok(*st),
    ensures
        r is Some <==> has_dividends(st.dividends@, c),
        r matches Some(row) ==> row@ == fold_dividends(
            fresh(category_text(c), "Dividenden / Ausschüttungen"@, dividend_mapping(c)),
            st.dividends@,
            c,
        ) && row_bounded(row@, 10_000),
{
    let mut row = new_row(category_label(c), "Dividenden / Ausschüttungen", dividend_mapping_text(c));
    let ghost start = row@;
    let mut found = false;
    let mut i: usize = 0;
    while i < st.dividends.len()
        invariant
            activity_ok(*st),
            i <= st.dividends@.len(),
            row@ == fold_dividends(start, st.dividends@.take(i as int), c),
            start == dividends_start(c),
            found == exists|j: int| 0 <= j < i && category_of((#[trigger] st.dividends@[j]).teilfreistellung_rate) == c,
        decreases st.dividends@.len() - i,
    {
        let e = &st.dividends[i];
        proof {
            assert(st.dividends@.take(i + 1).drop_last() =~= st.dividends@.take(i as int));
            assert(st.dividends@.take(i + 1).last() == *e);
            assert(row_fit(fold_dividends(dividends_start(c), st.dividends@.take(i as int), c)));
            assert(fit(st.dividends@[i as int].gross_amount_eur));
        }
        if class_of(e.teilfreistellung_rate) == c {
            add_amount(&mut row, e.gross_amount_eur);
            found = true;
        }
        i = i + 1;
    }
    proof {
        assert(st.dividends@.take(i as int) =~= st.dividends@);
        assert(row_fit(fold_dividends(dividends_start(c), st.dividends@.take(i as int), c)));
        lemma_fit_bounded(row@);
    }
    if found {
        Some(row)
    } else {
        None
    }
}

/// The withholding line of an asset class, when any of its dividends had tax withheld.
fn withholding_line(st: &GermanTaxStatement, c: AssetCategory) -> (r: Option<ActivityRow>)
    requires
        activity_ok(*st),
    ensures
        r is Some <==> has_withholding(st.dividends@, c),
        r matches Some(row) ==> row@ == fold_withholding(
            fresh(category_text(c), "Quellensteuern"@, withholding_mapping(c)),
            st.dividends@,
            c,
        ) && row_bounded(row@, 10_000),
{
    let mut row = new_row(category_label(c), "Quellensteuern", withholding_mapping_text(c));
    let ghost start = row@;
    let mut found = false;
    let mut i: usize = 0;
    while i < st.dividends.len()
        invariant
            activity_ok(*st),
            i <= st.dividends@.len(),
            row@ == fold_withholding(start, st.dividends@.take(i as int), c),
            start == withholding_start(c),
            found == exists|j: int|
                0 <= j < i && category_of((#[trigger] st.dividends@[j]).teilfreistellung_rate) == c
                    && st.dividends@[j].foreign_withholding_tax.units() != 0,
        decreases st.dividends@.len() - i,
    {
        let e = &st.dividends[i];
        proof {
            assert(st.dividends@.take(i + 1).drop_last() =~= st.dividends@.take(i as int));
            assert(st.dividends@.take(i + 1).last() == *e);
            assert(row_fit(fold_withholding(withholding_start(c), st.dividends@.take(i as int), c)));
            assert(fit(st.dividends@[i as int].gross_amount_eur));
            assert(fit(st.dividends@[i as int].foreign_withholding_tax));
        }
        if class_of(e.teilfreistellung_rate) == c && !e.foreign_withholding_tax.is_zero() {
            add_amount(&mut row, e.foreign_withholding_tax.neg());
            found = true;
        }
        i = i + 1;
    }
    proof {
        assert(st.dividends@.take(i as int) =~= st.dividends@);
        assert(row_fit(fold_withholding(withholding_start(c), st.dividends@.take(i as int), c)));
        lemma_fit_bounded(row@);
    }
    if found {
        Some(row)
    } else {
        None
    }
}

/// The sales line of an asset class, when it has capital gains: its mapping names the net result.
fn sales_line(st: &GermanTaxStatement, c: AssetCategory) -> (r: Option<ActivityRow>)
    requires
        activity_ok(*st),
    ensures
        r is Some <==> has_gains(st.capital_gains@, c),
        r matches Some(row) ==> {
            let f = fold_gains(fresh(category_text(c), "Veräußerungen"@, Seq::empty()), st.capital_gains@, c);
            row@ == ActivityView { mapping: sale_mapping(c, f.gain.spec_add(f.loss)), ..f }
                && row_bounded(row@, 10_000)
        },
{
    let mut row = new_row(category_label(c), "Veräußerungen", String::new());
    let ghost start = row@;
    let mut found = false;
    let mut i: usize = 0;
    while i < st.capital_gains.len()
        invariant
            activity_ok(*st),
            i <= st.capital_gains@.len(),
            row@ == fold_gains(start, st.capital_gains@.take(i as int), c),
            start == sales_start(c),
            found == exists|j: int| 0 <= j < i && category_of((#[trigger] st.capital_gains@[j]).teilfreistellung_rate) == c,
        decreases st.capital_gains@.len() - i,
    {
        let e = &st.capital_gains[i];
        proof {
            assert(st.capital_gains@.take(i + 1).drop_last() =~= st.capital_gains@.take(i as int));
            assert(st.capital_gains@.take(i + 1).last() == *e);
            assert(row_fit(fold_gains(sales_start(c), st.capital_gains@.take(i as int), c)));
            assert(fit(st.capital_gains@[i as int].gross_gain_loss));
        }
        if class_of(e.teilfreistellung_rate) == c {
            add_amount(&mut row, e.gross_gain_loss);
            found = true;
        }
        i = i + 1;
    }
    proof {
        assert(st.capital_gains@.take(i as int) =~= st.capital_gains@);
        assert(row_fit(fold_gains(sales_start(c), st.capital_gains@.take(i as int), c)));
        lemma_fit_bounded(row@);
    }
    if !found {
        return None;
    }
    proof {
        lemma_bounded_add(row.gain, 10_000, row.loss, 10_000);
    }
    let net = row.gain.add(&row.loss);
    proof {
        lemma_bounded_is_eur(net, 20_001);
    }
    row.mapping = sale_mapping_text(c, net);
    Some(row)
}

fn push_some(rows: &mut Vec<ActivityRow>, r: Option<ActivityRow>)
    ensures
        final(rows)@.map_values(|x: ActivityRow| x@) == old(rows)@.map_values(|x: ActivityRow| x@) + match r {
            Some(x) => seq![x@],
            None => Seq::<ActivityView>::empty(),
        },
        forall|i: int| 0 <= i < old(rows)@.len() ==> final(rows)@[i] == old(rows)@[i],
        final(rows)@.len() == old(rows)@.len() + (if r is Some { 1int } else { 0int }),
        r matches Some(x) ==> final(rows)@.last() == x,
{
    match r {
        Some(x) => {
            let ghost xv = x@;
            rows.push(x);
            assert(rows@.map_values(|x: ActivityRow| x@) =~= old(rows)@.map_values(|x: ActivityRow| x@) + seq![xv]);
        },
        None => {
            assert(rows@.map_values(|x: ActivityRow| x@) =~= old(rows)@.map_values(|x: ActivityRow| x@) + Seq::<ActivityView>::empty());
        },
    }
}

pub open spec fn activity_view(v: Seq<ActivityRow>) -> Seq<ActivityView> {
    v.map_values(|x: ActivityRow| x@)
}

/// Append the lines of one asset class.
fn push_class_rows(rows: &mut Vec<ActivityRow>, st: &GermanTaxStatement, c: AssetCategory)
    requires
        activity_ok(*st),
        forall|i: int| 0 <= i < old(rows)@.len() ==> row_bounded((#[trigger] old(rows)@[i])@, 10_000),
    ensures
        activity_view(final(rows)@) == activity_view(old(rows)@) + class_rows(*st, c),
        forall|i: int| 0 <= i < final(rows)@.len() ==> row_bounded((#[trigger] final(rows)@[i])@, 10_000),
{
    let ghost start = activity_view(rows@);
    let d = dividends_line(st, c);
    push_some(rows, d);
    let w = withholding_line(st, c);
    push_some(rows, w);
    let g = sales_line(st, c);
    push_some(rows, g);
    assert(activity_view(rows@) =~= start + class_rows(*st, c));
}

/// Folds of the other kinds of income, each into its own line.
pub open spec fn fold_interest(r: ActivityView, s: Seq<InterestEntry>) -> ActivityView
    decreases s.len(),
{
    if s.len() == 0 {
        r
    } else {
        add_signed(fold_interest(r, s.drop_last()), s.last().gross_amount_eur)
    }
}

pub open spec fn fold_fx(r: ActivityView, s: Seq<FxGainEntry>) -> ActivityView
    decreases s.len(),
{
    if s.len() == 0 {
        r
    } else {
        add_signed(fold_fx(r, s.drop_last()), s.last().gross_amount_eur)
    }
}

pub open spec fn fold_fees(r: ActivityView, s: Seq<FeeEntry>) -> ActivityView
    decreases s.len(),
{
    if s.len() == 0 {
        r
    } else {
        add_signed(fold_fees(r, s.drop_last()), s.last().amount_eur.spec_neg())
    }
}

/// The lines after the asset classes: interest, §20 FX results, the margin-loan result, the three
/// §23 buckets, fees, stock grants and cash grants.
pub open spec fn extra_rows(st: GermanTaxStatement) -> Seq<ActivityView> {
    let s = st.section23;
    seq![
        fold_interest(fresh("Cash"@, "Guthabenzinsen"@, "→ KAP Zeile 19"@), st.interest@),
        fold_fx(
            fresh(
                "Devisen"@,
                "Währungsgewinne/-verluste (verzinsl. Konto, §20 EStG)"@,
                "Netto → KAP Zeile 19 | Verluste → KAP Zeile 22"@,
            ),
            st.fx_gains@,
        ),
        add_signed(
            fresh("Devisen"@, "FX G/V aus Verbindlichkeiten (Tilgung Fremdwährungskredit)"@, "ℹ Nicht steuerbar"@),
            st.non_taxable_margin_fx,
        ),
        add_signed(
            add_signed(
                fresh("Devisen"@, "Private Veräußerungsgeschäfte (§23 EStG, ≤ 1 Jahr)"@, "→ Anlage SO Zeilen 41–47"@),
                s.short_term_gains,
            ),
            s.short_term_losses.spec_neg(),
        ),
        add_signed(
            fresh("Devisen"@, "Private Veräußerungsgeschäfte (§23 EStG, > 1 Jahr)"@, "steuerfrei"@),
            s.long_term_tax_free,
        ),
        add_signed(fresh("Devisen"@, "Fremdwährungskredit (§23 EStG)"@, "⚠️ manuell prüfen"@), s.borrowed_review),
        fold_fees(
            fresh("Cash"@, "Gebühren"@, "informativ – kein Werbungskostenabzug (§20 Abs. 9 EStG)"@),
            st.fees@,
        ),
        add_signed(
            fresh("Aktien"@, "Aktienzuteilungen (Vesting)"@, "→ Anlage N (Arbeitslohn)"@),
            st.total_stock_grant_income,
        ),
        add_signed(
            fresh("Cash"@, "Bargeldzuwendungen"@, "→ Anlage SO (§22 Nr. 3 EStG)"@),
            st.total_cash_grant_income,
        ),
    ]
}

/// Every line, asset classes first (shares, equity, mixed, other funds), then the others.
pub open spec fn all_rows(st: GermanTaxStatement) -> Seq<ActivityView> {
    class_rows(st, AssetCategory::Stock) + class_rows(st, AssetCategory::EquityFund) + class_rows(
        st,
        AssetCategory::MixedFund,
    ) + class_rows(st, AssetCategory::OtherFund) + extra_rows(st)
}

pub open spec fn is_empty_row(r: ActivityView) -> bool {
    r.gain.units() == 0 && r.loss.units() == 0
}

/// The lines with a gain or a loss, in order.
pub open spec fn shown(s: Seq<ActivityView>) -> Seq<ActivityView>
    decreases s.len(),
{
    if s.len() == 0 {
        seq![]
    } else if is_empty_row(s.last()) {
        shown(s.drop_last())
    } else {
        shown(s.drop_last()).push(s.last())
    }
}

fn push_row(rows: &mut Vec<ActivityRow>, r: ActivityRow)
    ensures
        activity_view(final(rows)@) == activity_view(old(rows)@).push(r@),
        forall|i: int| 0 <= i < old(rows)@.len() ==> final(rows)@[i] == old(rows)@[i],
        final(rows)@.len() == old(rows)@.len() + 1,
        final(rows)@.last() == r,
{
    let ghost v = r@;
    rows.push(r);
    assert(activity_view(rows@) =~= activity_view(old(rows)@).push(v));
}

#[verifier::spinoff_prover]
#[verifier::rlimit(40)]
fn push_extra_rows(rows: &mut Vec<ActivityRow>, st: &GermanTaxStatement)
    requires
        activity_ok(*st),
        forall|i: int| 0 <= i < old(rows)@.len() ==> row_bounded((#[trigger] old(rows)@[i])@, 10_000),
    ensures
        activity_view(final(rows)@) == activity_view(old(rows)@) + extra_rows(*st),
        forall|i: int| 0 <= i < final(rows)@.len() ==> row_bounded((#[trigger] final(rows)@[i])@, 10_000),
{
    let ghost start = activity_view(rows@);
    let mut interest = new_row("Cash", "Guthabenzinsen", <String as StringExecFns>::from_str("→ KAP Zeile 19"));
    let ghost r0 = interest@;
    let mut i: usize = 0;
    while i < st.interest.len()
        invariant
            activity_ok(*st),
            i <= st.interest@.len(),
            interest@ == fold_interest(r0, st.interest@.take(i as int)),
            r0 == fresh("Cash"@, "Guthabenzinsen"@, "→ KAP Zeile 19"@),
        decreases st.interest@.len() - i,
    {
        proof {
            assert(st.interest@.take(i + 1).drop_last() =~= st.interest@.take(i as int));
            assert(row_fit(fold_interest(r0, st.interest@.take(i as int))));
            assert(fit(st.interest@[i as int].gross_amount_eur));
        }
        add_amount(&mut interest, st.interest[i].gross_amount_eur);
        i = i + 1;
    }
    proof {
        assert(st.interest@.take(i as int) =~= st.interest@);
        assert(row_fit(fold_interest(r0, st.interest@.take(i as int))));
        lemma_fit_bounded(interest@);
    }
    push_row(rows, interest);
    let mut fx = new_row(
        "Devisen",
        "Währungsgewinne/-verluste (verzinsl. Konto, §20 EStG)",
        <String as StringExecFns>::from_str("Netto → KAP Zeile 19 | Verluste → KAP Zeile 22"),
    );
    let ghost r1 = fx@;
    let mut i: usize = 0;
    while i < st.fx_gains.len()
        invariant
            activity_ok(*st),
            i <= st.fx_gains@.len(),
            fx@ == fold_fx(r1, st.fx_gains@.take(i as int)),
            r1 == fresh(
                "Devisen"@,
                "Währungsgewinne/-verluste (verzinsl. Konto, §20 EStG)"@,
                "Netto → KAP Zeile 19 | Verluste → KAP Zeile 22"@,
            ),
        decreases st.fx_gains@.len() - i,
    {
        proof {
            assert(st.fx_gains@.take(i + 1).drop_last() =~= st.fx_gains@.take(i as int));
            assert(row_fit(fold_fx(r1, st.fx_gains@.take(i as int))));
            assert(fit(st.fx_gains@[i as int].gross_amount_eur));
        }
        add_amount(&mut fx, st.fx_gains[i].gross_amount_eur);
        i = i + 1;
    }
    proof {
        assert(st.fx_gains@.take(i as int) =~= st.fx_gains@);
        assert(row_fit(fold_fx(r1, st.fx_gains@.take(i as int))));
        lemma_fit_bounded(fx@);
    }
    push_row(rows, fx);
    push_fixed_rows(rows, st);
    let mut fees = new_row(
        "Cash",
        "Gebühren",
        <String as StringExecFns>::from_str("informativ – kein Werbungskostenabzug (§20 Abs. 9 EStG)"),
    );
    let ghost r2 = fees@;
    let mut i: usize = 0;
    while i < st.fees.len()
        invariant
            activity_ok(*st),
            i <= st.fees@.len(),
            fees@ == fold_fees(r2, st.fees@.take(i as int)),
            r2 == fresh("Cash"@, "Gebühren"@, "informativ – kein Werbungskostenabzug (§20 Abs. 9 EStG)"@),
        decreases st.fees@.len() - i,
    {
        proof {
            assert(st.fees@.take(i + 1).drop_last() =~= st.fees@.take(i as int));
            assert(row_fit(fold_fees(r2, st.fees@.take(i as int))));
            assert(fit(st.fees@[i as int].amount_eur));
        }
        add_amount(&mut fees, st.fees[i].amount_eur.neg());
        i = i + 1;
    }
    proof {
        assert(st.fees@.take(i as int) =~= st.fees@);
        assert(row_fit(fold_fees(r2, st.fees@.take(i as int))));
        lemma_fit_bounded(fees@);
    }
    push_row(rows, fees);
    push_grant_rows(rows, st);
    assert(activity_view(rows@) =~= start + extra_rows(*st));
}

/// The margin-loan line and the three §23 lines.
fn push_fixed_rows(rows: &mut Vec<ActivityRow>, st: &GermanTaxStatement)
    requires
        activity_ok(*st),
        forall|i: int| 0 <= i < old(rows)@.len() ==> row_bounded((#[trigger] old(rows)@[i])@, 10_000),
    ensures
        activity_view(final(rows)@) == activity_view(old(rows)@) + extra_rows(*st).subrange(2, 6),
        forall|i: int| 0 <= i < final(rows)@.len() ==> row_bounded((#[trigger] final(rows)@[i])@, 10_000),
{
    let ghost start = activity_view(rows@);
    let s = &st.section23;
    let mut margin = new_row(
        "Devisen",
        "FX G/V aus Verbindlichkeiten (Tilgung Fremdwährungskredit)",
        <String as StringExecFns>::from_str("ℹ Nicht steuerbar"),
    );
    add_amount(&mut margin, st.non_taxable_margin_fx);
    proof {
        lemma_fit_bounded(margin@);
    }
    push_row(rows, margin);
    let mut short = new_row(
        "Devisen",
        "Private Veräußerungsgeschäfte (§23 EStG, ≤ 1 Jahr)",
        <String as StringExecFns>::from_str("→ Anlage SO Zeilen 41–47"),
    );
    add_amount(&mut short, s.short_term_gains);
    add_amount(&mut short, s.short_term_losses.neg());
    proof {
        lemma_fit_bounded(short@);
    }
    push_row(rows, short);
    let mut long = new_row(
        "Devisen",
        "Private Veräußerungsgeschäfte (§23 EStG, > 1 Jahr)",
        <String as StringExecFns>::from_str("steuerfrei"),
    );
    add_amount(&mut long, s.long_term_tax_free);
    proof {
        lemma_fit_bounded(long@);
    }
    push_row(rows, long);
    let mut borrowed = new_row(
        "Devisen",
        "Fremdwährungskredit (§23 EStG)",
        <String as StringExecFns>::from_str("⚠️ manuell prüfen"),
    );
    add_amount(&mut borrowed, s.borrowed_review);
    proof {
        lemma_fit_bounded(borrowed@);
    }
    push_row(rows, borrowed);
    assert(activity_view(rows@) =~= start + extra_rows(*st).subrange(2, 6));
}

/// The stock-grant and cash-grant lines.
fn push_grant_rows(rows: &mut Vec<ActivityRow>, st: &GermanTaxStatement)
    requires
        activity_ok(*st),
        forall|i: int| 0 <= i < old(rows)@.len() ==> row_bounded((#[trigger] old(rows)@[i])@, 10_000),
    ensures
        activity_view(final(rows)@) == activity_view(old(rows)@) + extra_rows(*st).subrange(7, 9),
        forall|i: int| 0 <= i < final(rows)@.len() ==> row_bounded((#[trigger] final(rows)@[i])@, 10_000),
{
    let ghost start = activity_view(rows@);
    let mut grants = new_row(
        "Aktien",
        "Aktienzuteilungen (Vesting)",
        <String as StringExecFns>::from_str("→ Anlage N (Arbeitslohn)"),
    );
    add_amount(&mut grants, st.total_stock_grant_income);
    proof {
        lemma_fit_bounded(grants@);
    }
    push_row(rows, grants);
    let mut cash = new_row(
        "Cash",
        "Bargeldzuwendungen",
        <String as StringExecFns>::from_str("→ Anlage SO (§22 Nr. 3 EStG)"),
    );
    add_amount(&mut cash, st.total_cash_grant_income);
    proof {
        lemma_fit_bounded(cash@);
    }
    push_row(rows, cash);
    assert(activity_view(rows@) =~= start + extra_rows(*st).subrange(7, 9));
}


/// The sum of the gains of the lines, in order.
pub open spec fn gain_total(s: Seq<ActivityView>) -> Decimal
    decreases s.len(),
{
    if s.len() == 0 {
        Decimal::spec_zero()
    } else {
        gain_total(s.drop_last()).spec_add(s.last().gain)
    }
}

/// The sum of the losses of the lines, in order.
pub open spec fn loss_total(s: Seq<ActivityView>) -> Decimal
    decreases s.len(),
{
    if s.len() == 0 {
        Decimal::spec_zero()
    } else {
        loss_total(s.drop_last()).spec_add(s.last().loss)
    }
}

pub open spec fn activity_columns() -> Seq<ColumnView> {
    seq![
        ColumnView { title: "Asset-Kategorie"@, align: Align::Left },
        ColumnView { title: "Aktivität"@, align: Align::Left },
        ColumnView { title: "Gewinn EUR"@, align: Align::Right },
        ColumnView { title: "Verlust EUR"@, align: Align::Right },
        ColumnView { title: "G/V EUR"@, align: Align::Right },
        ColumnView { title: "Steuerliche Zuordnung"@, align: Align::Left },
    ]
}

/// A line of the table: class, activity, gain, loss, balance, form line.
pub open spec fn activity_line(r: ActivityView) -> RowView {
    RowView {
        kind: RowKind::Data,
        cells: seq![
            text_cell(r.category),
            text_cell(r.activity),
            num_cell(eur_str(r.gain)),
            num_cell(eur_str(r.loss)),
            num_cell(eur_str(r.gain.spec_add(r.loss))),
            text_cell(r.mapping),
        ],
    }
}

/// The closing line: the totals of the gains, of the losses and their balance.
pub open spec fn activity_total(s: Seq<ActivityView>) -> RowView {
    RowView {
        kind: RowKind::Total,
        cells: seq![
            text_cell("GESAMT"@),
            empty_cell(),
            num_cell(eur_str(gain_total(s))),
            num_cell(eur_str(loss_total(s))),
            num_cell(eur_str(gain_total(s).spec_add(loss_total(s)))),
            empty_cell(),
        ],
    }
}

#[verifier::opaque]
pub open spec fn activity_intro() -> Seq<char> {
    section_start_text(
        "aktivitaet"@,
        "Übersicht nach Aktivität und Assetkategorie – inkl. steuerlicher Zuordnung"@,
    ) + p_text(
        "Diese Tabelle zeigt eine "@ + bold("Übersicht aller relevanten Transaktionen"@)
            + " des Steuerjahres. Für jede Aktivität und Assetklasse \
             wird der jeweilige "@ + bold("Gewinn, Verlust und Gesamtsaldo in EUR"@)
            + " dargestellt – inklusive der "@ + bold("zugehörigen steuerlichen Einordnung"@)
            + " (z. B. KAP-19, KAP-23, \
             SO-Zeilen). Beträge sind Bruttowerte vor Teilfreistellung und Verlustverrechnung; \
             die Formularwerte finden Sie in der Übersicht für die Steuerformulare."@,
    )
}

fn write_activity_intro(out: &mut String)
    ensures
        final(out)@ == old(out)@ + activity_intro(),
{
    section_start(out, "aktivitaet", "Übersicht nach Aktivität und Assetkategorie – inkl. steuerlicher Zuordnung");
    let mut text = <String as StringExecFns>::from_str("Diese Tabelle zeigt eine ");
    text.append(b("Übersicht aller relevanten Transaktionen").as_str());
    text.append(" des Steuerjahres. Für jede Aktivität und Assetklasse \
             wird der jeweilige ");
    text.append(b("Gewinn, Verlust und Gesamtsaldo in EUR").as_str());
    text.append(" dargestellt – inklusive der ");
    text.append(b("zugehörigen steuerlichen Einordnung").as_str());
    text.append(" (z. B. KAP-19, KAP-23, \
             SO-Zeilen). Beträge sind Bruttowerte vor Teilfreistellung und Verlustverrechnung; \
             die Formularwerte finden Sie in der Übersicht für die Steuerformulare.");
    p(out, text.as_str());
    assert(out@ =~= old(out)@ + activity_intro()) by {
        reveal(activity_intro);
    }
}

/// The section: omitted when no line has a gain or a loss.
pub open spec fn activity_after(p: Seq<char>, st: GermanTaxStatement) -> Seq<char> {
    let s = shown(all_rows(st));
    if s.len() == 0 {
        p
    } else {
        table_after(
            p + activity_intro(),
            activity_columns(),
            s.map_values(|r: ActivityView| activity_line(r)).push(activity_total(s)),
        ) + "</section>\n"@
    }
}

fn line_of(r: &ActivityRow) -> (row: Row)
    requires
        row_bounded(r@, 10_000),
    ensures
        row@ == activity_line(r@),
{
    proof {
        lemma_bounded_is_eur(r.gain, 10_000);
        lemma_bounded_is_eur(r.loss, 10_000);
        lemma_bounded_add(r.gain, 10_000, r.loss, 10_000);
    }
    let net = r.gain.add(&r.loss);
    proof {
        lemma_bounded_is_eur(net, 20_001);
    }
    let mut cells: Vec<Cell> = Vec::new();
    push_cell(&mut cells, Cell::text(r.category.as_str()));
    push_cell(&mut cells, Cell::text(r.activity.as_str()));
    push_cell(&mut cells, Cell::num(eur(r.gain).as_str()));
    push_cell(&mut cells, Cell::num(eur(r.loss).as_str()));
    push_cell(&mut cells, Cell::num(eur(net).as_str()));
    push_cell(&mut cells, Cell::text(r.mapping.as_str()));
    let row = Row::data(cells);
    assert(row@.cells =~= activity_line(r@).cells);
    row
}

fn total_of(gain: Decimal, loss: Decimal) -> (row: Row)
    requires
        bounded(gain, 210_021),
        bounded(loss, 210_021),
    ensures
        row@ == (RowView {
            kind: RowKind::Total,
            cells: seq![
                text_cell("GESAMT"@),
                empty_cell(),
                num_cell(eur_str(gain)),
                num_cell(eur_str(loss)),
                num_cell(eur_str(gain.spec_add(loss))),
                empty_cell(),
            ],
        }),
{
    proof {
        lemma_bounded_is_eur(gain, 210_021);
        lemma_bounded_is_eur(loss, 210_021);
        lemma_bounded_add(gain, 210_021, loss, 210_021);
    }
    let net = gain.add(&loss);
    proof {
        lemma_bounded_is_eur(net, 420_043);
    }
    let mut cells: Vec<Cell> = Vec::new();
    push_cell(&mut cells, Cell::text("GESAMT"));
    push_cell(&mut cells, Cell::empty());
    push_cell(&mut cells, Cell::num(eur(gain).as_str()));
    push_cell(&mut cells, Cell::num(eur(loss).as_str()));
    push_cell(&mut cells, Cell::num(eur(net).as_str()));
    push_cell(&mut cells, Cell::empty());
    let row = Row::total(cells);
    proof {
        assert(row@.cells =~= seq![
            text_cell("GESAMT"@),
            empty_cell(),
            num_cell(eur_str(gain)),
            num_cell(eur_str(loss)),
            num_cell(eur_str(gain.spec_add(loss))),
            empty_cell(),
        ]);
    }
    row
}

proof fn lemma_all_rows_len(st: GermanTaxStatement)
    ensures
        all_rows(st).len() <= 21,
{
    assert(class_rows(st, AssetCategory::Stock).len() <= 3);
    assert(class_rows(st, AssetCategory::EquityFund).len() <= 3);
    assert(class_rows(st, AssetCategory::MixedFund).len() <= 3);
    assert(class_rows(st, AssetCategory::OtherFund).len() <= 3);
    assert(extra_rows(st).len() == 9);
}

/// Every line of the overview, built in order.
fn collect_rows(st: &GermanTaxStatement) -> (rows: Vec<ActivityRow>)
    requires
        activity_ok(*st),
    ensures
        activity_view(rows@) == all_rows(*st),
        forall|i: int| 0 <= i < rows@.len() ==> row_bounded((#[trigger] rows@[i])@, 10_000),
{
    let mut rows: Vec<ActivityRow> = Vec::new();
    proof {
        assert(activity_view(rows@) =~= Seq::<ActivityView>::empty());
    }
    push_class_rows(&mut rows, st, AssetCategory::Stock);
    push_class_rows(&mut rows, st, AssetCategory::EquityFund);
    push_class_rows(&mut rows, st, AssetCategory::MixedFund);
    push_class_rows(&mut rows, st, AssetCategory::OtherFund);
    push_extra_rows(&mut rows, st);
    assert(activity_view(rows@) =~= all_rows(*st));
    rows
}

/// Section: Übersicht nach Aktivität und Assetkategorie. Omitted when every line is zero.
#[verifier::rlimit(40)]
pub fn by_activity(out: &mut String, st: &GermanTaxStatement) -> (r: bool)
    requires
        activity_ok(*st),
    ensures
        r == (shown(all_rows(*st)).len() > 0),
        final(out)@ == activity_after(old(out)@, *st),
{
    let rows = collect_rows(st);
    let ghost av = activity_view(rows@);
    proof {
        lemma_all_rows_len(*st);
        crate::decimal::Decimal::lemma_spec_zero();
    }
    let mut lines: Vec<Row> = Vec::new();
    let mut gain = Decimal::zero();
    let mut loss = Decimal::zero();
    let mut i: usize = 0;
    while i < rows.len()
        invariant
            av == activity_view(rows@),
            rows@.len() <= 21,
            forall|j: int| 0 <= j < rows@.len() ==> row_bounded((#[trigger] rows@[j])@, 10_000),
            i <= rows@.len(),
            rows_view(lines@) == shown(av.take(i as int)).map_values(|r: ActivityView| activity_line(r)),
            gain == gain_total(shown(av.take(i as int))),
            loss == loss_total(shown(av.take(i as int))),
            bounded(gain, 10_001 * i),
            bounded(loss, 10_001 * i),
        decreases rows@.len() - i,
    {
        let r = &rows[i];
        proof {
            assert(av.take(i + 1).drop_last() =~= av.take(i as int));
            assert(av.take(i + 1).last() == r@);
            assert(row_bounded(rows@[i as int]@, 10_000));
        }
        if r.gain.is_zero() && r.loss.is_zero() {
            proof {
                lemma_bounded_more(gain, 10_001 * i, 10_001 * (i + 1));
                lemma_bounded_more(loss, 10_001 * i, 10_001 * (i + 1));
            }
        } else {
            proof {
                lemma_bounded_add(gain, 10_001 * i, r.gain, 10_000);
                lemma_bounded_add(loss, 10_001 * i, r.loss, 10_000);
            }
            let g = gain.add(&r.gain);
            let l = loss.add(&r.loss);
            gain = g;
            loss = l;
            let line = line_of(r);
            let ghost before = rows_view(lines@);
            lines.push(line);
            proof {
                let sh = shown(av.take(i as int));
                assert(shown(av.take(i + 1)) == sh.push(r@));
                assert(sh.push(r@).drop_last() =~= sh);
                assert(rows_view(lines@) =~= before.push(activity_line(r@)));
                assert(sh.push(r@).map_values(|r: ActivityView| activity_line(r)) =~= sh.map_values(
                    |r: ActivityView| activity_line(r),
                ).push(activity_line(r@)));
                assert(rows_view(lines@) =~= shown(av.take(i + 1)).map_values(|r: ActivityView| activity_line(r)));
            }
        }
        i = i + 1;
    }
    proof {
        assert(av.take(i as int) =~= av);
    }
    if lines.len() == 0 {
        assert(shown(av).len() == 0);
        return false;
    }
    write_activity_intro(out);
    proof {
        lemma_bounded_more(gain, 10_001 * i, 210_021);
        lemma_bounded_more(loss, 10_001 * i, 210_021);
    }
    let total = total_of(gain, loss);
    let ghost before = rows_view(lines@);
    lines.push(total);
    proof {
        assert(rows_view(lines@) =~= before.push(activity_total(shown(av))));
    }
    let mut columns: Vec<Column> = Vec::new();
    columns.push(col("Asset-Kategorie", Align::Left));
    columns.push(col("Aktivität", Align::Left));
    columns.push(col("Gewinn EUR", Align::Right));
    columns.push(col("Verlust EUR", Align::Right));
    columns.push(col("G/V EUR", Align::Right));
    columns.push(col("Steuerliche Zuordnung", Align::Left));
    proof {
        assert(columns_view(columns@) =~= activity_columns());
    }
    table(out, &columns, &lines);
    section_end(out);
    true
}

} // verus!
