//! The year computation of the German statement and the capital gains of stock sales: the FIFO
//! cost of the lots a sale consumed, the exclusion of the profit of lots acquired before 2009
//! (Altbestand), the reduction of a fund's sale gain by the Vorabpauschale already taxed (§19
//! InvStG), and the Teilfreistellung of fund units.
use vstd::prelude::*;

use crate::date::Date;
use crate::decimal::{decimal_text, in_range, unit, Decimal};
use crate::taxes::germany::{base_ok, church_rate_ok, spec_compute_taxes, TeilfreistellungRate};
use crate::text::text_eq;

use crate::broker_statement::interest::IdleCashInterest;
use crate::config::ForeignCurrencyTaxation;
use crate::tax_statement::fx_fifo::{results_view, CurrencyFxResult};

use super::income::{
    any_in_year, fee_entries, fee_entries_view, interest_entries, interest_entries_view, process_fees,
    process_interest, BrokerFee,
};
use super::processor::{
    apply_teilfreistellung, fx_entry_specs, has_section20_income, non_taxable_total, route_fx_results,
    routing_ok, section20_entries, section23_of, spec_apply_teilfreistellung,
};
use super::statement::{is_fresh, totals_fit, with_totals, CapitalGainEntry, GermanTaxStatement};

verus! {

/// A lot that a sale consumed, in acquisition order: its acquisition date, its quantity (times
/// the instrument's multiplier), and its cost in EUR.
#[derive(Debug, Clone, Copy)]
pub struct SaleLot {
    pub open_date: Date,
    pub quantity: Decimal,
    pub cost_eur: Decimal,
}

/// A stock sale with the lots that FIFO matched to it, its net proceeds already in EUR.
#[derive(Debug, Clone)]
pub struct StockSale {
    pub symbol: String,
    /// Empty where the instrument's ISIN is not known.
    pub isin: String,
    /// The instrument's name, or the symbol where it has none.
    pub description: String,
    pub conclusion_date: Date,
    pub settle_date: Date,
    pub quantity: Decimal,
    /// A sale on the market, as opposed to one that a corporate action made.
    pub is_trade: bool,
    /// Revenue less commission, in EUR.
    pub net_proceeds_eur: Decimal,
    /// The Teilfreistellung class of the fund, looked up by the ISIN.
    pub teilfreistellung_rate: TeilfreistellungRate,
    pub lots: Vec<SaleLot>,
}

/// A sale yields a capital gain entry of `year` when it was concluded in that year on the market.
pub open spec fn spec_produces_capital_gain(t: StockSale, year: int) -> bool {
    t.conclusion_date.y() == year && t.is_trade
}

/// Whether a sale yields a capital gain entry of `year`.
pub fn produces_capital_gain(trade: &StockSale, year: i32) -> (r: bool)
    ensures
        r == spec_produces_capital_gain(*trade, year as int),
{
    trade.conclusion_date.year() == year && trade.is_trade
}

/// A capital gain entry as plain values.
pub struct GainView {
    pub transaction_date: Date,
    pub settle_date: Date,
    pub symbol: Seq<char>,
    pub isin: Seq<char>,
    pub description: Seq<char>,
    pub quantity: Decimal,
    pub cost_basis_eur: Decimal,
    pub proceeds_eur: Decimal,
    pub gross_gain_loss: Decimal,
    pub taxable_before_exemption: Decimal,
    pub teilfreistellung_rate: TeilfreistellungRate,
    pub is_stock: bool,
    pub taxable_amount: Decimal,
    pub foreign_tax: Decimal,
    pub abgeltungssteuer: Decimal,
    pub solidaritaetszuschlag: Decimal,
    pub kirchensteuer: Decimal,
    pub total_tax: Decimal,
    pub pre_2009_holding: bool,
    pub notes: Option<Seq<char>>,
}

pub open spec fn gain_view(e: CapitalGainEntry) -> GainView {
    GainView {
        transaction_date: e.transaction_date,
        settle_date: e.settle_date,
        symbol: e.symbol@,
        isin: e.isin@,
        description: e.description@,
        quantity: e.quantity,
        cost_basis_eur: e.cost_basis_eur,
        proceeds_eur: e.proceeds_eur,
        gross_gain_loss: e.gross_gain_loss,
        taxable_before_exemption: e.taxable_before_exemption,
        teilfreistellung_rate: e.teilfreistellung_rate,
        is_stock: e.is_stock,
        taxable_amount: e.taxable_amount,
        foreign_tax: e.foreign_tax,
        abgeltungssteuer: e.abgeltungssteuer,
        solidaritaetszuschlag: e.solidaritaetszuschlag,
        kirchensteuer: e.kirchensteuer,
        total_tax: e.total_tax,
        pre_2009_holding: e.pre_2009_holding,
        notes: match e.notes {
            Some(n) => Some(n@),
            None => None,
        },
    }
}

pub open spec fn gains_view(v: Seq<CapitalGainEntry>) -> Seq<GainView> {
    v.map_values(|e: CapitalGainEntry| gain_view(e))
}

/// The total quantity of the first `k` lots.
pub open spec fn quantity_sum(lots: Seq<SaleLot>, k: nat) -> Decimal
    decreases k,
{
    if k == 0 {
        Decimal::spec_zero()
    } else {
        quantity_sum(lots, (k - 1) as nat).spec_add(lots[k - 1].quantity)
    }
}

/// No running sum of the quantities overflows.
pub open spec fn quantities_fit(lots: Seq<SaleLot>, k: nat) -> bool
    decreases k,
{
    k == 0 || (quantities_fit(lots, (k - 1) as nat) && in_range(
        quantity_sum(lots, (k - 1) as nat).units() + lots[k - 1].quantity.units(),
    ))
}

/// The running figures of the walk over a sale's lots: the cost basis, the profit of the
/// Altbestand lots, and whether there is one.
pub struct LotWalk {
    pub cost: Decimal,
    pub pre_profit: Decimal,
    pub has_pre: bool,
}

/// A lot acquired before 2009-01-01 (Altbestand, §52 Abs. 28 S. 11 EStG).
pub open spec fn is_altbestand(lot: SaleLot) -> bool {
    lot.open_date.y() < 2009
}

/// A lot's share of the sale's quantity; none where the sale has no quantity.
pub open spec fn lot_share(lot: SaleLot, total: Decimal) -> Decimal {
    if total.units() == 0 {
        Decimal::spec_zero()
    } else {
        lot.quantity.spec_div(total)
    }
}

/// The lot's share of the net proceeds.
pub open spec fn lot_proceeds(lot: SaleLot, net: Decimal, total: Decimal) -> Decimal {
    net.spec_mul(lot_share(lot, total))
}

pub open spec fn walk_step(w: LotWalk, lot: SaleLot, net: Decimal, total: Decimal) -> LotWalk {
    let cost = w.cost.spec_add(lot.cost_eur);
    if is_altbestand(lot) {
        LotWalk {
            cost,
            pre_profit: if total.units() == 0 {
                w.pre_profit
            } else {
                w.pre_profit.spec_add(lot_proceeds(lot, net, total).spec_sub(lot.cost_eur))
            },
            has_pre: true,
        }
    } else {
        LotWalk { cost, ..w }
    }
}

/// No operation of a step of the walk overflows.
pub open spec fn walk_step_fits(w: LotWalk, lot: SaleLot, net: Decimal, total: Decimal) -> bool {
    &&& in_range(w.cost.units() + lot.cost_eur.units())
    &&& total.units() != 0 ==> in_range(lot.quantity.units() * unit() / total.units()) && in_range(
        -lot.quantity.units() * unit() / total.units(),
    )
    &&& in_range(net.units() * lot_share(lot, total).units() / unit())
    &&& is_altbestand(lot) && total.units() != 0 ==> in_range(
        lot_proceeds(lot, net, total).units() - lot.cost_eur.units(),
    ) && in_range(w.pre_profit.units() + lot_proceeds(lot, net, total).spec_sub(lot.cost_eur).units())
}

pub open spec fn lot_walk(lots: Seq<SaleLot>, k: nat, net: Decimal, total: Decimal) -> LotWalk
    decreases k,
{
    if k == 0 {
        LotWalk { cost: Decimal::spec_zero(), pre_profit: Decimal::spec_zero(), has_pre: false }
    } else {
        walk_step(lot_walk(lots, (k - 1) as nat, net, total), lots[k - 1], net, total)
    }
}

pub open spec fn walk_fits(lots: Seq<SaleLot>, k: nat, net: Decimal, total: Decimal) -> bool
    decreases k,
{
    k == 0 || (walk_fits(lots, (k - 1) as nat, net, total) && walk_step_fits(
        lot_walk(lots, (k - 1) as nat, net, total),
        lots[k - 1],
        net,
        total,
    ))
}

/// The accumulated Vorabpauschale of an ISIN: that of its first entry, none without one.
pub open spec fn carry_of(carries: Seq<(Seq<char>, Decimal)>, isin: Seq<char>) -> Decimal
    decreases carries.len(),
{
    if carries.len() == 0 {
        Decimal::spec_zero()
    } else if carries[0].0 == isin {
        carries[0].1
    } else {
        carry_of(carries.drop_first(), isin)
    }
}

pub open spec fn texts(v: Seq<String>) -> Seq<Seq<char>> {
    v.map_values(|s: String| s@)
}

pub open spec fn carries_view(v: Seq<(String, Decimal)>) -> Seq<(Seq<char>, Decimal)> {
    v.map_values(|p: (String, Decimal)| (p.0@, p.1))
}

pub open spec fn altbestand_note() -> Seq<char> {
    "Altbestand (pre-2009) lots grandfathered — their profit excluded"@
}

pub open spec fn reduced_note(carry: Decimal) -> Seq<char> {
    "Sale gain reduced by €"@ + decimal_text(carry.mant(), carry.exp())
        + " accumulated Vorabpauschale (§19 InvStG); reset this fund's vorabpauschale_carryforward to 0"@
}

pub open spec fn partial_note() -> Seq<char> {
    "Partial fund sale: accumulated Vorabpauschale not deducted here (still held at year end); adjust the §19 reduction manually"@
}

/// The class of a sale: a fund class only where the ISIN is known.
pub open spec fn sale_rate(t: StockSale) -> TeilfreistellungRate {
    if t.isin@.len() == 0 {
        TeilfreistellungRate::NotFund
    } else {
        t.teilfreistellung_rate
    }
}

/// The §19 InvStG decision for a sale: the reduction, the note, and whether the ISIN's
/// Vorabpauschale is now used. A fund's accumulated Vorabpauschale reduces its sale gain once per
/// ISIN, and only where the fund is no longer held at the year's end.
pub open spec fn vorab_decision(
    t: StockSale,
    consumed: Seq<Seq<char>>,
    held: Seq<Seq<char>>,
    carries: Seq<(Seq<char>, Decimal)>,
) -> (Decimal, Option<Seq<char>>, bool) {
    let isin = t.isin@;
    if sale_rate(t) == TeilfreistellungRate::NotFund || isin.len() == 0 {
        (Decimal::spec_zero(), None, false)
    } else {
        let carry = carry_of(carries, isin);
        let fully_disposed = !held.contains(isin);
        if carry.units() > 0 && fully_disposed && !consumed.contains(isin) {
            (carry, Some(reduced_note(carry)), true)
        } else if carry.units() > 0 && !fully_disposed {
            (Decimal::spec_zero(), Some(partial_note()), false)
        } else {
            (Decimal::spec_zero(), None, false)
        }
    }
}

pub open spec fn sale_notes(has_pre: bool, vp: Option<Seq<char>>) -> Option<Seq<char>> {
    match vp {
        None => if has_pre {
            Some(altbestand_note())
        } else {
            None
        },
        Some(n) => if has_pre {
            Some(altbestand_note() + "; "@ + n)
        } else {
            Some(n)
        },
    }
}

/// The figures of a sale before its taxes.
pub open spec fn sale_walk(t: StockSale) -> LotWalk {
    let lots = t.lots@;
    lot_walk(lots, lots.len(), t.net_proceeds_eur, quantity_sum(lots, lots.len()))
}

pub open spec fn sale_gross(t: StockSale) -> Decimal {
    t.net_proceeds_eur.spec_sub(sale_walk(t).cost)
}

pub open spec fn sale_before_exemption(t: StockSale, reduction: Decimal) -> Decimal {
    sale_gross(t).spec_sub(sale_walk(t).pre_profit).spec_sub(reduction)
}

/// The capital gain entry of a sale.
pub open spec fn sale_entry(
    t: StockSale,
    consumed: Seq<Seq<char>>,
    held: Seq<Seq<char>>,
    carries: Seq<(Seq<char>, Decimal)>,
    church: Decimal,
) -> GainView {
    let w = sale_walk(t);
    let rate = sale_rate(t);
    let vp = vorab_decision(t, consumed, held, carries);
    let before = sale_before_exemption(t, vp.0);
    let taxable = spec_apply_teilfreistellung(before, rate);
    let taxes = spec_compute_taxes(church, taxable, Decimal::spec_zero());
    GainView {
        transaction_date: t.conclusion_date,
        settle_date: t.settle_date,
        symbol: t.symbol@,
        isin: t.isin@,
        description: t.description@,
        quantity: t.quantity,
        cost_basis_eur: w.cost,
        proceeds_eur: t.net_proceeds_eur,
        gross_gain_loss: sale_gross(t),
        taxable_before_exemption: before,
        teilfreistellung_rate: rate,
        is_stock: rate == TeilfreistellungRate::NotFund,
        taxable_amount: taxable,
        foreign_tax: Decimal::spec_zero(),
        abgeltungssteuer: taxes.abgeltungssteuer,
        solidaritaetszuschlag: taxes.solidaritaetszuschlag,
        kirchensteuer: taxes.kirchensteuer,
        total_tax: taxes.total,
        pre_2009_holding: w.has_pre,
        notes: sale_notes(w.has_pre, vp.1),
    }
}

/// No operation of a sale's figures overflows, and its taxable amount is within what the tax
/// computation takes.
pub open spec fn sale_fits(t: StockSale, consumed: Seq<Seq<char>>, held: Seq<Seq<char>>, carries: Seq<(Seq<char>, Decimal)>) -> bool {
    let lots = t.lots@;
    let total = quantity_sum(lots, lots.len());
    let w = sale_walk(t);
    let vp = vorab_decision(t, consumed, held, carries);
    let post = sale_gross(t).spec_sub(w.pre_profit);
    &&& quantities_fit(lots, lots.len())
    &&& walk_fits(lots, lots.len(), t.net_proceeds_eur, total)
    &&& in_range(t.net_proceeds_eur.units() - w.cost.units())
    &&& in_range(sale_gross(t).units() - w.pre_profit.units())
    &&& in_range(post.units() - vp.0.units())
    &&& in_range(sale_before_exemption(t, vp.0).units())
    &&& base_ok(spec_apply_teilfreistellung(sale_before_exemption(t, vp.0), sale_rate(t)))
}

/// The ISINs whose accumulated Vorabpauschale the first `n` sales used, in order.
pub open spec fn consumed_after(
    sales: Seq<StockSale>,
    n: nat,
    held: Seq<Seq<char>>,
    carries: Seq<(Seq<char>, Decimal)>,
    year: int,
) -> Seq<Seq<char>>
    decreases n,
{
    if n == 0 {
        Seq::empty()
    } else {
        let consumed = consumed_after(sales, (n - 1) as nat, held, carries, year);
        let t = sales[n - 1];
        if spec_produces_capital_gain(t, year) && vorab_decision(t, consumed, held, carries).2 {
            consumed.push(t.isin@)
        } else {
            consumed
        }
    }
}

/// The capital gain entries of the first `n` sales: one per sale of `year` on the market, in
/// the order of the sales.
pub open spec fn trade_entries(
    sales: Seq<StockSale>,
    n: nat,
    held: Seq<Seq<char>>,
    carries: Seq<(Seq<char>, Decimal)>,
    year: int,
    church: Decimal,
) -> Seq<GainView>
    decreases n,
{
    if n == 0 {
        Seq::empty()
    } else {
        let entries = trade_entries(sales, (n - 1) as nat, held, carries, year, church);
        let t = sales[n - 1];
        if spec_produces_capital_gain(t, year) {
            entries.push(sale_entry(t, consumed_after(sales, (n - 1) as nat, held, carries, year), held, carries, church))
        } else {
            entries
        }
    }
}

/// No sale of the first `n` overflows.
pub open spec fn trades_fit(
    sales: Seq<StockSale>,
    n: nat,
    held: Seq<Seq<char>>,
    carries: Seq<(Seq<char>, Decimal)>,
    year: int,
) -> bool
    decreases n,
{
    n == 0 || (trades_fit(sales, (n - 1) as nat, held, carries, year) && (spec_produces_capital_gain(
        sales[n - 1],
        year,
    ) ==> sale_fits(sales[n - 1], consumed_after(sales, (n - 1) as nat, held, carries, year), held, carries)))
}

pub open spec fn any_gain(sales: Seq<StockSale>, year: int) -> bool {
    exists|i: int| 0 <= i < sales.len() && spec_produces_capital_gain(#[trigger] sales[i], year)
}



fn text(literal: &str) -> (r: String)
    ensures
        r@ == literal@,
{
    <String as StringExecFns>::from_str(literal)
}

/// The total quantity of the lots.
fn total_quantity(lots: &Vec<SaleLot>) -> (r: Decimal)
    requires
        quantities_fit(lots@, lots@.len()),
    ensures
        r == quantity_sum(lots@, lots@.len()),
{
    let mut total = Decimal::zero();
    let mut i: usize = 0;
    while i < lots.len()
        invariant
            i <= lots@.len(),
            quantities_fit(lots@, lots@.len()),
            total == quantity_sum(lots@, i as nat),
        decreases lots@.len() - i,
    {
        proof {
            lemma_quantities_fit_prefix(lots@, (i + 1) as nat, lots@.len());
        }
        total = total.add(&lots[i].quantity);
        i = i + 1;
    }
    total
}

proof fn lemma_quantities_fit_prefix(lots: Seq<SaleLot>, k: nat, n: nat)
    requires
        k <= n,
        quantities_fit(lots, n),
    ensures
        quantities_fit(lots, k),
    decreases n - k,
{
    if k < n {
        lemma_quantities_fit_prefix(lots, k, (n - 1) as nat);
    }
}

proof fn lemma_walk_fits_prefix(lots: Seq<SaleLot>, k: nat, n: nat, net: Decimal, total: Decimal)
    requires
        k <= n,
        walk_fits(lots, n, net, total),
    ensures
        walk_fits(lots, k, net, total),
    decreases n - k,
{
    if k < n {
        lemma_walk_fits_prefix(lots, k, (n - 1) as nat, net, total);
    }
}

/// Walk the lots once: the cost basis, and the profit of the Altbestand lots.
fn walk_lots(lots: &Vec<SaleLot>, net: Decimal, total: Decimal) -> (r: (Decimal, Decimal, bool))
    requires
        walk_fits(lots@, lots@.len(), net, total),
    ensures
        r.0 == lot_walk(lots@, lots@.len(), net, total).cost,
        r.1 == lot_walk(lots@, lots@.len(), net, total).pre_profit,
        r.2 == lot_walk(lots@, lots@.len(), net, total).has_pre,
{
    let mut cost = Decimal::zero();
    let mut pre_profit = Decimal::zero();
    let mut has_pre = false;
    let mut i: usize = 0;
    while i < lots.len()
        invariant
            i <= lots@.len(),
            walk_fits(lots@, lots@.len(), net, total),
            cost == lot_walk(lots@, i as nat, net, total).cost,
            pre_profit == lot_walk(lots@, i as nat, net, total).pre_profit,
            has_pre == lot_walk(lots@, i as nat, net, total).has_pre,
        decreases lots@.len() - i,
    {
        proof {
            lemma_walk_fits_prefix(lots@, (i + 1) as nat, lots@.len(), net, total);
        }
        let lot = lots[i];
        cost = cost.add(&lot.cost_eur);
        let share = if total.is_zero() {
            Decimal::zero()
        } else {
            lot.quantity.div(&total)
        };
        let proceeds = net.mul(&share);
        if lot.open_date.year() < 2009 {
            has_pre = true;
            if !total.is_zero() {
                let profit = proceeds.sub(&lot.cost_eur);
                pre_profit = pre_profit.add(&profit);
            }
        }
        i = i + 1;
    }
    (cost, pre_profit, has_pre)
}

/// Whether `v` holds `s`.
fn has_text(v: &Vec<String>, s: &str) -> (r: bool)
    ensures
        r == texts(v@).contains(s@),
{
    let mut i: usize = 0;
    while i < v.len()
        invariant
            i <= v@.len(),
            forall|j: int| 0 <= j < i ==> v@[j]@ != s@,
        decreases v@.len() - i,
    {
        if text_eq(v[i].as_str(), s) {
            proof {
                assert(texts(v@)[i as int] == s@);
            }
            return true;
        }
        i = i + 1;
    }
    proof {
        if texts(v@).contains(s@) {
            let j = choose|j: int| 0 <= j < texts(v@).len() && texts(v@)[j] == s@;
            assert(v@[j]@ == s@);
        }
    }
    false
}

/// The accumulated Vorabpauschale of an ISIN.
fn carry_lookup(carries: &Vec<(String, Decimal)>, isin: &str) -> (r: Decimal)
    ensures
        r == carry_of(carries_view(carries@), isin@),
{
    let ghost cv = carries_view(carries@);
    let mut i: usize = 0;
    proof {
        assert(cv.skip(0) =~= cv);
    }
    while i < carries.len()
        invariant
            i <= carries@.len(),
            cv == carries_view(carries@),
            carry_of(cv, isin@) == carry_of(cv.skip(i as int), isin@),
        decreases carries@.len() - i,
    {
        proof {
            assert(cv.skip(i as int).drop_first() =~= cv.skip(i + 1));
            assert(cv.skip(i as int)[0] == (carries@[i as int].0@, carries@[i as int].1));
        }
        if text_eq(carries[i].0.as_str(), isin) {
            return carries[i].1;
        }
        i = i + 1;
    }
    proof {
        assert(cv.skip(i as int).len() == 0);
    }
    Decimal::zero()
}

fn notes_text(has_pre: bool, vp: Option<String>) -> (r: Option<String>)
    ensures
        (match r {
            Some(n) => Some(n@),
            None => None,
        }) == sale_notes(has_pre, match vp {
            Some(n) => Some(n@),
            None => None,
        }),
{
    let alt = "Altbestand (pre-2009) lots grandfathered — their profit excluded";
    match vp {
        None => if has_pre {
            Some(text(alt))
        } else {
            None
        },
        Some(n) => if has_pre {
            let mut m = text(alt);
            m.append("; ");
            m.append(n.as_str());
            Some(m)
        } else {
            Some(n)
        },
    }
}

/// The capital gain entry of a sale concluded in the year on the market; `consumed` gets the ISIN
/// whose accumulated Vorabpauschale the sale used.
fn sale_entry_exec(
    t: &StockSale,
    consumed: &mut Vec<String>,
    held: &Vec<String>,
    carries: &Vec<(String, Decimal)>,
    statement: &GermanTaxStatement,
) -> (r: CapitalGainEntry)
    requires
        church_rate_ok(statement.tax_rates.church_tax_rate),
        sale_fits(*t, texts(old(consumed)@), texts(held@), carries_view(carries@)),
    ensures
        gain_view(r) == sale_entry(
            *t,
            texts(old(consumed)@),
            texts(held@),
            carries_view(carries@),
            statement.tax_rates.church_tax_rate,
        ),
        texts(final(consumed)@) == if vorab_decision(*t, texts(old(consumed)@), texts(held@), carries_view(carries@)).2 {
            texts(old(consumed)@).push(t.isin@)
        } else {
            texts(old(consumed)@)
        },
{
    let ghost c0 = texts(consumed@);
    let ghost hv = texts(held@);
    let ghost cv = carries_view(carries@);
    let total = total_quantity(&t.lots);
    let (cost, pre_profit, has_pre) = walk_lots(&t.lots, t.net_proceeds_eur, total);
    let net = t.net_proceeds_eur;
    let gross = net.sub(&cost);
    let post = gross.sub(&pre_profit);
    let rate = if t.isin.as_str().unicode_len() == 0 {
        TeilfreistellungRate::NotFund
    } else {
        t.teilfreistellung_rate
    };
    let zero = Decimal::zero();
    let mut reduction = Decimal::zero();
    let mut vp_note: Option<String> = None;
    let ghost vp = vorab_decision(*t, c0, hv, cv);
    let not_fund = match rate {
        TeilfreistellungRate::NotFund => true,
        _ => false,
    };
    if !not_fund && t.isin.as_str().unicode_len() != 0 {
        let carry = carry_lookup(carries, t.isin.as_str());
        let fully_disposed = !has_text(held, t.isin.as_str());
        if zero.lt(&carry) && fully_disposed && !has_text(consumed, t.isin.as_str()) {
            reduction = carry;
            let mut m = text("Sale gain reduced by €");
            m.append(carry.to_text().as_str());
            m.append(" accumulated Vorabpauschale (§19 InvStG); reset this fund's vorabpauschale_carryforward to 0");
            vp_note = Some(m);
            let ghost before = consumed@;
            consumed.push(t.isin.clone());
            proof {
                assert(texts(consumed@) =~= texts(before).push(t.isin@));
            }
        } else if zero.lt(&carry) && !fully_disposed {
            vp_note = Some(text(
                "Partial fund sale: accumulated Vorabpauschale not deducted here (still held at year end); adjust the §19 reduction manually",
            ));
        }
    }
    proof {
        Decimal::lemma_spec_zero();
        assert(reduction == vp.0);
    }
    let before = post.sub(&reduction);
    let taxable = apply_teilfreistellung(before, &rate);
    let taxes = statement.tax_rates.compute_taxes(taxable, zero);
    let notes = notes_text(has_pre, vp_note);
    CapitalGainEntry {
        transaction_date: t.conclusion_date,
        settle_date: t.settle_date,
        symbol: t.symbol.clone(),
        isin: t.isin.clone(),
        description: t.description.clone(),
        quantity: t.quantity,
        cost_basis_eur: cost,
        proceeds_eur: net,
        gross_gain_loss: gross,
        taxable_before_exemption: before,
        teilfreistellung_rate: rate,
        is_stock: not_fund,
        taxable_amount: taxable,
        foreign_tax: zero,
        abgeltungssteuer: taxes.abgeltungssteuer,
        solidaritaetszuschlag: taxes.solidaritaetszuschlag,
        kirchensteuer: taxes.kirchensteuer,
        total_tax: taxes.total,
        pre_2009_holding: has_pre,
        notes,
    }
}

proof fn lemma_trades_fit_prefix(
    sales: Seq<StockSale>,
    k: nat,
    n: nat,
    held: Seq<Seq<char>>,
    carries: Seq<(Seq<char>, Decimal)>,
    year: int,
)
    requires
        k <= n,
        trades_fit(sales, n, held, carries, year),
    ensures
        trades_fit(sales, k, held, carries, year),
    decreases n - k,
{
    if k < n {
        lemma_trades_fit_prefix(sales, k, (n - 1) as nat, held, carries, year);
    }
}

/// Add a capital gain entry for every sale of `year` on the market, in the order of the sales:
/// the cost basis is the EUR cost of the lots FIFO matched to the sale; the profit share of lots
/// acquired before 2009 is excluded; a fund's accumulated Vorabpauschale (`carries`, by ISIN)
/// reduces its gain once, where the fund is not among the ISINs `held` at the year's end; the
/// Teilfreistellung of its class applies. Whether any sale produced an entry is returned.
pub fn process_trades(
    statement: &mut GermanTaxStatement,
    sales: &Vec<StockSale>,
    held: &Vec<String>,
    carries: &Vec<(String, Decimal)>,
    year: i32,
) -> (r: bool)
    requires
        church_rate_ok(old(statement).tax_rates.church_tax_rate),
        trades_fit(sales@, sales@.len(), texts(held@), carries_view(carries@), year as int),
    ensures
        r == any_gain(sales@, year as int),
        gains_view(final(statement).capital_gains@) == gains_view(old(statement).capital_gains@) + trade_entries(
            sales@,
            sales@.len(),
            texts(held@),
            carries_view(carries@),
            year as int,
            old(statement).tax_rates.church_tax_rate,
        ),
        *final(statement) == (GermanTaxStatement { capital_gains: final(statement).capital_gains, ..*old(statement) }),
{
    let ghost start = gains_view(statement.capital_gains@);
    let ghost hv = texts(held@);
    let ghost cv = carries_view(carries@);
    let ghost church = statement.tax_rates.church_tax_rate;
    let mut consumed: Vec<String> = Vec::new();
    let mut has_income = false;
    let mut i: usize = 0;
    proof {
        assert(texts(consumed@) =~= Seq::<Seq<char>>::empty());
        assert(start + Seq::<GainView>::empty() =~= start);
    }
    while i < sales.len()
        invariant
            i <= sales@.len(),
            trades_fit(sales@, sales@.len(), hv, cv, year as int),
            hv == texts(held@),
            cv == carries_view(carries@),
            church == statement.tax_rates.church_tax_rate,
            church_rate_ok(church),
            texts(consumed@) == consumed_after(sales@, i as nat, hv, cv, year as int),
            gains_view(statement.capital_gains@) == start + trade_entries(sales@, i as nat, hv, cv, year as int, church),
            *statement == (GermanTaxStatement { capital_gains: statement.capital_gains, ..*old(statement) }),
            has_income == exists|j: int| 0 <= j < i && spec_produces_capital_gain(#[trigger] sales@[j], year as int),
        decreases sales@.len() - i,
    {
        let t = &sales[i];
        proof {
            lemma_trades_fit_prefix(sales@, (i + 1) as nat, sales@.len(), hv, cv, year as int);
        }
        if produces_capital_gain(t, year) {
            has_income = true;
            let ghost before = statement.capital_gains@;
            let entry = sale_entry_exec(t, &mut consumed, held, carries, statement);
            statement.add_capital_gain(entry);
            proof {
                assert(gains_view(statement.capital_gains@) =~= gains_view(before).push(gain_view(entry)));
                assert(start + trade_entries(sales@, (i + 1) as nat, hv, cv, year as int, church) =~= (start
                    + trade_entries(sales@, i as nat, hv, cv, year as int, church)).push(gain_view(entry)));
            }
        }
        i = i + 1;
    }
    has_income
}

/// What a year's statement is built from, as the broker statement yields it: the stock sales with
/// their FIFO lots, the fund ISINs still held at the year's end, each fund's accumulated
/// Vorabpauschale, the interest on idle cash with the EUR value of each item, the results of the
/// foreign-currency FIFO with the account's treatment, and the broker fees.
pub struct YearActivity {
    pub sales: Vec<StockSale>,
    pub held_isins: Vec<String>,
    pub vorabpauschale_carryforward: Vec<(String, Decimal)>,
    pub interest: Vec<IdleCashInterest>,
    pub interest_eur: Vec<Decimal>,
    pub fx_results: Vec<CurrencyFxResult>,
    pub fx_taxation: ForeignCurrencyTaxation,
    pub fees: Vec<BrokerFee>,
}

/// What processing a year's activity takes.
pub open spec fn activity_ok(a: YearActivity, year: int) -> bool {
    &&& trades_fit(a.sales@, a.sales@.len(), texts(a.held_isins@), carries_view(a.vorabpauschale_carryforward@), year)
    &&& a.interest_eur@.len() == a.interest@.len()
    &&& forall|i: int| 0 <= i < a.interest_eur@.len() ==> base_ok(#[trigger] a.interest_eur@[i])
    &&& routing_ok(results_view(a.fx_results@))
}

/// `s1` is `s0` filled from a year's activity: the capital gains of the sales, the interest, the
/// foreign-currency results (§20 or §23 by the account's treatment) and the fees appended; nothing
/// else changed.
pub open spec fn processed(s0: GermanTaxStatement, s1: GermanTaxStatement, a: YearActivity, year: int) -> bool {
    let church = s0.tax_rates.church_tax_rate;
    let rv = results_view(a.fx_results@);
    &&& gains_view(s1.capital_gains@) == gains_view(s0.capital_gains@) + trade_entries(
        a.sales@,
        a.sales@.len(),
        texts(a.held_isins@),
        carries_view(a.vorabpauschale_carryforward@),
        year,
        church,
    )
    &&& interest_entries_view(s1.interest@) == interest_entries_view(s0.interest@) + interest_entries(
        a.interest@,
        a.interest_eur@,
        a.interest@.len(),
        year,
        church,
    )
    &&& fee_entries_view(s1.fees@) == fee_entries_view(s0.fees@) + fee_entries(a.fees@, a.fees@.len(), year)
    &&& a.fx_taxation == ForeignCurrencyTaxation::InterestBearing ==> {
        &&& fx_entry_specs(s1.fx_gains@) == fx_entry_specs(s0.fx_gains@) + section20_entries(rv, year, church)
        &&& s1.non_taxable_margin_fx == non_taxable_total(rv, year).spec_round_dp(2)
        &&& s1.section23 == s0.section23
    }
    &&& a.fx_taxation == ForeignCurrencyTaxation::NonInterestBearing ==> {
        &&& s1.section23 == section23_of(rv, year)
        &&& s1.fx_gains == s0.fx_gains
        &&& s1.non_taxable_margin_fx == s0.non_taxable_margin_fx
    }
    &&& s1 == (GermanTaxStatement {
        capital_gains: s1.capital_gains,
        interest: s1.interest,
        fx_gains: s1.fx_gains,
        non_taxable_margin_fx: s1.non_taxable_margin_fx,
        section23: s1.section23,
        fees: s1.fees,
        ..s0
    })
}

/// Fill the statement from a year's activity: the capital gains of the sales, the interest, the
/// foreign-currency results (§20 or §23 by the account's treatment), and the fees. Returns whether
/// the year has capital gains, interest and FX income.
pub fn process_broker_statement(
    statement: &mut GermanTaxStatement,
    activity: &YearActivity,
    year: i32,
) -> (r: (bool, bool, bool))
    requires
        church_rate_ok(old(statement).tax_rates.church_tax_rate),
        activity_ok(*activity, year as int),
    ensures
        processed(*old(statement), *final(statement), *activity, year as int),
        r.0 == any_gain(activity.sales@, year as int),
        r.1 == any_in_year(activity.interest@, year as int),
        activity.fx_taxation == ForeignCurrencyTaxation::InterestBearing ==> r.2 == has_section20_income(
            results_view(activity.fx_results@),
            year as int,
        ),
        activity.fx_taxation == ForeignCurrencyTaxation::NonInterestBearing ==> r.2 == !(
        final(statement).section23.short_term_gains.units() == 0
            && final(statement).section23.short_term_losses.units() == 0
            && final(statement).section23.long_term_tax_free.units() == 0
            && final(statement).section23.borrowed_review.units() == 0),
{
    let has_trades = process_trades(
        statement,
        &activity.sales,
        &activity.held_isins,
        &activity.vorabpauschale_carryforward,
        year,
    );
    let has_interest = process_interest(statement, &activity.interest, &activity.interest_eur, year);
    let has_fx = route_fx_results(statement, &activity.fx_results, year, activity.fx_taxation);
    let _has_fees = process_fees(statement, &activity.fees, year);
    (has_trades, has_interest, has_fx)
}

/// Whether a year has foreign-currency income: with an interest-bearing account, a held-currency
/// result dated in the year (§20 EStG); otherwise, a §23 EStG bucket of the statement that is not
/// zero.
pub open spec fn year_has_fx_income(a: YearActivity, year: int, st: GermanTaxStatement) -> bool {
    if a.fx_taxation == ForeignCurrencyTaxation::InterestBearing {
        has_section20_income(results_view(a.fx_results@), year)
    } else {
        !(st.section23.short_term_gains.units() == 0 && st.section23.short_term_losses.units() == 0
            && st.section23.long_term_tax_free.units() == 0 && st.section23.borrowed_review.units() == 0)
    }
}

/// The fresh statement of `year` with the given church tax rate, carryforwards and allowance.
pub open spec fn fresh_for(s: GermanTaxStatement, year: int, church: Decimal, stock: Decimal, other: Decimal, sparer: Decimal) -> bool {
    &&& s.year == year && s.tax_rates.year == year && s.tax_rates.church_tax_rate == church
    &&& s.loss_carryforward_stock_prior == stock && s.loss_carryforward_other_prior == other
    &&& s.sparer_pauschbetrag == sparer
    &&& is_fresh(s)
}

/// What computing a year takes: the activity is processable, and the statement that processing
/// yields can be totalled.
pub open spec fn year_ok(
    year: int,
    church: Decimal,
    stock: Decimal,
    other: Decimal,
    sparer: Decimal,
    activity: YearActivity,
) -> bool {
    &&& activity_ok(activity, year)
    &&& forall|s0: GermanTaxStatement, s1: GermanTaxStatement|
        fresh_for(s0, year, church, stock, other, sparer) && #[trigger] processed(s0, s1, activity, year) ==> totals_fit(s1)
}

/// The complete German tax result of `year`: a fresh statement with the year's rates, prior-year
/// loss carryforwards and allowance, filled from the year's activity and totalled. Refused for a
/// year before 2009 or a church tax rate outside 0..=100%. Returns the statement and whether the
/// year has any income at all: capital gains, interest or FX income.
pub fn compute_tax_year(
    year: i32,
    church_tax_rate: Decimal,
    loss_carryforward_stock: Decimal,
    loss_carryforward_other: Decimal,
    sparer_pauschbetrag: Decimal,
    activity: &YearActivity,
) -> (r: Result<(GermanTaxStatement, bool), String>)
    requires
        year_ok(
            year as int,
            church_tax_rate,
            loss_carryforward_stock,
            loss_carryforward_other,
            sparer_pauschbetrag,
            *activity,
        ),
    ensures
        r is Ok <==> year >= 2009 && church_rate_ok(church_tax_rate),
        r matches Ok(p) ==> exists|s0: GermanTaxStatement, s1: GermanTaxStatement|
            {
                &&& fresh_for(s0, year as int, church_tax_rate, loss_carryforward_stock, loss_carryforward_other, sparer_pauschbetrag)
                &&& #[trigger] processed(s0, s1, *activity, year as int)
                &&& p.0 == with_totals(s1)
            },
        r matches Ok(p) ==> (any_gain(activity.sales@, year as int) || any_in_year(activity.interest@, year as int)) ==> p.1,
        r matches Ok(p) ==> (p.1 <==> (any_gain(activity.sales@, year as int) || any_in_year(
            activity.interest@,
            year as int,
        ) || year_has_fx_income(*activity, year as int, p.0))),
{
    let mut statement = match GermanTaxStatement::new(
        year,
        church_tax_rate,
        loss_carryforward_stock,
        loss_carryforward_other,
        sparer_pauschbetrag,
    ) {
        Ok(s) => s,
        Err(e) => {
            return Err(e);
        },
    };
    let ghost s0 = statement;
    let (has_trades, has_interest, has_fx) = process_broker_statement(&mut statement, activity, year);
    proof {
        assert(fresh_for(s0, year as int, church_tax_rate, loss_carryforward_stock, loss_carryforward_other, sparer_pauschbetrag));
        assert(processed(s0, statement, *activity, year as int));
    }
    statement.calculate_totals();
    Ok((statement, has_trades || has_interest || has_fx))
}

} // verus!
