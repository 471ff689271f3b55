//! From broker data to statement entries: the partial exemption of fund income, the creditable
//! foreign tax of a dividend, and the routing of FX results to §20 or §23 EStG.
use vstd::prelude::*;

use crate::date::{months_later, Date};
use crate::decimal::{cents, in_range, quantity_bound, unit, Decimal};
use crate::tax_statement::fx_fifo::{results_view, CurrencyFxResult, CurrencyFxResultView, FxRealizationView};
use crate::taxes::germany::{
    church_rate_ok, spec_compute_taxes, spec_taxable_portion, AbgeltungsteuerBreakdown,
    TeilfreistellungRate,
};

use crate::broker_statement::interest::ForeignCashFlow;
use crate::config::ForeignCurrencyTaxation;
use crate::text::text_eq;

use super::statement::{amount_ok, within, FxGainEntry, GermanTaxStatement, Section23};

verus! {

/// The amount after the Teilfreistellung of its fund class: times the taxable share.
pub open spec fn spec_apply_teilfreistellung(amount: Decimal, rate: TeilfreistellungRate) -> Decimal {
    amount.spec_mul(spec_taxable_portion(rate))
}

/// Apply Teilfreistellung (partial exemption) to an amount.
pub fn apply_teilfreistellung(amount: Decimal, rate: &TeilfreistellungRate) -> (r: Decimal)
    requires
        in_range(amount.units()),
    ensures
        r == spec_apply_teilfreistellung(amount, *rate),
{
    let portion = rate.taxable_portion();
    proof {
        let e = crate::taxes::germany::exempt_percent(*rate);
        assert(0 <= e <= 30);
        assert(0 <= portion.units() <= unit()) by (nonlinear_arith)
            requires
                portion.units() == (100 - e) * (unit() / 100),
                0 <= e <= 30,
                unit() == 10_000_000_000_000_000_000_000_000_000,
        ;
        lemma_share_in_range(amount.units(), portion.units());
    }
    amount.mul(&portion)
}

proof fn lemma_share_in_range(a: int, p: int)
    requires
        in_range(a),
        0 <= p <= unit(),
    ensures
        in_range(a * p / unit()),
{
    let u = unit();
    assert(-abs(a) <= a * p / u <= abs(a)) by (nonlinear_arith)
        requires
            0 <= p <= u,
            u > 0,
    {
        if a >= 0 {
            assert(a * p <= a * u);
            assert(a * p / u <= a * u / u);
        } else {
            assert(a * p >= a * u);
            assert(a * p / u >= a * u / u);
        }
    }
}

/// At most a quarter of a value that the representation holds cannot overflow.
proof fn lemma_quarter_in_range(a: int, p: int)
    requires
        -(crate::decimal::MAX_MANTISSA as int) * unit() <= a <= (crate::decimal::MAX_MANTISSA as int) * unit(),
        0 <= p <= unit() / 4,
    ensures
        in_range(a * p / unit()),
{
    let u = unit();
    let b = (crate::decimal::MAX_MANTISSA as int) * u;
    assert(-b / 4 <= a * p / u <= b / 4) by (nonlinear_arith)
        requires
            0 <= p <= u / 4,
            u > 0,
            -b <= a <= b,
            b >= 0,
            u % 4 == 0,
    {
        if a >= 0 {
            assert(a * p <= b * (u / 4));
            assert(b * (u / 4) == (b / 4) * u + (b % 4) * (u / 4));
            assert(a * p / u <= b / 4);
        } else {
            assert(a * p >= -b * (u / 4));
            assert(a * p / u >= -b / 4);
        }
    }
}

spec fn abs(a: int) -> int {
    if a < 0 {
        -a
    } else {
        a
    }
}

/// §32d(5) EStG: the creditable foreign tax of a dividend is the withholding, capped at 15% of the
/// gross (the treaty rate) and at 25% of the taxable amount, never negative. Fund distributions
/// carry none (InvStG 2018).
pub open spec fn spec_creditable_foreign_tax(
    withholding: Decimal,
    gross: Decimal,
    taxable: Decimal,
    rate: TeilfreistellungRate,
) -> Decimal {
    if rate != TeilfreistellungRate::NotFund {
        Decimal::spec_zero()
    } else {
        withholding.spec_min(gross.spec_mul(Decimal::spec_new(15, 2))).spec_min(
            taxable.spec_mul(Decimal::spec_new(25, 2)),
        ).spec_max(Decimal::spec_zero())
    }
}

/// Creditable foreign withholding tax on a dividend item under §32d(5) EStG.
pub fn creditable_foreign_tax(
    withholding_paid: Decimal,
    gross_amount: Decimal,
    taxable_amount: Decimal,
    teilfreistellung: &TeilfreistellungRate,
) -> (r: Decimal)
    requires
        in_range(gross_amount.units()),
        in_range(taxable_amount.units()),
    ensures
        r == spec_creditable_foreign_tax(withholding_paid, gross_amount, taxable_amount, *teilfreistellung),
        r.units() >= 0,
        teilfreistellung != TeilfreistellungRate::NotFund ==> r.units() == 0,
{
    let zero = Decimal::zero();
    match teilfreistellung {
        TeilfreistellungRate::NotFund => {},
        _ => {
            return zero;
        },
    }
    let treaty = Decimal::new(15, 2);
    let statutory = Decimal::new(25, 2);
    proof {
        reveal_with_fuel(crate::decimal::pow10, 27);
        use_type_invariant(&gross_amount);
        use_type_invariant(&taxable_amount);
        gross_amount.lemma_valid_units();
        taxable_amount.lemma_valid_units();
        lemma_quarter_in_range(gross_amount.units(), treaty.units());
        lemma_quarter_in_range(taxable_amount.units(), statutory.units());
    }
    let treaty_cap = gross_amount.mul(&treaty);
    let statutory_cap = taxable_amount.mul(&statutory);
    withholding_paid.min(&treaty_cap).min(&statutory_cap).max(&zero)
}

/// "Mehr als ein Jahr" (§23 EStG): strictly after the first anniversary of the acquisition.
pub open spec fn spec_held_over_one_year(acquisition: Date, disposal: Date) -> bool {
    match months_later(acquisition, 12) {
        Some(a) => disposal.key() > a.0 * 10000 + a.1 * 100 + a.2,
        None => false,
    }
}

/// "Mehr als ein Jahr" (§23 EStG): tax-free only when the disposal is strictly after the first
/// anniversary of acquisition (holding period per §187/§188 BGB via §108 AO).
pub fn held_over_one_year(acquisition_date: Date, disposal_date: Date) -> (r: bool)
    ensures
        r == spec_held_over_one_year(acquisition_date, disposal_date),
{
    match acquisition_date.checked_add_months(12) {
        Some(anniversary) => anniversary.before(&disposal_date),
        None => false,
    }
}

/// An FX entry as plain values.
pub struct FxEntrySpec {
    pub date: Date,
    pub currency_pair: Seq<char>,
    pub description: Seq<char>,
    pub gross: Decimal,
    pub taxable: Decimal,
    pub taxes: AbgeltungsteuerBreakdown,
    pub notes: Option<Seq<char>>,
}

pub open spec fn fx_entry_spec(e: FxGainEntry) -> FxEntrySpec {
    FxEntrySpec {
        date: e.transaction_date,
        currency_pair: e.currency_pair@,
        description: e.description@,
        gross: e.gross_amount_eur,
        taxable: e.taxable_amount,
        taxes: AbgeltungsteuerBreakdown {
            abgeltungssteuer: e.abgeltungssteuer,
            solidaritaetszuschlag: e.solidaritaetszuschlag,
            kirchensteuer: e.kirchensteuer,
            total: e.total_tax,
        },
        notes: match e.notes {
            Some(n) => Some(n@),
            None => None,
        },
    }
}

pub open spec fn fx_entry_specs(v: Seq<FxGainEntry>) -> Seq<FxEntrySpec> {
    v.map_values(|e: FxGainEntry| fx_entry_spec(e))
}

/// The §20 entry of a realized held-currency result: rounded to cents, taxed on its own with no
/// creditable tax (a loss owes nothing but offsets in the pot).
pub open spec fn section20_entry(currency: Seq<char>, t: FxRealizationView, k: Decimal) -> FxEntrySpec {
    let gross = t.amount.spec_round_dp(2);
    FxEntrySpec {
        date: t.date,
        currency_pair: "EUR."@ + currency,
        description: "§20 Fremdwährungsgewinn — Verwendung ("@ + t.activity_code + ")"@,
        gross,
        taxable: gross,
        taxes: spec_compute_taxes(k, gross, Decimal::spec_zero()),
        notes: if gross.units() < 0 {
            Some("FX loss - can offset other capital income (§20 EStG)"@)
        } else {
            None
        },
    }
}

/// The §20 entries of one currency's held-balance results of `year`, in order.
pub open spec fn section20_currency_entries(
    currency: Seq<char>,
    s: Seq<FxRealizationView>,
    year: int,
    k: Decimal,
) -> Seq<FxEntrySpec>
    decreases s.len(),
{
    if s.len() == 0 {
        seq![]
    } else {
        let before = section20_currency_entries(currency, s.drop_last(), year, k);
        if s.last().date.y() == year {
            before.push(section20_entry(currency, s.last(), k))
        } else {
            before
        }
    }
}

pub open spec fn section20_entries(r: Seq<CurrencyFxResultView>, year: int, k: Decimal) -> Seq<FxEntrySpec>
    decreases r.len(),
{
    if r.len() == 0 {
        seq![]
    } else {
        section20_entries(r.drop_last(), year, k) + section20_currency_entries(
            r.last().currency,
            r.last().taxable,
            year,
            k,
        )
    }
}

/// The sum, in order from zero, of a currency's borrowed-balance results of `year`.
pub open spec fn year_sum(s: Seq<FxRealizationView>, year: int) -> Decimal
    decreases s.len(),
{
    if s.len() == 0 {
        Decimal::spec_zero()
    } else if s.last().date.y() == year {
        year_sum(s.drop_last(), year).spec_add(s.last().amount)
    } else {
        year_sum(s.drop_last(), year)
    }
}

/// The sum over the currencies, in order from zero, of their borrowed-balance results of `year`.
pub open spec fn non_taxable_total(r: Seq<CurrencyFxResultView>, year: int) -> Decimal
    decreases r.len(),
{
    if r.len() == 0 {
        Decimal::spec_zero()
    } else {
        non_taxable_total(r.drop_last(), year).spec_add(year_sum(r.last().non_taxable, year))
    }
}

/// The amounts of realizations, summed in units.
pub open spec fn units_total(s: Seq<FxRealizationView>) -> int
    decreases s.len(),
{
    if s.len() == 0 {
        0
    } else {
        units_total(s.drop_last()) + s.last().amount.units()
    }
}

/// The realizations dated in `year`, in their order.
pub open spec fn in_year(s: Seq<FxRealizationView>, year: int) -> Seq<FxRealizationView>
    decreases s.len(),
{
    if s.len() == 0 {
        s
    } else if s.last().date.y() == year {
        in_year(s.drop_last(), year).push(s.last())
    } else {
        in_year(s.drop_last(), year)
    }
}

/// The borrowed-currency (non-taxable) results dated in `year`, over all currencies, summed in
/// units; results of other years count for nothing.
pub open spec fn margin_units(r: Seq<CurrencyFxResultView>, year: int) -> int
    decreases r.len(),
{
    if r.len() == 0 {
        0
    } else {
        margin_units(r.drop_last(), year) + units_total(in_year(r.last().non_taxable, year))
    }
}

/// Where `rust_decimal` sums the non-taxable results exactly: at most a thousand currencies with
/// at most a thousand results each, every amount with at most ten fractional digits.
pub open spec fn margin_exact(r: Seq<CurrencyFxResultView>) -> bool {
    &&& r.len() <= 1000
    &&& forall|i: int| 0 <= i < r.len() ==> (#[trigger] r[i]).non_taxable.len() <= 1000
    &&& forall|i: int, j: int| 0 <= i < r.len() && 0 <= j < r[i].non_taxable.len() ==> (#[trigger] r[i].non_taxable[j]).amount.exp() <= 10
}

proof fn lemma_in_year_step(v: Seq<FxRealizationView>, i: int, year: int)
    requires
        0 <= i < v.len(),
    ensures
        units_total(in_year(v.take(i + 1), year)) == units_total(in_year(v.take(i), year)) + if v[i].date.y() == year {
            v[i].amount.units()
        } else {
            0
        },
{
    let t = v.take(i + 1);
    assert(t.drop_last() =~= v.take(i));
    assert(t.last() == v[i]);
    let f = in_year(v.take(i), year);
    if v[i].date.y() == year {
        assert(in_year(t, year) == f.push(v[i]));
        assert(f.push(v[i]).drop_last() =~= f);
    } else {
        assert(in_year(t, year) == f);
    }
}

pub open spec fn has_taxable_in(s: Seq<FxRealizationView>, year: int) -> bool {
    exists|i: int| 0 <= i < s.len() && #[trigger] s[i].date.y() == year
}

/// Whether any held-currency result falls in `year`.
pub open spec fn has_section20_income(r: Seq<CurrencyFxResultView>, year: int) -> bool {
    exists|i: int| 0 <= i < r.len() && has_taxable_in(#[trigger] r[i].taxable, year)
}

/// What the routing takes: at most 100 000 currencies and 100 000 results of each kind, each of
/// at most a trillion euros.
pub open spec fn routing_ok(r: Seq<CurrencyFxResultView>) -> bool {
    &&& r.len() <= 100_000
    &&& forall|i: int| 0 <= i < r.len() ==> (#[trigger] r[i]).taxable.len() <= 100_000
    &&& forall|i: int| 0 <= i < r.len() ==> (#[trigger] r[i]).non_taxable.len() <= 100_000
    &&& forall|i: int, j: int| 0 <= i < r.len() && 0 <= j < r[i].taxable.len() ==> amount_ok(
        #[trigger] r[i].taxable[j].amount,
    )
    &&& forall|i: int, j: int| 0 <= i < r.len() && 0 <= j < r[i].non_taxable.len() ==> amount_ok(
        #[trigger] r[i].non_taxable[j].amount,
    )
}

fn currency_year_sum(s: &Vec<crate::tax_statement::fx_fifo::FxRealization>, year: i32) -> (r: Decimal)
    requires
        s@.len() <= 100_000,
        forall|j: int| 0 <= j < s@.len() ==> amount_ok(#[trigger] s@[j].amount),
    ensures
        r == year_sum(crate::tax_statement::fx_fifo::realizations_view(s@), year as int),
        within(r, s@.len() as int),
        s@.len() <= 1000 && (forall|j: int| 0 <= j < s@.len() ==> (#[trigger] s@[j]).amount.exp() <= 10) ==> {
            &&& r.units() == units_total(in_year(crate::tax_statement::fx_fifo::realizations_view(s@), year as int))
            &&& r.exp() <= 10
            &&& -(s@.len() * quantity_bound()) <= r.units() <= s@.len() * quantity_bound()
        },
{
    let ghost v = crate::tax_statement::fx_fifo::realizations_view(s@);
    let ghost exact = s@.len() <= 1000 && (forall|j: int| 0 <= j < s@.len() ==> (#[trigger] s@[j]).amount.exp() <= 10);
    let mut sum = Decimal::zero();
    proof {
        Decimal::lemma_spec_zero();
        assert(v.take(0) =~= Seq::<FxRealizationView>::empty());
    }
    let mut i: usize = 0;
    while i < s.len()
        invariant
            v == crate::tax_statement::fx_fifo::realizations_view(s@),
            s@.len() <= 100_000,
            forall|j: int| 0 <= j < s@.len() ==> amount_ok(#[trigger] s@[j].amount),
            i <= s@.len(),
            sum == year_sum(v.take(i as int), year as int),
            within(sum, i as int),
            exact == (s@.len() <= 1000 && (forall|j: int| 0 <= j < s@.len() ==> (#[trigger] s@[j]).amount.exp() <= 10)),
            exact ==> sum.units() == units_total(in_year(v.take(i as int), year as int)) && sum.exp() <= 10
                && -(i * quantity_bound()) <= sum.units() <= i * quantity_bound(),
        decreases s@.len() - i,
    {
        proof {
            assert(v.take(i + 1).drop_last() =~= v.take(i as int));
            assert(v.take(i + 1).last() == s@[i as int]@);
            assert(v[i as int] == s@[i as int]@);
            lemma_in_year_step(v, i as int, year as int);
        }
        proof {
            assert(amount_ok(s@[i as int].amount));
            if exact {
                assert(s@[i as int].amount.exp() <= 10);
                assert(i * quantity_bound() <= 1000 * quantity_bound()) by (nonlinear_arith)
                    requires
                        i <= 1000,
                        quantity_bound() > 0,
                ;
            }
            assert((i + 1) * quantity_bound() == i * quantity_bound() + quantity_bound()) by (nonlinear_arith);
        }
        let t = &s[i];
        if t.date.year() == year {
            sum = sum.add(&t.amount);
        }
        i = i + 1;
    }
    proof {
        assert(v.take(i as int) =~= v);
    }
    sum
}

/// Route FIFO realizations into the §20 EStG capital-income path (Anlage KAP), the default for an
/// interest-bearing account: each held-currency disposal of `year` becomes a taxable FX entry,
/// rounded to cents; borrowed currency repaid at a gain or loss is a non-taxable
/// Fremdwährungskredit-Tilgung (BMF 19.05.2022 Rz. 131), summed at full precision and rounded
/// once. Returns whether any FX income fell in `year`.
#[verifier::rlimit(40)]
pub fn route_fx_section20(statement: &mut GermanTaxStatement, results: &Vec<CurrencyFxResult>, year: i32) -> (r: bool)
    requires
        church_rate_ok(old(statement).tax_rates.church_tax_rate),
        routing_ok(results_view(results@)),
    ensures
        r == has_section20_income(results_view(results@), year as int),
        fx_entry_specs(final(statement).fx_gains@) == fx_entry_specs(old(statement).fx_gains@)
            + section20_entries(results_view(results@), year as int, old(statement).tax_rates.church_tax_rate),
        final(statement).non_taxable_margin_fx == non_taxable_total(results_view(results@), year as int).spec_round_dp(2),
        *final(statement) == (GermanTaxStatement {
            fx_gains: final(statement).fx_gains,
            non_taxable_margin_fx: final(statement).non_taxable_margin_fx,
            ..*old(statement)
        }),
        margin_exact(results_view(results@)) ==> final(statement).non_taxable_margin_fx.units() == cents(
            margin_units(results_view(results@), year as int),
        ),
{
    let ghost rv = results_view(results@);
    let ghost k = statement.tax_rates.church_tax_rate;
    let ghost start = *statement;
    let mut has_income = false;
    let mut non_taxable = Decimal::zero();
    let mut i: usize = 0;
    while i < results.len()
        invariant
            rv == results_view(results@),
            routing_ok(rv),
            k == start.tax_rates.church_tax_rate,
            church_rate_ok(k),
            i <= results@.len(),
            has_income == exists|a: int| 0 <= a < i && has_taxable_in(#[trigger] rv[a].taxable, year as int),
            fx_entry_specs(statement.fx_gains@) == fx_entry_specs(start.fx_gains@) + section20_entries(rv.take(i as int), year as int, k),
            non_taxable == non_taxable_total(rv.take(i as int), year as int),
            within(non_taxable, i * 100_001),
            margin_exact(rv) ==> non_taxable.units() == margin_units(rv.take(i as int), year as int)
                && non_taxable.exp() <= 10 && -(i * 1000 * quantity_bound()) <= non_taxable.units() <= i * 1000
                * quantity_bound(),
            *statement == (GermanTaxStatement { fx_gains: statement.fx_gains, ..start }),
        decreases results@.len() - i,
    {
        proof {
            assert(rv.take(i + 1).drop_last() =~= rv.take(i as int));
            assert(rv[i as int] == results@[i as int]@);
        }
        let result = &results[i];
        let mut pair = <String as StringExecFns>::from_str("EUR.");
        pair.append(result.currency.as_str());
        let ghost before_entries = fx_entry_specs(statement.fx_gains@);
        let ghost tv = crate::tax_statement::fx_fifo::realizations_view(result.taxable@);
        let mut j: usize = 0;
        let ghost income_before = has_income;
        while j < result.taxable.len()
            invariant
                rv == results_view(results@),
                routing_ok(rv),
                i < results@.len(),
                rv[i as int] == result@,
                tv == rv[i as int].taxable,
                pair@ == "EUR."@ + result.currency@,
                k == start.tax_rates.church_tax_rate,
                church_rate_ok(k),
                j <= result.taxable@.len(),
                has_income == (income_before || exists|b: int| 0 <= b < j && #[trigger] tv[b].date.y() == year),
                fx_entry_specs(statement.fx_gains@) == before_entries + section20_currency_entries(
                    result.currency@,
                    tv.take(j as int),
                    year as int,
                    k,
                ),
                *statement == (GermanTaxStatement { fx_gains: statement.fx_gains, ..start }),
            decreases result.taxable@.len() - j,
        {
            proof {
                assert(tv.take(j + 1).drop_last() =~= tv.take(j as int));
                assert(tv[j as int] == result.taxable@[j as int]@);
                assert(amount_ok(rv[i as int].taxable[j as int].amount));
            }
            let t = &result.taxable[j];
            if t.date.year() == year {
                has_income = true;
                let _ = t.amount.scale();
                let gross = t.amount.round_dp(2);
                proof {
                    t.amount.lemma_round_two_places_bound();
                    crate::decimal::Decimal::lemma_spec_zero();
                }
                let taxes = statement.tax_rates.compute_taxes(gross, Decimal::zero());
                let mut description = <String as StringExecFns>::from_str("§20 Fremdwährungsgewinn — Verwendung (");
                description.append(t.activity_code.as_str());
                description.append(")");
                let notes = if gross.lt(&Decimal::zero()) {
                    Some(<String as StringExecFns>::from_str("FX loss - can offset other capital income (§20 EStG)"))
                } else {
                    None
                };
                let entry = FxGainEntry {
                    transaction_date: t.date,
                    currency_pair: pair.clone(),
                    description,
                    gross_amount_eur: gross,
                    taxable_amount: gross,
                    abgeltungssteuer: taxes.abgeltungssteuer,
                    solidaritaetszuschlag: taxes.solidaritaetszuschlag,
                    kirchensteuer: taxes.kirchensteuer,
                    total_tax: taxes.total,
                    notes,
                };
                let ghost old_gains = statement.fx_gains@;
                proof {
                    assert(fx_entry_spec(entry) == section20_entry(result.currency@, tv[j as int], k));
                }
                statement.add_fx_gain(entry);
                proof {
                    assert(fx_entry_specs(statement.fx_gains@) =~= fx_entry_specs(old_gains).push(fx_entry_spec(entry)));
                }
            }
            j = j + 1;
        }
        proof {
            assert(tv.take(j as int) =~= tv);
            assert(section20_entries(rv.take(i + 1), year as int, k) == section20_entries(rv.take(i as int), year as int, k)
                + section20_currency_entries(rv[i as int].currency, rv[i as int].taxable, year as int, k));
            assert(fx_entry_specs(statement.fx_gains@) =~= fx_entry_specs(start.fx_gains@) + section20_entries(rv.take(i + 1), year as int, k));
            if has_income {
                if !income_before {
                    let b = choose|b: int| 0 <= b < j && #[trigger] tv[b].date.y() == year;
                    assert(has_taxable_in(rv[i as int].taxable, year as int));
                }
            } else {
                assert(!has_taxable_in(rv[i as int].taxable, year as int));
            }
        }
        proof {
            assert(rv[i as int].non_taxable == crate::tax_statement::fx_fifo::realizations_view(result.non_taxable@));
            assert forall|b: int| 0 <= b < result.non_taxable@.len() implies amount_ok(#[trigger] result.non_taxable@[b].amount) by {
                assert(rv[i as int].non_taxable[b] == result.non_taxable@[b]@);
                assert(amount_ok(rv[i as int].non_taxable[b].amount));
            }
        }
        proof {
            if margin_exact(rv) {
                assert forall|b: int| 0 <= b < result.non_taxable@.len() implies (#[trigger] result.non_taxable@[b]).amount.exp() <= 10 by {
                    assert(rv[i as int].non_taxable[b] == result.non_taxable@[b]@);
                }
                assert(result.non_taxable@.len() <= 1000);
            }
        }
        let currency_sum = currency_year_sum(&result.non_taxable, year);
        proof {
            lemma_sum_step(non_taxable.units(), currency_sum.units(), i as int);
            if margin_exact(rv) {
                assert(i * 1000 * quantity_bound() <= 999 * 1000 * quantity_bound()) by (nonlinear_arith)
                    requires
                        i < 1000,
                        quantity_bound() > 0,
                ;
                assert(result.non_taxable@.len() * quantity_bound() <= 1000 * quantity_bound()) by (nonlinear_arith)
                    requires
                        result.non_taxable@.len() <= 1000,
                        quantity_bound() > 0,
                ;
                assert((i + 1) * 1000 * quantity_bound() == i * 1000 * quantity_bound() + 1000 * quantity_bound()) by (nonlinear_arith);
                assert(rv.take(i + 1).last() == rv[i as int]);
            }
        }
        let next = non_taxable.add(&currency_sum);
        proof {
            lemma_sum_within(non_taxable.units(), currency_sum.units(), next.units(), i as int);
        }
        non_taxable = next;
        i = i + 1;
    }
    proof {
        assert(rv.take(i as int) =~= rv);
    }
    let margin = non_taxable.round_dp(2);
    proof {
        if margin_exact(rv) {
            crate::decimal::lemma_round_cents(non_taxable, margin);
        }
    }
    statement.non_taxable_margin_fx = margin;
    has_income
}

/// Whether the statement shows foreign-currency activity (a currency exchange, or a dividend paid
/// in a currency other than EUR) while carrying no Statement of Funds ledger to compute FX results
/// from. `dividend_currencies` holds the currency of each dividend.
pub fn foreign_activity_without_ledger(
    foreign_cash_flows: &Vec<ForeignCashFlow>,
    has_forex_trades: bool,
    dividend_currencies: &Vec<String>,
) -> (r: bool)
    ensures
        r == (foreign_cash_flows@.len() == 0 && (has_forex_trades || exists|i: int|
            0 <= i < dividend_currencies@.len() && #[trigger] dividend_currencies@[i]@ != "EUR"@)),
{
    if foreign_cash_flows.len() != 0 {
        return false;
    }
    if has_forex_trades {
        return true;
    }
    let mut i: usize = 0;
    while i < dividend_currencies.len()
        invariant
            foreign_cash_flows@.len() == 0,
            !has_forex_trades,
            i <= dividend_currencies@.len(),
            forall|j: int| 0 <= j < i ==> #[trigger] dividend_currencies@[j]@ == "EUR"@,
        decreases dividend_currencies@.len() - i,
    {
        if !text_eq(dividend_currencies[i].as_str(), "EUR") {
            assert(dividend_currencies@[i as int]@ != "EUR"@);
            return true;
        }
        i = i + 1;
    }
    false
}

/// Route the year's FX results by the account's treatment: §20 for an interest-bearing account,
/// §23 for a non-interest-bearing one. Returns whether any FX income fell in `year`.
pub fn route_fx_results(
    statement: &mut GermanTaxStatement,
    results: &Vec<CurrencyFxResult>,
    year: i32,
    fx_taxation: ForeignCurrencyTaxation,
) -> (r: bool)
    requires
        church_rate_ok(old(statement).tax_rates.church_tax_rate),
        routing_ok(results_view(results@)),
    ensures
        fx_taxation == ForeignCurrencyTaxation::InterestBearing ==> {
            &&& r == has_section20_income(results_view(results@), year as int)
            &&& fx_entry_specs(final(statement).fx_gains@) == fx_entry_specs(old(statement).fx_gains@)
                + section20_entries(results_view(results@), year as int, old(statement).tax_rates.church_tax_rate)
            &&& final(statement).non_taxable_margin_fx == non_taxable_total(results_view(results@), year as int).spec_round_dp(2)
            &&& *final(statement) == (GermanTaxStatement {
                fx_gains: final(statement).fx_gains,
                non_taxable_margin_fx: final(statement).non_taxable_margin_fx,
                ..*old(statement)
            })
            &&& margin_exact(results_view(results@)) ==> final(statement).non_taxable_margin_fx.units() == cents(
                margin_units(results_view(results@), year as int),
            )
        },
        fx_taxation == ForeignCurrencyTaxation::NonInterestBearing ==> {
            &&& final(statement).section23 == section23_of(results_view(results@), year as int)
            &&& r == !(final(statement).section23.short_term_gains.units() == 0
                && final(statement).section23.short_term_losses.units() == 0
                && final(statement).section23.long_term_tax_free.units() == 0
                && final(statement).section23.borrowed_review.units() == 0)
            &&& *final(statement) == (GermanTaxStatement { section23: final(statement).section23, ..*old(statement) })
        },
{
    match fx_taxation {
        ForeignCurrencyTaxation::InterestBearing => route_fx_section20(statement, results, year),
        ForeignCurrencyTaxation::NonInterestBearing => route_fx_section23(statement, results, year),
    }
}

/// One held-currency result of `year` added to the §23 buckets: a disposal within a year is a
/// short-term gain or loss (a loss by its magnitude); one after more than a year is tax-free, and a
/// loss there is dropped as non-deductible.
pub open spec fn section23_taxable_step(sec: Section23, t: FxRealizationView, year: int) -> Section23 {
    if t.date.y() != year {
        sec
    } else if spec_held_over_one_year(t.acquisition_date, t.date) {
        if t.amount.units() > 0 {
            Section23 { long_term_tax_free: sec.long_term_tax_free.spec_add(t.amount), ..sec }
        } else {
            sec
        }
    } else if t.amount.units() >= 0 {
        Section23 { short_term_gains: sec.short_term_gains.spec_add(t.amount), ..sec }
    } else {
        Section23 { short_term_losses: sec.short_term_losses.spec_add(t.amount.spec_abs()), ..sec }
    }
}

pub open spec fn section23_taxable_fold(sec: Section23, s: Seq<FxRealizationView>, year: int) -> Section23
    decreases s.len(),
{
    if s.len() == 0 {
        sec
    } else {
        section23_taxable_step(section23_taxable_fold(sec, s.drop_last(), year), s.last(), year)
    }
}

/// Borrowed-currency results of `year` summed, in order, into the review bucket.
pub open spec fn section23_borrowed_fold(sec: Section23, s: Seq<FxRealizationView>, year: int) -> Section23
    decreases s.len(),
{
    if s.len() == 0 {
        sec
    } else {
        let before = section23_borrowed_fold(sec, s.drop_last(), year);
        if s.last().date.y() == year {
            Section23 { borrowed_review: before.borrowed_review.spec_add(s.last().amount), ..before }
        } else {
            before
        }
    }
}

/// The unrounded §23 buckets after the currencies of `r`, each currency's held results first and
/// then its borrowed ones.
pub open spec fn section23_fold(r: Seq<CurrencyFxResultView>, year: int) -> Section23
    decreases r.len(),
{
    if r.len() == 0 {
        Section23::spec_empty()
    } else {
        section23_borrowed_fold(
            section23_taxable_fold(section23_fold(r.drop_last(), year), r.last().taxable, year),
            r.last().non_taxable,
            year,
        )
    }
}

/// The §23 buckets of `year`: each summed at full precision and rounded to cents once.
pub open spec fn section23_of(r: Seq<CurrencyFxResultView>, year: int) -> Section23 {
    let s = section23_fold(r, year);
    Section23 {
        short_term_gains: s.short_term_gains.spec_round_dp(2),
        short_term_losses: s.short_term_losses.spec_round_dp(2),
        long_term_tax_free: s.long_term_tax_free.spec_round_dp(2),
        borrowed_review: s.borrowed_review.spec_round_dp(2),
    }
}

pub open spec fn section23_within(sec: Section23, k: int) -> bool {
    &&& within(sec.short_term_gains, k)
    &&& within(sec.short_term_losses, k)
    &&& within(sec.long_term_tax_free, k)
    &&& within(sec.borrowed_review, k)
}

/// Route FIFO realizations into the §23 EStG buckets (Anlage SO) for a non-interest-bearing
/// account. The one-year Spekulationsfrist splits held-currency disposals into taxable (at most a
/// year) and tax-free (more than a year, where a loss is non-deductible and dropped);
/// borrowed-currency repayments are flagged for manual review. No tax is computed here; each bucket
/// is summed at full precision and rounded once. Returns whether any bucket is non-zero.
#[verifier::rlimit(40)]
pub fn route_fx_section23(statement: &mut GermanTaxStatement, results: &Vec<CurrencyFxResult>, year: i32) -> (r: bool)
    requires
        routing_ok(results_view(results@)),
    ensures
        final(statement).section23 == section23_of(results_view(results@), year as int),
        r == !(final(statement).section23.short_term_gains.units() == 0
            && final(statement).section23.short_term_losses.units() == 0
            && final(statement).section23.long_term_tax_free.units() == 0
            && final(statement).section23.borrowed_review.units() == 0),
        *final(statement) == (GermanTaxStatement { section23: final(statement).section23, ..*old(statement) }),
{
    let ghost rv = results_view(results@);
    let mut section = Section23::default();
    proof {
        crate::decimal::Decimal::lemma_spec_zero();
    }
    let mut i: usize = 0;
    while i < results.len()
        invariant
            rv == results_view(results@),
            routing_ok(rv),
            i <= results@.len(),
            section == section23_fold(rv.take(i as int), year as int),
            section23_within(section, i * 200_000),
        decreases results@.len() - i,
    {
        proof {
            assert(rv.take(i + 1).drop_last() =~= rv.take(i as int));
            assert(rv[i as int] == results@[i as int]@);
        }
        let result = &results[i];
        let ghost tv = crate::tax_statement::fx_fifo::realizations_view(result.taxable@);
        let ghost bv = crate::tax_statement::fx_fifo::realizations_view(result.non_taxable@);
        let ghost start = section;
        let mut j: usize = 0;
        while j < result.taxable.len()
            invariant
                rv == results_view(results@),
                routing_ok(rv),
                i < results@.len(),
                rv[i as int] == result@,
                tv == rv[i as int].taxable,
                j <= result.taxable@.len(),
                section == section23_taxable_fold(start, tv.take(j as int), year as int),
                section23_within(section, i * 200_000 + j),
            decreases result.taxable@.len() - j,
        {
            proof {
                assert(tv.take(j + 1).drop_last() =~= tv.take(j as int));
                assert(tv[j as int] == result.taxable@[j as int]@);
                assert(amount_ok(rv[i as int].taxable[j as int].amount));
                crate::decimal::Decimal::lemma_spec_zero();
            }
            let t = &result.taxable[j];
            let ghost k: int = i * 200_000 + j;
            if t.date.year() == year {
                let zero = Decimal::zero();
                if held_over_one_year(t.acquisition_date, t.date) {
                    if zero.lt(&t.amount) {
                        proof {
                            lemma_bucket_in_range(section.long_term_tax_free.units(), t.amount.units(), k);
                        }
                        let next = section.long_term_tax_free.add(&t.amount);
                        proof {
                            lemma_bucket_within(section.long_term_tax_free.units(), t.amount.units(), next.units(), k);
                        }
                        section.long_term_tax_free = next;
                    }
                } else if zero.le(&t.amount) {
                    proof {
                        lemma_bucket_in_range(section.short_term_gains.units(), t.amount.units(), k);
                    }
                    let next = section.short_term_gains.add(&t.amount);
                    proof {
                        lemma_bucket_within(section.short_term_gains.units(), t.amount.units(), next.units(), k);
                    }
                    section.short_term_gains = next;
                } else {
                    let loss = t.amount.abs();
                    proof {
                        lemma_bucket_in_range(section.short_term_losses.units(), loss.units(), k);
                    }
                    let next = section.short_term_losses.add(&loss);
                    proof {
                        lemma_bucket_within(section.short_term_losses.units(), loss.units(), next.units(), k);
                    }
                    section.short_term_losses = next;
                }
            }
            j = j + 1;
        }
        proof {
            assert(tv.take(j as int) =~= tv);
        }
        let ghost middle = section;
        let mut j: usize = 0;
        while j < result.non_taxable.len()
            invariant
                rv == results_view(results@),
                routing_ok(rv),
                i < results@.len(),
                rv[i as int] == result@,
                bv == rv[i as int].non_taxable,
                j <= result.non_taxable@.len(),
                section == section23_borrowed_fold(middle, bv.take(j as int), year as int),
                section23_within(section, i * 200_000 + 100_000 + j),
            decreases result.non_taxable@.len() - j,
        {
            proof {
                assert(bv.take(j + 1).drop_last() =~= bv.take(j as int));
                assert(bv[j as int] == result.non_taxable@[j as int]@);
                assert(amount_ok(rv[i as int].non_taxable[j as int].amount));
            }
            let t = &result.non_taxable[j];
            let ghost k: int = i * 200_000 + 100_000 + j;
            if t.date.year() == year {
                proof {
                    lemma_bucket_in_range(section.borrowed_review.units(), t.amount.units(), k);
                }
                let next = section.borrowed_review.add(&t.amount);
                proof {
                    lemma_bucket_within(section.borrowed_review.units(), t.amount.units(), next.units(), k);
                }
                section.borrowed_review = next;
            }
            j = j + 1;
        }
        proof {
            assert(bv.take(j as int) =~= bv);
        }
        i = i + 1;
    }
    proof {
        assert(rv.take(i as int) =~= rv);
    }
    section.short_term_gains = section.short_term_gains.round_dp(2);
    section.short_term_losses = section.short_term_losses.round_dp(2);
    section.long_term_tax_free = section.long_term_tax_free.round_dp(2);
    section.borrowed_review = section.borrowed_review.round_dp(2);
    let has_income = !section.is_empty();
    statement.section23 = section;
    has_income
}

/// A bucket after at most `k` additions plus one more amount stays in range.
proof fn lemma_bucket_in_range(t: int, c: int, k: int)
    requires
        0 <= k < 20_000_000_000,
        -k * 10_000_000_000_010_000_000_000_000_000_000_000_000_000int <= t <= k
            * 10_000_000_000_010_000_000_000_000_000_000_000_000_000int,
        -quantity_bound() <= c <= quantity_bound(),
    ensures
        in_range(t + c),
{
    let s = 10_000_000_000_010_000_000_000_000_000_000_000_000_000int;
    assert(-20_000_000_000 * s <= t <= 20_000_000_000 * s) by (nonlinear_arith)
        requires
            0 <= k < 20_000_000_000,
            -k * s <= t <= k * s,
            s > 0,
    ;
}

/// A bucket after at most `k` additions, plus one amount (within a unit of rounding), is a bucket
/// after `k + 1`.
proof fn lemma_bucket_within(t: int, c: int, r: int, k: int)
    requires
        0 <= k,
        -k * 10_000_000_000_010_000_000_000_000_000_000_000_000_000int <= t <= k
            * 10_000_000_000_010_000_000_000_000_000_000_000_000_000int,
        -quantity_bound() <= c <= quantity_bound(),
        -unit() <= r - (t + c) <= unit(),
    ensures
        -(k + 1) * 10_000_000_000_010_000_000_000_000_000_000_000_000_000int <= r <= (k + 1)
            * 10_000_000_000_010_000_000_000_000_000_000_000_000_000int,
{
    let s = 10_000_000_000_010_000_000_000_000_000_000_000_000_000int;
    assert((k + 1) * s == k * s + s) by (nonlinear_arith);
}

proof fn lemma_sum_step(t: int, c: int, i: int)
    requires
        0 <= i < 100_000,
        -(i * 100_001) * 10_000_000_000_010_000_000_000_000_000_000_000_000_000int <= t <= (i * 100_001)
            * 10_000_000_000_010_000_000_000_000_000_000_000_000_000int,
        -100_000 * 10_000_000_000_010_000_000_000_000_000_000_000_000_000int <= c <= 100_000
            * 10_000_000_000_010_000_000_000_000_000_000_000_000_000int,
    ensures
        in_range(t + c),
{
    let s = 10_000_000_000_010_000_000_000_000_000_000_000_000_000int;
    assert(-(100_000 * 100_001) * s <= t <= (100_000 * 100_001) * s) by (nonlinear_arith)
        requires
            0 <= i < 100_000,
            -(i * 100_001) * s <= t <= (i * 100_001) * s,
            s > 0,
    ;
}

proof fn lemma_sum_within(t: int, c: int, r: int, i: int)
    requires
        0 <= i < 100_000,
        -(i * 100_001) * 10_000_000_000_010_000_000_000_000_000_000_000_000_000int <= t <= (i * 100_001)
            * 10_000_000_000_010_000_000_000_000_000_000_000_000_000int,
        -100_000 * 10_000_000_000_010_000_000_000_000_000_000_000_000_000int <= c <= 100_000
            * 10_000_000_000_010_000_000_000_000_000_000_000_000_000int,
        -unit() <= r - (t + c) <= unit(),
    ensures
        -((i + 1) * 100_001) * 10_000_000_000_010_000_000_000_000_000_000_000_000_000int <= r <= ((i + 1)
            * 100_001) * 10_000_000_000_010_000_000_000_000_000_000_000_000_000int,
{
    let s = 10_000_000_000_010_000_000_000_000_000_000_000_000_000int;
    assert(((i + 1) * 100_001) * s == (i * 100_001) * s + 100_001 * s) by (nonlinear_arith);
}

} // verus!
