//! Per-currency signed-inventory FIFO for German Fremdwährungsgewinne (§20 EStG).
//!
//! A positive running balance is a Fremdwährungsguthaben; because IBKR pays interest on cash
//! balances it is an interest-bearing account, so its gains and losses fall under §20 EStG
//! (Abgeltungsteuer). A negative balance is a Fremdwährungskredit whose repayment FX result is not
//! taxable (Tilgung eines Fremdwährungskredits, BMF 19.05.2022 Rz. 131).
//!
//! The replay is the jurisdiction-neutral one of `tax_statement::fx_fifo`, from a zero opening
//! balance and without its check of FOREX execution rates; the held-balance results are reported
//! one by one and the borrowed-balance results as one total.
use vstd::prelude::*;

use crate::broker_statement::ForeignCashFlow;
use crate::date::Date;
use crate::decimal::{in_range, unit, Decimal};
use crate::tax_statement::fx_fifo::{
    balance_departs, lemma_replay_reads_needed_references, references_agree, forex_rates_positive, fx_error_message, rate_check_changes_nothing_on_real_conversions,
    amount_bound, fx_fifo_spec, inputs_in_bounds, needs_reference_rate, realizations_ok,
    reference_rates, replay_fx_fifo, results_view, rows_in_bounds, CurrencyFxResultView,
    FxError, FxErrorKind, FxRealizationView, OpeningLot,
};

verus! {

/// Realized FX result for one foreign currency over the statement.
#[derive(Debug)]
pub struct CurrencyFxResult {
    pub currency: String,
    /// §20-taxable disposals of held currency (Fremdwährungsguthaben).
    pub taxable: Vec<FxRealization>,
    /// Total non-taxable Fremdwährungskredit-Tilgung result in EUR (full precision).
    pub non_taxable: Decimal,
}

/// A single realized taxable FX gain/loss in EUR (full precision; positive = gain, negative = loss).
#[derive(Debug)]
pub struct FxRealization {
    pub date: Date,
    pub amount: Decimal,
    pub activity_code: String,
}

pub struct FxRealizationGermanView {
    pub date: Date,
    pub amount: Decimal,
    pub activity_code: Seq<char>,
}

pub struct CurrencyFxResultGermanView {
    pub currency: Seq<char>,
    pub taxable: Seq<FxRealizationGermanView>,
    pub non_taxable: Decimal,
}

impl View for FxRealization {
    type V = FxRealizationGermanView;

    open spec fn view(&self) -> FxRealizationGermanView {
        FxRealizationGermanView {
            date: self.date,
            amount: self.amount,
            activity_code: self.activity_code@,
        }
    }
}

impl View for CurrencyFxResult {
    type V = CurrencyFxResultGermanView;

    open spec fn view(&self) -> CurrencyFxResultGermanView {
        CurrencyFxResultGermanView {
            currency: self.currency@,
            taxable: self.taxable@.map_values(|r: FxRealization| r@),
            non_taxable: self.non_taxable,
        }
    }
}

pub open spec fn german_results_view(v: Seq<CurrencyFxResult>) -> Seq<CurrencyFxResultGermanView> {
    v.map_values(|r: CurrencyFxResult| r@)
}

pub open spec fn without_acquisition(r: FxRealizationView) -> FxRealizationGermanView {
    FxRealizationGermanView { date: r.date, amount: r.amount, activity_code: r.activity_code }
}

/// The running total of realized amounts, added in order from zero.
pub open spec fn total(s: Seq<FxRealizationView>) -> Decimal
    decreases s.len(),
{
    if s.len() == 0 {
        Decimal::spec_zero()
    } else {
        total(s.drop_last()).spec_add(s.last().amount)
    }
}

pub open spec fn german_result(r: CurrencyFxResultView) -> CurrencyFxResultGermanView {
    CurrencyFxResultGermanView {
        currency: r.currency,
        taxable: r.taxable.map_values(|x: FxRealizationView| without_acquisition(x)),
        non_taxable: total(r.non_taxable),
    }
}

/// The German FIFO: the neutral replay from empty inventories, without the FOREX-rate check.
pub open spec fn german_fx_fifo_spec(
    flows: Seq<ForeignCashFlow>,
    references: Seq<Result<Decimal, String>>,
) -> Result<Seq<CurrencyFxResultGermanView>, (nat, FxErrorKind)> {
    match fx_fifo_spec(flows, seq![], references, false) {
        Ok(v) => Ok(v.map_values(|r: CurrencyFxResultView| german_result(r))),
        Err(e) => Err(e),
    }
}

/// The German FIFO and the neutral one, given the same rates, refuse the same ledgers and, where
/// every conversion leg has a positive rate, list the same currencies in the same order with the
/// same taxable realizations; the German non-taxable figure is the total of the neutral one's.
pub proof fn entry_points_agree(flows: Seq<ForeignCashFlow>, references: Seq<Result<Decimal, String>>)
    requires
        forex_rates_positive(flows),
    ensures
        german_fx_fifo_spec(flows, references) is Ok <==> fx_fifo_spec(flows, seq![], references, true) is Ok,
        fx_fifo_spec(flows, seq![], references, true) matches Ok(v) ==> german_fx_fifo_spec(flows, references)
            == Ok::<Seq<CurrencyFxResultGermanView>, (nat, FxErrorKind)>(v.map_values(|r: CurrencyFxResultView| german_result(r))),
        fx_fifo_spec(flows, seq![], references, true) matches Ok(v) ==> forall|k: int| 0 <= k < v.len() ==> {
            &&& (#[trigger] german_result(v[k])).currency == v[k].currency
            &&& german_result(v[k]).non_taxable == total(v[k].non_taxable)
            &&& german_result(v[k]).taxable.len() == v[k].taxable.len()
            &&& forall|j: int| 0 <= j < v[k].taxable.len() ==> german_result(v[k]).taxable[j].date == v[k].taxable[j].date
                && german_result(v[k]).taxable[j].amount == v[k].taxable[j].amount
                && german_result(v[k]).taxable[j].activity_code == v[k].taxable[j].activity_code
        },
{
    rate_check_changes_nothing_on_real_conversions(flows, seq![], references);
}

/// A rate source that answers the same question (a day and a currency) the same way.
pub open spec fn deterministic<F: Fn(Date, &str) -> Result<Decimal, String>>(f: F) -> bool {
    forall|d: Date, c1: &str, c2: &str, o1: Result<Decimal, String>, o2: Result<Decimal, String>|
        c1@ == c2@ && #[trigger] call_ensures(f, (d, c1), o1) && #[trigger] call_ensures(f, (d, c2), o2) ==> o1
            == o2
}

/// Rates drawn from `f` for every movement valued at a reference rate, as both entry points draw
/// them.
pub open spec fn drawn_from<F: Fn(Date, &str) -> Result<Decimal, String>>(
    references: Seq<Result<Decimal, String>>,
    flows: Seq<ForeignCashFlow>,
    f: F,
) -> bool {
    &&& references.len() == flows.len()
    &&& forall|i: int|
        0 <= i < flows.len() && needs_reference_rate(#[trigger] flows[i]) ==> exists|c: &str|
            c@ == flows[i].currency@ && call_ensures(f, (flows[i].date, c), references[i])
}

/// The two exec entry points, each drawing its own rates from the same deterministic source,
/// agree: the same refusals, and where every conversion leg has a positive rate the same
/// currencies in the same order with the same taxable realizations, the German non-taxable figure
/// being the total of the neutral one's.
pub proof fn entry_points_agree_on_one_rate_source<F: Fn(Date, &str) -> Result<Decimal, String>>(
    flows: Seq<ForeignCashFlow>,
    f: F,
    neutral: Seq<Result<Decimal, String>>,
    german: Seq<Result<Decimal, String>>,
)
    requires
        deterministic(f),
        drawn_from(neutral, flows, f),
        drawn_from(german, flows, f),
        forex_rates_positive(flows),
    ensures
        german_fx_fifo_spec(flows, german) is Ok <==> fx_fifo_spec(flows, seq![], neutral, true) is Ok,
        fx_fifo_spec(flows, seq![], neutral, true) matches Ok(v) ==> german_fx_fifo_spec(flows, german)
            == Ok::<Seq<CurrencyFxResultGermanView>, (nat, FxErrorKind)>(v.map_values(|r: CurrencyFxResultView| german_result(r))),
{
    assert forall|i: int| 0 <= i < flows.len() && needs_reference_rate(#[trigger] flows[i]) implies neutral[i]
        == german[i] by {
        let c1 = choose|c: &str| c@ == flows[i].currency@ && call_ensures(f, (flows[i].date, c), neutral[i]);
        let c2 = choose|c: &str| c@ == flows[i].currency@ && call_ensures(f, (flows[i].date, c), german[i]);
    }
    lemma_replay_reads_needed_references(
        crate::tax_statement::fx_fifo::open_lots(seq![], 0),
        flows,
        neutral,
        german,
        flows.len(),
        false,
    );
    entry_points_agree(flows, german);
    entry_points_agree(flows, neutral);
    crate::tax_statement::fx_fifo::rate_check_changes_nothing_on_real_conversions(flows, seq![], neutral);
}

/// The bound on a running total after `i` additions, with a unit of rounding slack per step.
pub open spec fn step_bound() -> int {
    amount_bound() + unit()
}

proof fn lemma_partial_sum_bound(i: int, x: int, a: int, r: int)
    requires
        0 <= i < 1_000_000,
        -i * step_bound() <= x <= i * step_bound(),
        -amount_bound() <= a <= amount_bound(),
    ensures
        in_range(x + a),
        -unit() <= r - (x + a) <= unit() ==> -(i + 1) * step_bound() <= r <= (i + 1) * step_bound(),
{
    assert(-(i + 1) * step_bound() + unit() <= x + a <= (i + 1) * step_bound() - unit()) by (nonlinear_arith)
        requires
            -i * step_bound() <= x <= i * step_bound(),
            -amount_bound() <= a <= amount_bound(),
            step_bound() == amount_bound() + unit(),
    ;
    assert(-(1_000_000 * step_bound()) <= x + a <= 1_000_000 * step_bound()) by (nonlinear_arith)
        requires
            -(i + 1) * step_bound() + unit() <= x + a <= (i + 1) * step_bound() - unit(),
            i + 1 <= 1_000_000,
            step_bound() > 0,
            unit() > 0,
    ;
}

fn to_german(r: &crate::tax_statement::fx_fifo::CurrencyFxResult) -> (g: CurrencyFxResult)
    requires
        realizations_ok(r@.non_taxable),
        r@.non_taxable.len() <= 1_000_000,
    ensures
        g@ == german_result(r@),
{
    let mut taxable: Vec<FxRealization> = Vec::new();
    let mut i: usize = 0;
    while i < r.taxable.len()
        invariant
            i <= r.taxable.len(),
            taxable@.len() == i,
            forall|k: int| 0 <= k < i ==> #[trigger] taxable@[k]@ == without_acquisition(r@.taxable[k]),
        decreases r.taxable.len() - i,
    {
        let x = &r.taxable[i];
        let ghost before = taxable@;
        let item = FxRealization { date: x.date, amount: x.amount, activity_code: x.activity_code.clone() };
        taxable.push(item);
        proof {
            assert(r@.taxable[i as int] == r.taxable@[i as int]@);
            assert(taxable@[i as int] == item);
        }
        i = i + 1;
    }
    let mut sum = Decimal::zero();
    let mut j: usize = 0;
    while j < r.non_taxable.len()
        invariant
            j <= r.non_taxable.len(),
            r@.non_taxable.len() <= 1_000_000,
            realizations_ok(r@.non_taxable),
            sum == total(r@.non_taxable.subrange(0, j as int)),
            -(j as int) * step_bound() <= sum.units() <= (j as int) * step_bound(),
        decreases r.non_taxable.len() - j,
    {
        let amount = r.non_taxable[j].amount;
        proof {
            assert(r@.non_taxable[j as int] == r.non_taxable@[j as int]@);
            assert(-amount_bound() <= r@.non_taxable[j as int].amount.units() <= amount_bound());
            lemma_partial_sum_bound(j as int, sum.units(), amount.units(), 0);
        }
        let ghost before = sum;
        sum = sum.add(&amount);
        proof {
            lemma_partial_sum_bound(j as int, before.units(), amount.units(), sum.units());
            let s = r@.non_taxable.subrange(0, j + 1);
            assert(s.drop_last() =~= r@.non_taxable.subrange(0, j as int));
        }
        j = j + 1;
    }
    proof {
        assert(taxable@.map_values(|x: FxRealization| x@) =~= r@.taxable.map_values(
            |x: FxRealizationView| without_acquisition(x),
        ));
        assert(r@.non_taxable.subrange(0, r@.non_taxable.len() as int) =~= r@.non_taxable);
    }
    CurrencyFxResult { currency: r.currency.clone(), taxable, non_taxable: sum }
}

/// Replay the cash-flow ledger through a per-currency signed-inventory FIFO, with the ECB rate of
/// each movement given: `references[i]` is the EUR value of one unit of the currency of
/// `flows[i]` on its date (consulted only for a movement that needs it). EUR movements are skipped;
/// results are returned in first-seen currency order.
pub fn compute_fx_fifo_with_rates(
    flows: &[ForeignCashFlow],
    references: &[Result<Decimal, String>],
) -> (r: Result<Vec<CurrencyFxResult>, FxError>)
    requires
        inputs_in_bounds(flows@, seq![], references@),
    ensures
        r matches Ok(v) ==> german_fx_fifo_spec(flows@, references@) == Ok::<
            Seq<CurrencyFxResultGermanView>,
            (nat, FxErrorKind),
        >(german_results_view(v@)),
        r matches Err(e) ==> german_fx_fifo_spec(flows@, references@) == Err::<
            Seq<CurrencyFxResultGermanView>,
            (nat, FxErrorKind),
        >((e.flow as nat, e.kind)),
        r matches Err(e) ==> e.message@ == fx_error_message(flows@, seq![], references@, false, e.flow as nat),
        r is Ok ==> forall|j: int| 0 <= j < flows@.len() ==> !#[trigger] balance_departs(seq![], flows@, j),
        r matches Err(e) ==> (forall|j: int| 0 <= j < e.flow ==> !#[trigger] balance_departs(seq![], flows@, j)) && (
        e.kind == FxErrorKind::Inconsistent <==> balance_departs(seq![], flows@, e.flow as int)),
{
    let opening: Vec<OpeningLot> = Vec::new();
    proof {
        assert(opening@ =~= seq![]);
    }
    match replay_fx_fifo(flows, opening.as_slice(), references, false) {
        Ok(results) => {
            let mut out: Vec<CurrencyFxResult> = Vec::new();
            let mut i: usize = 0;
            while i < results.len()
                invariant
                    i <= results.len(),
                    forall|t: int|
                        0 <= t < results@.len() ==> realizations_ok(#[trigger] results@[t]@.non_taxable)
                            && results@[t]@.non_taxable.len() <= flows@.len(),
                    flows@.len() <= 1_000_000,
                    out@.len() == i,
                    forall|k: int| 0 <= k < i ==> #[trigger] out@[k]@ == german_result(results@[k]@),
                decreases results.len() - i,
            {
                let g = to_german(&results[i]);
                let ghost before = out@;
                out.push(g);
                proof {
                    assert(out@[i as int] == g);
                }
                i = i + 1;
            }
            proof {
                assert(german_results_view(out@) =~= results_view(results@).map_values(
                    |r: CurrencyFxResultView| german_result(r),
                ));
            }
            Ok(out)
        },
        Err(e) => Err(e),
    }
}

/// Replay the cash-flow ledger through a per-currency signed-inventory FIFO.
///
/// `ecb_rate(date, currency)` returns the ECB reference rate as EUR per one unit of `currency`;
/// it is asked for the movements valued at it. Otherwise as `compute_fx_fifo_with_rates`, with the
/// rates `ecb_rate` returned.
pub fn compute_fx_fifo<F: Fn(Date, &str) -> Result<Decimal, String>>(
    flows: &[ForeignCashFlow],
    ecb_rate: F,
) -> (r: Result<Vec<CurrencyFxResult>, FxError>)
    requires
        rows_in_bounds(flows@, seq![]),
        forall|d: Date, c: &str| #[trigger] call_requires(ecb_rate, (d, c)),
        forall|d: Date, c: &str, out: Result<Decimal, String>|
            #[trigger] call_ensures(ecb_rate, (d, c), out) ==> (out matches Ok(x)
                ==> crate::tax_statement::fx_fifo::is_rate(x)),
    ensures
        exists|references: Seq<Result<Decimal, String>>|
            #![trigger german_fx_fifo_spec(flows@, references)]
            {
                &&& references.len() == flows@.len()
                &&& forall|i: int|
                    0 <= i < flows@.len() && needs_reference_rate(#[trigger] flows@[i])
                        ==> exists|c: &str|
                        c@ == flows@[i].currency@ && call_ensures(
                            ecb_rate,
                            (flows@[i].date, c),
                            references[i],
                        )
                &&& r matches Ok(v) ==> german_fx_fifo_spec(flows@, references) == Ok::<
                    Seq<CurrencyFxResultGermanView>,
                    (nat, FxErrorKind),
                >(german_results_view(v@))
                &&& r matches Err(e) ==> german_fx_fifo_spec(flows@, references) == Err::<
                    Seq<CurrencyFxResultGermanView>,
                    (nat, FxErrorKind),
                >((e.flow as nat, e.kind))
                &&& r matches Err(e) ==> e.message@ == fx_error_message(flows@, seq![], references, false, e.flow as nat)
            },
        r is Ok ==> forall|j: int| 0 <= j < flows@.len() ==> !#[trigger] balance_departs(seq![], flows@, j),
        r matches Err(e) ==> (forall|j: int| 0 <= j < e.flow ==> !#[trigger] balance_departs(seq![], flows@, j)) && (
        e.kind == FxErrorKind::Inconsistent <==> balance_departs(seq![], flows@, e.flow as int)),
{
    let references = reference_rates(flows, &ecb_rate);
    proof {
        assert forall|i: int| 0 <= i < references@.len() implies (#[trigger] references@[i] matches Ok(
            x,
        ) ==> crate::tax_statement::fx_fifo::is_rate(x)) by {
            if needs_reference_rate(flows@[i]) {
                let c = choose|c: &str|
                    c@ == flows@[i].currency@ && call_ensures(ecb_rate, (flows@[i].date, c), references@[i]);
            }
        }
    }
    compute_fx_fifo_with_rates(flows, references.as_slice())
}

} // verus!
