//! Per-currency signed-inventory FIFO for realized foreign-currency results.
//!
//! Foreign-currency cash is replayed in statement order, and the engine reports what each movement
//! realized. Only the split it draws is jurisdiction-neutral: a **held** balance (positive running
//! quantity) and a **borrowed** one (negative). Which of the two is taxable, and under which head,
//! is the caller's decision.
//!
//! Each disposal of held currency (a securities purchase, a fee, a reconversion to EUR) realizes a
//! result against the held lots; each repayment of borrowed currency realizes one against the
//! borrowed lots. Real currency exchanges are valued at the actual execution rate (the paired EUR
//! leg); every other movement is valued at the central-bank reference rate of the transaction date.
//!
//! The replay is specified by `fx_fifo_spec`, one movement at a time (`flow_step`), and within a
//! movement one lot at a time (`consume_spec`). The amounts and quantities it takes have at most ten
//! fractional digits and a magnitude of at most 10^12, and the rates at most 10^6 EUR per unit, so
//! that all quantity arithmetic is exact.
use vstd::prelude::*;

use crate::broker_statement::ForeignCashFlow;
use crate::date::{iso_text, Date};
use crate::decimal::{abs_int, decimal_text, in_range, is_small, limit, quantity_bound, representable_quotient, small_bound, unit, Decimal};

verus! {

/// A single realized FX gain/loss in EUR (full precision; positive = gain, negative = loss).
#[derive(Debug)]
pub struct FxRealization {
    /// Disposal date (the movement that realized the gain/loss).
    pub date: Date,
    /// Acquisition date of the consumed lot, for callers whose rules depend on a holding period.
    pub acquisition_date: Date,
    pub amount: Decimal,
    pub activity_code: String,
}

pub struct FxRealizationView {
    pub date: Date,
    pub acquisition_date: Date,
    pub amount: Decimal,
    pub activity_code: Seq<char>,
}

impl View for FxRealization {
    type V = FxRealizationView;

    open spec fn view(&self) -> FxRealizationView {
        FxRealizationView {
            date: self.date,
            acquisition_date: self.acquisition_date,
            amount: self.amount,
            activity_code: self.activity_code@,
        }
    }
}

#[derive(Clone, Copy, Debug, PartialEq)]
pub enum FxLedgerKind {
    /// Opened or extended a lot (held when `units > 0`, borrowed when `units < 0`); no result.
    Acquisition,
    /// Disposed held currency: a gain/loss `amount` (EUR, full precision) against a lot opened
    /// on `acquisition_date` at `acquisition_rate`.
    Disposal { acquisition_date: Date, acquisition_rate: Decimal, amount: Decimal },
    /// Repaid borrowed currency: the non-taxable result `amount` against the borrowing lot.
    Repayment { acquisition_date: Date, acquisition_rate: Decimal, amount: Decimal },
}

/// One FIFO portion of a foreign-currency movement, in ledger order.
#[derive(Debug)]
pub struct FxLedgerRow {
    pub date: Date,
    /// Broker transaction id of the movement (empty when the statement has none).
    pub transaction_id: String,
    pub activity_code: String,
    /// Signed units of this portion: positive = inflow, negative = outflow.
    pub units: Decimal,
    /// EUR value of one unit for this movement (execution rate for a real exchange, else ECB).
    pub rate: Decimal,
    pub kind: FxLedgerKind,
    /// Currency balance after this portion.
    pub balance_after: Decimal,
}

pub struct FxLedgerRowView {
    pub date: Date,
    pub transaction_id: Seq<char>,
    pub activity_code: Seq<char>,
    pub units: Decimal,
    pub rate: Decimal,
    pub kind: FxLedgerKind,
    pub balance_after: Decimal,
}

impl View for FxLedgerRow {
    type V = FxLedgerRowView;

    open spec fn view(&self) -> FxLedgerRowView {
        FxLedgerRowView {
            date: self.date,
            transaction_id: self.transaction_id@,
            activity_code: self.activity_code@,
            units: self.units,
            rate: self.rate,
            kind: self.kind,
            balance_after: self.balance_after,
        }
    }
}

/// Realized FX result for one foreign currency over the statement.
#[derive(Debug)]
pub struct CurrencyFxResult {
    pub currency: String,
    /// Results realized against a held (positive) balance.
    pub taxable: Vec<FxRealization>,
    /// Results realized against a borrowed (negative) balance.
    pub non_taxable: Vec<FxRealization>,
    /// Every movement portion in ledger order.
    pub ledger: Vec<FxLedgerRow>,
}

pub struct CurrencyFxResultView {
    pub currency: Seq<char>,
    pub taxable: Seq<FxRealizationView>,
    pub non_taxable: Seq<FxRealizationView>,
    pub ledger: Seq<FxLedgerRowView>,
}

pub open spec fn realizations_view(v: Seq<FxRealization>) -> Seq<FxRealizationView> {
    v.map_values(|r: FxRealization| r@)
}

pub open spec fn ledger_view(v: Seq<FxLedgerRow>) -> Seq<FxLedgerRowView> {
    v.map_values(|r: FxLedgerRow| r@)
}

impl View for CurrencyFxResult {
    type V = CurrencyFxResultView;

    open spec fn view(&self) -> CurrencyFxResultView {
        CurrencyFxResultView {
            currency: self.currency@,
            taxable: realizations_view(self.taxable@),
            non_taxable: realizations_view(self.non_taxable@),
            ledger: ledger_view(self.ledger@),
        }
    }
}

pub open spec fn results_view(v: Seq<CurrencyFxResult>) -> Seq<CurrencyFxResultView> {
    v.map_values(|r: CurrencyFxResult| r@)
}

/// A pre-history foreign-currency lot declared in config, seeding the FIFO for a statement that does
/// not begin from a zero balance (truncated history). The declared rate is trusted; the balance
/// chain still validates the flows against the declared quantity.
#[derive(Debug, Clone)]
pub struct OpeningLot {
    pub currency: String,
    /// Signed quantity at the statement's start: positive = held (Guthaben), negative = borrowed.
    pub quantity: Decimal,
    /// EUR value of one unit of the foreign currency at acquisition.
    pub eur_per_unit: Decimal,
    /// Acquisition date of the opening lot.
    pub date: Date,
}

/// One FIFO lot: a signed quantity of the foreign currency carrying its EUR-per-unit rate.
#[derive(Clone, Copy, Debug)]
pub struct Lot {
    /// Remaining quantity: positive = held (Guthaben), negative = borrowed (Kredit).
    pub qty: Decimal,
    /// EUR value of one unit of the foreign currency at acquisition.
    pub rate: Decimal,
    /// Acquisition date of this lot.
    pub date: Date,
}

/// Why the replay refused a statement.
#[derive(Clone, Copy, Debug, PartialEq, Eq, Structural)]
pub enum FxErrorKind {
    /// The movements do not sum to the statement's running balance.
    Inconsistent,
    /// A FOREX leg whose EUR counter-leg gives a rate that is not positive.
    NonPositiveRate,
    /// No reference rate for the movement.
    RateUnavailable,
}

/// A refused statement: the movement at which the replay stopped, why, and a message.
#[derive(Debug)]
pub struct FxError {
    pub flow: usize,
    pub kind: FxErrorKind,
    pub message: String,
}

impl FxError {
    /// The error message.
    pub fn message(&self) -> (r: String)
        ensures
            r@ == self.message@,
    {
        self.message.clone()
    }
}

/// The FIFO state of one currency: its lots, its running balance and what it realized so far.
struct Book {
    currency: String,
    lots: Vec<Lot>,
    running: Decimal,
    result: CurrencyFxResult,
}

pub struct BookView {
    pub currency: Seq<char>,
    pub lots: Seq<Lot>,
    pub running: Decimal,
    pub result: CurrencyFxResultView,
}

impl View for Book {
    type V = BookView;

    closed spec fn view(&self) -> BookView {
        BookView {
            currency: self.currency@,
            lots: self.lots@,
            running: self.running,
            result: self.result@,
        }
    }
}

spec fn books_view(v: Seq<Book>) -> Seq<BookView> {
    v.map_values(|b: Book| b@)
}

// ---------------------------------------------------------------------------------------------
// The replay, as a specification
// ---------------------------------------------------------------------------------------------
pub open spec fn eur_code() -> Seq<char> {
    seq!['E', 'U', 'R']
}

pub open spec fn forex_code() -> Seq<char> {
    seq!['F', 'O', 'R', 'E', 'X']
}

pub open spec fn opening_code() -> Seq<char> {
    seq!['O', 'P', 'E', 'N', 'I', 'N', 'G']
}

/// One cent, in units: the tolerance of the balance check.
pub open spec fn cent_units() -> int {
    unit() / 100
}

/// 10^6 EUR per unit: the largest rate the replay takes.
pub open spec fn rate_bound() -> int {
    1_000_000 * unit()
}

/// A quantity the ledgers take: at most ten fractional digits and a magnitude of at most 10^12.
pub open spec fn is_quantity(d: Decimal) -> bool {
    d.exp() <= 10 && -quantity_bound() <= d.units() <= quantity_bound()
}

pub open spec fn is_rate(d: Decimal) -> bool {
    -rate_bound() <= d.units() <= rate_bound()
}

pub open spec fn new_book(currency: Seq<char>) -> BookView {
    BookView {
        currency,
        lots: seq![],
        running: Decimal::spec_zero(),
        result: CurrencyFxResultView {
            currency,
            taxable: seq![],
            non_taxable: seq![],
            ledger: seq![],
        },
    }
}

/// The position of the first book of `currency` at or after `i`, or the number of books.
pub open spec fn book_index_from(books: Seq<BookView>, currency: Seq<char>, i: nat) -> nat
    decreases books.len() - i,
{
    if i >= books.len() {
        books.len()
    } else if books[i as int].currency == currency {
        i
    } else {
        book_index_from(books, currency, i + 1)
    }
}

pub open spec fn book_index(books: Seq<BookView>, currency: Seq<char>) -> nat {
    book_index_from(books, currency, 0)
}

/// The books with one for `currency` registered (appended on first use).
pub open spec fn with_book(books: Seq<BookView>, currency: Seq<char>) -> Seq<BookView> {
    if book_index(books, currency) < books.len() {
        books
    } else {
        books.push(new_book(currency))
    }
}

pub open spec fn with_ledger_row(r: CurrencyFxResultView, row: FxLedgerRowView) -> CurrencyFxResultView {
    CurrencyFxResultView {
        currency: r.currency,
        taxable: r.taxable,
        non_taxable: r.non_taxable,
        ledger: r.ledger.push(row),
    }
}

/// Seed the books with one declared opening lot. EUR and zero lots are skipped.
pub open spec fn open_lot(books: Seq<BookView>, lot: OpeningLot) -> Seq<BookView> {
    if lot.currency@ == eur_code() || lot.quantity.units() == 0 {
        books
    } else {
        let bs = with_book(books, lot.currency@);
        let i = book_index(bs, lot.currency@) as int;
        let b = bs[i];
        let row = FxLedgerRowView {
            date: lot.date,
            transaction_id: seq![],
            activity_code: opening_code(),
            units: lot.quantity,
            rate: lot.eur_per_unit,
            kind: FxLedgerKind::Acquisition,
            balance_after: lot.quantity,
        };
        bs.update(
            i,
            BookView {
                currency: b.currency,
                lots: b.lots.push(Lot { qty: lot.quantity, rate: lot.eur_per_unit, date: lot.date }),
                running: b.running.spec_add(lot.quantity),
                result: with_ledger_row(b.result, row),
            },
        )
    }
}

/// The books after the first `n` opening lots.
pub open spec fn open_lots(opening: Seq<OpeningLot>, n: nat) -> Seq<BookView>
    decreases n,
{
    if n == 0 || n > opening.len() {
        seq![]
    } else {
        open_lot(open_lots(opening, (n - 1) as nat), opening[n - 1])
    }
}

/// The ledger row of a movement portion that opens or extends a lot.
pub open spec fn acquisition_row(flow: ForeignCashFlow, units: Decimal, rate: Decimal) -> FxLedgerRowView {
    FxLedgerRowView {
        date: flow.date,
        transaction_id: flow.transaction_id@,
        activity_code: flow.activity_code@,
        units,
        rate,
        kind: FxLedgerKind::Acquisition,
        balance_after: flow.balance,
    }
}

/// The units of `remaining` and of the front lot that one step consumes.
pub open spec fn consumed(front: Lot, remaining: Decimal) -> Decimal {
    front.qty.spec_abs().spec_min(remaining.spec_abs())
}

/// What consuming `units` of the front lot realizes: against a held lot, a gain or loss at the
/// movement's rate; against a borrowed lot, the repayment result.
pub open spec fn realized_amount(front: Lot, units: Decimal, rate: Decimal) -> Decimal {
    if front.qty.units() >= 0 {
        units.spec_mul(rate.spec_sub(front.rate))
    } else {
        units.spec_mul(front.rate.spec_sub(rate))
    }
}

pub open spec fn realized_kind(front: Lot, amount: Decimal) -> FxLedgerKind {
    if front.qty.units() >= 0 {
        FxLedgerKind::Disposal { acquisition_date: front.date, acquisition_rate: front.rate, amount }
    } else {
        FxLedgerKind::Repayment { acquisition_date: front.date, acquisition_rate: front.rate, amount }
    }
}

/// The result after one consumption step against `front`.
pub open spec fn consume_result(
    res: CurrencyFxResultView,
    front: Lot,
    remaining: Decimal,
    rate: Decimal,
    flow: ForeignCashFlow,
) -> CurrencyFxResultView {
    let units = consumed(front, remaining);
    let amount = realized_amount(front, units, rate);
    let realization = FxRealizationView {
        date: flow.date,
        acquisition_date: front.date,
        amount,
        activity_code: flow.activity_code@,
    };
    let rest = remaining.spec_sub(remaining.spec_signum().spec_mul(units));
    let row = FxLedgerRowView {
        date: flow.date,
        transaction_id: flow.transaction_id@,
        activity_code: flow.activity_code@,
        units: flow.amount.spec_signum().spec_mul(units),
        rate,
        kind: realized_kind(front, amount),
        balance_after: flow.balance.spec_sub(rest),
    };
    CurrencyFxResultView {
        currency: res.currency,
        taxable: if front.qty.units() >= 0 {
            res.taxable.push(realization)
        } else {
            res.taxable
        },
        non_taxable: if front.qty.units() >= 0 {
            res.non_taxable
        } else {
            res.non_taxable.push(realization)
        },
        ledger: res.ledger.push(row),
    }
}

/// The lots after one consumption step: the front lot shrinks, and leaves once it is used up.
pub open spec fn consume_lots(lots: Seq<Lot>, remaining: Decimal) -> Seq<Lot> {
    let front = lots[0];
    let units = consumed(front, remaining);
    let qty = front.qty.spec_sub(front.qty.spec_signum().spec_mul(units));
    if qty.units() == 0 {
        lots.remove(0)
    } else {
        lots.update(0, Lot { qty, rate: front.rate, date: front.date })
    }
}

/// Replay the rest of a movement, `remaining`, against the lots: while the front lot has the
/// opposite sign, consume it; otherwise open a lot with what is left. `fuel` bounds the steps.
pub open spec fn consume_spec(
    lots: Seq<Lot>,
    res: CurrencyFxResultView,
    remaining: Decimal,
    rate: Decimal,
    flow: ForeignCashFlow,
    fuel: nat,
) -> (Seq<Lot>, CurrencyFxResultView)
    decreases fuel,
{
    if fuel == 0 || remaining.units() == 0 {
        (lots, res)
    } else if lots.len() == 0 || (lots[0].qty.units() >= 0) == (remaining.units() >= 0) {
        (
            lots.push(Lot { qty: remaining, rate, date: flow.date }),
            with_ledger_row(res, acquisition_row(flow, remaining, rate)),
        )
    } else {
        let front = lots[0];
        let units = consumed(front, remaining);
        let rest = remaining.spec_sub(remaining.spec_signum().spec_mul(units));
        consume_spec(
            consume_lots(lots, remaining),
            consume_result(res, front, remaining, rate, flow),
            rest,
            rate,
            flow,
            (fuel - 1) as nat,
        )
    }
}

/// Enough steps for a movement against `n` lots.
pub open spec fn fuel_for(n: nat) -> nat {
    2 * n + 4
}

/// The EUR value of one unit for a movement: the execution rate of a real exchange (which, with
/// `strict`, must be positive), otherwise the reference rate.
pub open spec fn movement_rate(
    flow: ForeignCashFlow,
    reference: Result<Decimal, String>,
    strict: bool,
) -> Result<Decimal, FxErrorKind> {
    if flow.activity_code@ == forex_code() && flow.eur_execution is Some {
        let rate = flow.eur_execution->0.spec_neg().spec_div(flow.amount);
        if strict && rate.units() <= 0 {
            Err(FxErrorKind::NonPositiveRate)
        } else {
            Ok(rate)
        }
    } else {
        match reference {
            Ok(rate) => Ok(rate),
            Err(_) => Err(FxErrorKind::RateUnavailable),
        }
    }
}

/// Whether a movement is replayed: EUR movements and zero amounts are skipped.
pub open spec fn is_replayed(flow: ForeignCashFlow) -> bool {
    flow.currency@ != eur_code() && flow.amount.units() != 0
}

/// A replayed FOREX leg valued at its own execution amount.
pub open spec fn execution_leg(flow: ForeignCashFlow) -> bool {
    is_replayed(flow) && flow.activity_code@ == forex_code() && flow.eur_execution is Some
}

/// The execution rate `-eur / amount` of a leg is a number the representation holds exactly.
pub open spec fn rate_exact(flow: ForeignCashFlow) -> bool {
    representable_quotient(-flow.eur_execution->0.units(), flow.amount.units())
}

/// The EUR leg and the currency leg of an exchange go in opposite directions.
pub open spec fn legs_opposite(flow: ForeignCashFlow) -> bool {
    flow.eur_execution->0.units() * flow.amount.units() < 0
}

/// What taking a movement says of its execution rate: an exact rate of a FOREX leg was positive,
/// so the two legs went in opposite directions.
pub open spec fn accepted_leg(flow: ForeignCashFlow) -> bool {
    execution_leg(flow) && rate_exact(flow) ==> legs_opposite(flow)
}

/// What refusing a movement's execution rate says: it is a FOREX leg, and where its rate is
/// exact, the two legs do not go in opposite directions.
pub open spec fn refused_leg(flow: ForeignCashFlow) -> bool {
    execution_leg(flow) && (rate_exact(flow) ==> !legs_opposite(flow))
}

proof fn lemma_rate_sign(rate: int, amount: int, eur: int)
    requires
        amount != 0,
        rate * amount == -eur * unit(),
    ensures
        rate > 0 ==> eur * amount < 0,
        rate <= 0 ==> eur * amount >= 0,
{
    let u = unit();
    assert(rate > 0 ==> eur * amount < 0) by (nonlinear_arith)
        requires
            amount != 0,
            rate * amount == -eur * u,
            u > 0,
    ;
    assert(rate <= 0 ==> eur * amount >= 0) by (nonlinear_arith)
        requires
            amount != 0,
            rate * amount == -eur * u,
            u > 0,
    ;
}

/// What a refusal at `e.flow` says of the execution legs: those taken before it were accepted
/// (with the rate check on), a refused rate belongs to a leg that is not a real exchange, and a
/// missing rate to a movement valued at the reference rate.
pub open spec fn legs_before_refusal(flows: Seq<ForeignCashFlow>, e: FxError, strict: bool) -> bool {
    &&& e.flow < flows.len()
    &&& strict ==> forall|j: int| 0 <= j < e.flow ==> #[trigger] accepted_leg(flows[j])
    &&& e.kind == FxErrorKind::NonPositiveRate ==> refused_leg(flows[e.flow as int])
    &&& e.kind == FxErrorKind::RateUnavailable ==> needs_reference_rate(flows[e.flow as int])
}

/// Whether a replayed movement needs a reference rate.
pub open spec fn needs_reference_rate(flow: ForeignCashFlow) -> bool {
    is_replayed(flow) && !(flow.activity_code@ == forex_code() && flow.eur_execution is Some)
}

/// Replay one movement: check the balance chain, value the movement, consume lots.
pub open spec fn flow_step(
    books: Seq<BookView>,
    flow: ForeignCashFlow,
    reference: Result<Decimal, String>,
    strict: bool,
) -> Result<Seq<BookView>, FxErrorKind> {
    if !is_replayed(flow) {
        Ok(books)
    } else {
        let bs = with_book(books, flow.currency@);
        let i = book_index(bs, flow.currency@) as int;
        let b = bs[i];
        let running = b.running.spec_add(flow.amount);
        if running.spec_sub(flow.balance).spec_abs().units() > cent_units() {
            Err(FxErrorKind::Inconsistent)
        } else {
            match movement_rate(flow, reference, strict) {
                Err(kind) => Err(kind),
                Ok(rate) => {
                    let (lots, result) = consume_spec(
                        b.lots,
                        b.result,
                        flow.amount,
                        rate,
                        flow,
                        fuel_for(b.lots.len()),
                    );
                    Ok(bs.update(i, BookView { currency: b.currency, lots, running, result }))
                },
            }
        }
    }
}

/// The books after the first `n` movements, or the first refusal with the movement's position.
pub open spec fn replay_flows(
    books: Seq<BookView>,
    flows: Seq<ForeignCashFlow>,
    references: Seq<Result<Decimal, String>>,
    n: nat,
    strict: bool,
) -> Result<Seq<BookView>, (nat, FxErrorKind)>
    decreases n,
{
    if n == 0 {
        Ok(books)
    } else {
        match replay_flows(books, flows, references, (n - 1) as nat, strict) {
            Err(e) => Err(e),
            Ok(bs) => match flow_step(bs, flows[n - 1], references[n - 1], strict) {
                Ok(next) => Ok(next),
                Err(kind) => Err(((n - 1) as nat, kind)),
            },
        }
    }
}

pub open spec fn books_results(books: Seq<BookView>) -> Seq<CurrencyFxResultView> {
    books.map_values(|b: BookView| b.result)
}

/// The FIFO: the opening lots, then every movement; per currency in first-seen order.
pub open spec fn fx_fifo_spec(
    flows: Seq<ForeignCashFlow>,
    opening: Seq<OpeningLot>,
    references: Seq<Result<Decimal, String>>,
    strict: bool,
) -> Result<Seq<CurrencyFxResultView>, (nat, FxErrorKind)> {
    match replay_flows(
        open_lots(opening, opening.len()),
        flows,
        references,
        flows.len(),
        strict,
    ) {
        Ok(books) => Ok(books_results(books)),
        Err(e) => Err(e),
    }
}

/// The inputs the replay takes: amounts, balances and quantities within 10^12 with at most ten
/// fractional digits, rates within 10^6, execution legs within 10^6 EUR per unit, and at most a
/// million rows.
pub open spec fn inputs_in_bounds(
    flows: Seq<ForeignCashFlow>,
    opening: Seq<OpeningLot>,
    references: Seq<Result<Decimal, String>>,
) -> bool {
    &&& rows_in_bounds(flows, opening)
    &&& references.len() == flows.len()
    &&& forall|i: int|
        0 <= i < references.len() ==> (#[trigger] references[i] matches Ok(r) ==> is_rate(r))
}

/// The rows the replay takes: amounts, balances and quantities within 10^12 with at most ten
/// fractional digits, opening rates within 10^6, execution legs within 10^6 EUR per unit, and at
/// most a million rows.
pub open spec fn rows_in_bounds(flows: Seq<ForeignCashFlow>, opening: Seq<OpeningLot>) -> bool {
    &&& flows.len() + opening.len() <= 1_000_000
    &&& forall|i: int|
        0 <= i < flows.len() ==> {
            let f = #[trigger] flows[i];
            &&& is_quantity(f.amount)
            &&& is_quantity(f.balance)
            &&& (f.eur_execution is Some && f.amount.units() != 0 ==> abs_int(
                f.eur_execution->0.units(),
            ) <= 1_000_000 * abs_int(f.amount.units()))
        }
    &&& forall|i: int|
        0 <= i < opening.len() ==> is_quantity(#[trigger] opening[i].quantity) && is_rate(
            opening[i].eur_per_unit,
        )
}

// ---------------------------------------------------------------------------------------------
// The replay
// ---------------------------------------------------------------------------------------------
/// 3 * 10^18: a bound on every realized amount.
pub open spec fn amount_bound() -> int {
    3_000_000_000_000_000_000 * unit()
}

pub open spec fn lot_ok(l: Lot) -> bool {
    &&& is_quantity(l.qty)
    &&& l.qty.units() != 0
    &&& -(rate_bound() + unit()) <= l.rate.units() <= rate_bound() + unit()
}

pub open spec fn lots_ok(lots: Seq<Lot>) -> bool {
    forall|i: int| 0 <= i < lots.len() ==> lot_ok(#[trigger] lots[i])
}

pub open spec fn realizations_ok(s: Seq<FxRealizationView>) -> bool {
    forall|i: int| 0 <= i < s.len() ==> -amount_bound() <= #[trigger] s[i].amount.units() <= amount_bound()
}

/// A book after `k` rows: its running balance within `k` quantities, at most `k` lots and
/// realizations, every realization within the amount bound, and its ledger moving exactly its
/// running balance.
pub open spec fn book_ok(b: BookView, k: int) -> bool {
    &&& b.running.exp() <= 10
    &&& -k * quantity_bound() <= b.running.units() <= k * quantity_bound()
    &&& lots_ok(b.lots)
    &&& realizations_ok(b.result.taxable)
    &&& realizations_ok(b.result.non_taxable)
    &&& b.lots.len() + b.result.taxable.len() + b.result.non_taxable.len() <= k
    &&& ledger_units(b.result.ledger) == b.running.units()
}

/// The units that a ledger's rows move, summed.
pub open spec fn ledger_units(rows: Seq<FxLedgerRowView>) -> int
    decreases rows.len(),
{
    if rows.len() == 0 {
        0
    } else {
        ledger_units(rows.drop_last()) + rows.last().units.units()
    }
}

proof fn lemma_ledger_units_push(rows: Seq<FxLedgerRowView>, row: FxLedgerRowView)
    ensures
        ledger_units(rows.push(row)) == ledger_units(rows) + row.units.units(),
{
    assert(rows.push(row).drop_last() =~= rows);
}

pub open spec fn books_ok(bs: Seq<BookView>, k: int) -> bool {
    forall|i: int| 0 <= i < bs.len() ==> book_ok(#[trigger] bs[i], k)
}

proof fn lemma_ledger_push(v: Seq<FxLedgerRow>, r: FxLedgerRow)
    ensures
        ledger_view(v.push(r)) == ledger_view(v).push(r@),
{
    assert(ledger_view(v.push(r)) =~= ledger_view(v).push(r@));
}

proof fn lemma_realizations_push(v: Seq<FxRealization>, r: FxRealization)
    ensures
        realizations_view(v.push(r)) == realizations_view(v).push(r@),
{
    assert(realizations_view(v.push(r)) =~= realizations_view(v).push(r@));
}

proof fn lemma_books_put_back(v: Seq<Book>, i: int, b: Book)
    requires
        0 <= i < v.len(),
    ensures
        books_view(v.remove(i).insert(i, b)) == books_view(v).update(i, b@),
        v.remove(i).insert(i, b).len() == v.len(),
{
    assert(books_view(v.remove(i).insert(i, b)) =~= books_view(v).update(i, b@));
}

proof fn lemma_books_push(v: Seq<Book>, b: Book)
    ensures
        books_view(v.push(b)) == books_view(v).push(b@),
{
    assert(books_view(v.push(b)) =~= books_view(v).push(b@));
}

proof fn lemma_books_ok_mono(bs: Seq<BookView>, k: int)
    requires
        books_ok(bs, k),
        k >= 0,
    ensures
        books_ok(bs, k + 1),
{
    assert((k + 1) * quantity_bound() == k * quantity_bound() + quantity_bound()) by (nonlinear_arith);
    assert(-(k + 1) * quantity_bound() == -k * quantity_bound() - quantity_bound()) by (nonlinear_arith);
    assert forall|i: int| 0 <= i < bs.len() implies book_ok(#[trigger] bs[i], k + 1) by {
        assert(book_ok(bs[i], k));
    }
}

/// The product of a quantity and a rate difference stays in range, and what `rust_decimal`
/// returns for it stays within the amount bound.
proof fn lemma_product_bounds(a: int, b: int, r: int)
    requires
        -quantity_bound() <= a <= quantity_bound(),
        -(2 * rate_bound() + 3 * unit()) <= b <= 2 * rate_bound() + 3 * unit(),
    ensures
        in_range(a * b / unit()),
        -(unit() * unit()) <= r * unit() - a * b <= unit() * unit() ==> -amount_bound() <= r
            <= amount_bound(),
{
    let q = quantity_bound();
    let c = 2 * rate_bound() + 3 * unit();
    assert(-(q * c) <= a * b <= q * c) by (nonlinear_arith)
        requires
            -q <= a <= q,
            -c <= b <= c,
            q >= 0,
            c >= 0,
    ;
    let u = unit();
    assert(q * c == (2_000_003_000_000_000_000 * u) * u) by (nonlinear_arith)
        requires
            q == 1_000_000_000_000 * u,
            c == 2_000_003 * u,
    ;
    let p = a * b;
    assert(-(2_000_003_000_000_000_000 * u) - 1 <= p / u <= 2_000_003_000_000_000_000 * u) by (nonlinear_arith)
        requires
            -((2_000_003_000_000_000_000 * u) * u) <= p <= (2_000_003_000_000_000_000 * u) * u,
            u > 0,
    ;
    if -(u * u) <= r * u - a * b <= u * u {
        assert(-amount_bound() <= r <= amount_bound()) by (nonlinear_arith)
            requires
                -(u * u) <= r * u - p <= u * u,
                -((2_000_003_000_000_000_000 * u) * u) <= p <= (2_000_003_000_000_000_000 * u) * u,
                u > 0,
                amount_bound() == 3_000_000_000_000_000_000 * u,
        ;
    }
}

/// An execution rate `-eur / amount` stays in range, and what `rust_decimal` returns for it is
/// within 10^6 + 1 EUR per unit.
proof fn lemma_quotient_bounds(x: int, y: int, r: int)
    requires
        y != 0,
        abs_int(x) <= 1_000_000 * abs_int(y),
    ensures
        in_range(x * unit() / y),
        in_range(-x * unit() / y),
        -(abs_int(y) * unit()) <= r * y - x * unit() <= abs_int(y) * unit() ==> -(rate_bound()
            + unit()) <= r <= rate_bound() + unit(),
{
    let u = unit();
    let k = 1_000_000 * u;
    assert(-(k * abs_int(y)) <= x * u <= k * abs_int(y)) by (nonlinear_arith)
        requires
            abs_int(x) <= 1_000_000 * abs_int(y),
            k == 1_000_000 * u,
            u > 0,
            abs_int(x) == if x < 0 { -x } else { x },
            abs_int(y) == if y < 0 { -y } else { y },
    ;
    assert(-k - 1 <= x * u / y <= k + 1) by (nonlinear_arith)
        requires
            -(k * abs_int(y)) <= x * u <= k * abs_int(y),
            y != 0,
            abs_int(y) == if y < 0 { -y } else { y },
    ;
    assert(-k - 1 <= -x * u / y <= k + 1) by (nonlinear_arith)
        requires
            -(k * abs_int(y)) <= -x * u <= k * abs_int(y),
            y != 0,
            abs_int(y) == if y < 0 { -y } else { y },
    ;
    if -(abs_int(y) * u) <= r * y - x * u <= abs_int(y) * u {
        assert(-(k + u) <= r <= k + u) by (nonlinear_arith)
            requires
                -(abs_int(y) * u) <= r * y - x * u <= abs_int(y) * u,
                -(k * abs_int(y)) <= x * u <= k * abs_int(y),
                abs_int(y) == if y < 0 { -y } else { y },
                y != 0,
                u > 0,
        ;
    }
}

fn find_book(books: &Vec<Book>, currency: &String) -> (r: usize)
    ensures
        r as nat == book_index(books_view(books@), currency@),
        r <= books.len(),
{
    let ghost bv = books_view(books@);
    let mut i: usize = 0;
    while i < books.len()
        invariant
            i <= books.len(),
            bv == books_view(books@),
            book_index_from(bv, currency@, i as nat) == book_index(bv, currency@),
        decreases books.len() - i,
    {
        if books[i].currency == *currency {
            return i;
        }
        i = i + 1;
    }
    i
}

/// Register a currency's book on first use; return its position.
fn register_currency(books: &mut Vec<Book>, currency: &String) -> (r: usize)
    ensures
        books_view(final(books)@) == with_book(books_view(old(books)@), currency@),
        r as nat == book_index(books_view(final(books)@), currency@),
        r < final(books)@.len(),
        book_index(books_view(old(books)@), currency@) < old(books)@.len() ==> r as nat
            == book_index(books_view(old(books)@), currency@) && final(books)@ == old(books)@,
        book_index(books_view(old(books)@), currency@) >= old(books)@.len() ==> r
            == old(books)@.len() && books_view(final(books)@)[r as int] == new_book(currency@)
            && books_view(final(books)@)[r as int].running.units() == 0
            && books_view(final(books)@)[r as int].running.exp() == 0,
{
    let i = find_book(books, currency);
    if i < books.len() {
        i
    } else {
        let book = Book {
            currency: currency.clone(),
            lots: Vec::new(),
            running: Decimal::zero(),
            result: CurrencyFxResult {
                currency: currency.clone(),
                taxable: Vec::new(),
                non_taxable: Vec::new(),
                ledger: Vec::new(),
            },
        };
        let ghost before = books@;
        books.push(book);
        proof {
            lemma_books_push(before, book);
            assert(book@ == new_book(currency@)) by {
                assert(realizations_view(book.result.taxable@) =~= seq![]);
                assert(realizations_view(book.result.non_taxable@) =~= seq![]);
                assert(ledger_view(book.result.ledger@) =~= seq![]);
            }
            let bv = books_view(books@);
            let k = books_view(before).len();
            assert forall|j: nat| j <= k implies book_index_from(bv, currency@, j) == k by {
                lemma_index_push(books_view(before), new_book(currency@), currency@, j);
            }
        }
        i
    }
}

proof fn lemma_index_push(bs: Seq<BookView>, b: BookView, currency: Seq<char>, j: nat)
    requires
        book_index_from(bs, currency, 0) == bs.len(),
        b.currency == currency,
        j <= bs.len(),
    ensures
        book_index_from(bs.push(b), currency, j) == bs.len(),
    decreases bs.len() - j,
{
    lemma_index_from_missing(bs, currency, 0, j);
    if j < bs.len() {
        lemma_index_push(bs, b, currency, j + 1);
    }
}

/// A search that finds nothing from `i` finds nothing from any later position either.
proof fn lemma_index_from_missing(bs: Seq<BookView>, currency: Seq<char>, i: nat, j: nat)
    requires
        book_index_from(bs, currency, i) == bs.len(),
        i <= j <= bs.len(),
    ensures
        book_index_from(bs, currency, j) == bs.len(),
        j < bs.len() ==> bs[j as int].currency != currency,
    decreases j - i,
{
    if i < j {
        lemma_index_from_missing(bs, currency, i + 1, j);
    }
}


proof fn lemma_sign_product(s: int, x: int)
    requires
        s == unit() || s == -unit(),
        -small_bound() <= x <= small_bound(),
    ensures
        in_range(s * x / unit()),
{
    let u = unit();
    assert(-small_bound() <= s * x / u <= small_bound()) by (nonlinear_arith)
        requires
            s == u || s == -u,
            -small_bound() <= x <= small_bound(),
            u > 0,
    ;
}

/// Replay one movement's `flow.amount` against the lots of its currency.
fn consume(lots: &mut Vec<Lot>, result: &mut CurrencyFxResult, flow: &ForeignCashFlow, rate: Decimal)
    requires
        is_quantity(flow.amount),
        flow.amount.units() != 0,
        is_quantity(flow.balance),
        -(rate_bound() + unit()) <= rate.units() <= rate_bound() + unit(),
        lots_ok(old(lots)@),
        realizations_ok(old(result)@.taxable),
        realizations_ok(old(result)@.non_taxable),
    ensures
        (final(lots)@, final(result)@) == consume_spec(
            old(lots)@,
            old(result)@,
            flow.amount,
            rate,
            *flow,
            fuel_for(old(lots)@.len()),
        ),
        lots_ok(final(lots)@),
        realizations_ok(final(result)@.taxable),
        realizations_ok(final(result)@.non_taxable),
        final(lots)@.len() + final(result)@.taxable.len() + final(result)@.non_taxable.len()
            <= old(lots)@.len() + old(result)@.taxable.len() + old(result)@.non_taxable.len() + 1,
        ledger_units(final(result)@.ledger) == ledger_units(old(result)@.ledger) + flow.amount.units(),
        final(result)@.ledger.len() > old(result)@.ledger.len(),
        final(result)@.ledger.last().balance_after.units() == flow.balance.units(),
{
    let ghost target = consume_spec(
        lots@,
        result@,
        flow.amount,
        rate,
        *flow,
        fuel_for(lots@.len()),
    );
    let ghost base = lots@.len() + result@.taxable.len() + result@.non_taxable.len();
    let ghost ledger0 = result@.ledger;
    let mut remaining = flow.amount;
    let ghost mut fuel: nat = fuel_for(lots@.len());
    while !remaining.is_zero()
        invariant
            consume_spec(lots@, result@, remaining, rate, *flow, fuel) == target,
            remaining.units() != 0 ==> fuel >= 2 * lots@.len() + 4,
            is_quantity(remaining),
            is_quantity(flow.balance),
            is_quantity(flow.amount),
            -(rate_bound() + unit()) <= rate.units() <= rate_bound() + unit(),
            lots_ok(lots@),
            realizations_ok(result@.taxable),
            realizations_ok(result@.non_taxable),
            lots@.len() + result@.taxable.len() + result@.non_taxable.len() + (if remaining.units()
                != 0 {
                1int
            } else {
                0int
            }) <= base + 1,
            flow.amount.units() != 0,
            ledger_units(result@.ledger) + remaining.units() == ledger_units(ledger0) + flow.amount.units(),
            remaining.units() == 0 || (remaining.units() > 0) == (flow.amount.units() > 0),
            result@.ledger.len() >= ledger0.len(),
            remaining.units() == 0 ==> result@.ledger.len() > ledger0.len(),
            result@.ledger.len() > ledger0.len() ==> result@.ledger.last().balance_after.units()
                == flow.balance.units() - remaining.units(),
        decreases 2 * lots@.len() + (if remaining.units() != 0 {
            3int
        } else {
            0int
        }),
    {
        if lots.len() == 0 || lots[0].qty.is_sign_positive() == remaining.is_sign_positive() {
            let lot = Lot { qty: remaining, rate, date: flow.date };
            lots.push(lot);
            let row = FxLedgerRow {
                date: flow.date,
                transaction_id: flow.transaction_id.clone(),
                activity_code: flow.activity_code.clone(),
                units: remaining,
                rate,
                kind: FxLedgerKind::Acquisition,
                balance_after: flow.balance,
            };
            let ghost old_ledger = result.ledger@;
            result.ledger.push(row);
            proof {
                lemma_ledger_push(old_ledger, row);
                lemma_ledger_units_push(ledger_view(old_ledger), row@);
            }
            remaining = Decimal::zero();
            proof {
                Decimal::lemma_spec_zero();
            }
        } else {
            let front = lots[0];
            let fa = front.qty.abs();
            let ra = remaining.abs();
            let units = fa.min(&ra);
            let held = front.qty.is_sign_positive();
            assert(lot_ok(front));
            let diff = if held {
                rate.sub(&front.rate)
            } else {
                front.rate.sub(&rate)
            };
            proof {
                lemma_product_bounds(units.units(), diff.units(), 0);
            }
            let amount = units.mul(&diff);
            proof {
                lemma_product_bounds(units.units(), diff.units(), amount.units());
            }
            let realization = FxRealization {
                date: flow.date,
                acquisition_date: front.date,
                amount,
                activity_code: flow.activity_code.clone(),
            };
            let kind = if held {
                FxLedgerKind::Disposal {
                    acquisition_date: front.date,
                    acquisition_rate: front.rate,
                    amount,
                }
            } else {
                FxLedgerKind::Repayment {
                    acquisition_date: front.date,
                    acquisition_rate: front.rate,
                    amount,
                }
            };
            if held {
                let ghost old_taxable = result.taxable@;
                result.taxable.push(realization);
                proof {
                    lemma_realizations_push(old_taxable, realization);
                }
            } else {
                let ghost old_non_taxable = result.non_taxable@;
                result.non_taxable.push(realization);
                proof {
                    lemma_realizations_push(old_non_taxable, realization);
                }
            }
            let front_sign = front.qty.signum();
            proof {
                lemma_sign_product(front_sign.units(), units.units());
            }
            let signed_front = front_sign.mul(&units);
            let qty = front.qty.sub(&signed_front);
            let rest_sign = remaining.signum();
            proof {
                lemma_sign_product(rest_sign.units(), units.units());
            }
            let signed_rest = rest_sign.mul(&units);
            let rest = remaining.sub(&signed_rest);
            let flow_sign = flow.amount.signum();
            proof {
                lemma_sign_product(flow_sign.units(), units.units());
            }
            let row_units = flow_sign.mul(&units);
            let balance_after = flow.balance.sub(&rest);
            let row = FxLedgerRow {
                date: flow.date,
                transaction_id: flow.transaction_id.clone(),
                activity_code: flow.activity_code.clone(),
                units: row_units,
                rate,
                kind,
                balance_after,
            };
            let ghost old_ledger = result.ledger@;
            result.ledger.push(row);
            proof {
                lemma_ledger_push(old_ledger, row);
                lemma_ledger_units_push(ledger_view(old_ledger), row@);
            }
            let ghost old_lots = lots@;
            if qty.is_zero() {
                lots.remove(0);
            } else {
                lots.set(0, Lot { qty, rate: front.rate, date: front.date });
            }
            proof {
                assert(lots_ok(lots@)) by {
                    if qty.units() == 0 {
                        assert forall|i: int| 0 <= i < lots@.len() implies lot_ok(#[trigger] lots@[i]) by {
                            assert(lots@[i] == old_lots[i + 1]);
                        }
                    } else {
                        assert forall|i: int| 0 <= i < lots@.len() implies lot_ok(#[trigger] lots@[i]) by {
                            if i > 0 {
                                assert(lots@[i] == old_lots[i]);
                            }
                        }
                    }
                }
                fuel = (fuel - 1) as nat;
            }
            remaining = rest;
        }
    }
}


/// The books after the opening lots and every movement, or the first refusal.
pub open spec fn fx_replay(
    flows: Seq<ForeignCashFlow>,
    opening: Seq<OpeningLot>,
    references: Seq<Result<Decimal, String>>,
    strict: bool,
) -> Result<Seq<BookView>, (nat, FxErrorKind)> {
    replay_flows(open_lots(opening, opening.len()), flows, references, flows.len(), strict)
}

/// Every conversion leg that the replay values at its execution rate gives a positive rate.
pub open spec fn forex_rates_positive(flows: Seq<ForeignCashFlow>) -> bool {
    forall|i: int|
        0 <= i < flows.len() && (#[trigger] flows[i]).activity_code@ == forex_code()
            && flows[i].eur_execution is Some && flows[i].amount.units() != 0 ==> flows[i].eur_execution->0.spec_neg().spec_div(
            flows[i].amount,
        ).units() > 0
}

/// Where every conversion leg has a positive rate, the FOREX-rate check changes nothing: the
/// replay with it and the replay without it agree, move for move.
pub proof fn lemma_rate_check_is_moot(
    books: Seq<BookView>,
    flows: Seq<ForeignCashFlow>,
    references: Seq<Result<Decimal, String>>,
    n: nat,
)
    requires
        n <= flows.len(),
        forex_rates_positive(flows),
    ensures
        replay_flows(books, flows, references, n, true) == replay_flows(books, flows, references, n, false),
    decreases n,
{
    if n > 0 {
        lemma_rate_check_is_moot(books, flows, references, (n - 1) as nat);
        let f = flows[n - 1];
        assert(movement_rate(f, references[n - 1], true) == movement_rate(f, references[n - 1], false) || !is_replayed(f));
    }
}

/// The FIFO with and without the FOREX-rate check agree where every conversion leg has a positive
/// rate.
pub proof fn rate_check_changes_nothing_on_real_conversions(
    flows: Seq<ForeignCashFlow>,
    opening: Seq<OpeningLot>,
    references: Seq<Result<Decimal, String>>,
)
    requires
        forex_rates_positive(flows),
    ensures
        fx_fifo_spec(flows, opening, references, true) == fx_fifo_spec(flows, opening, references, false),
{
    lemma_rate_check_is_moot(open_lots(opening, opening.len()), flows, references, flows.len());
}

/// The book a currency's movement goes to (registered on first use).
pub open spec fn book_of(books: Seq<BookView>, c: Seq<char>) -> BookView {
    with_book(books, c)[book_index(with_book(books, c), c) as int]
}

/// The units of a currency that the first `n` seeded opening lots declare.
pub open spec fn opening_total(opening: Seq<OpeningLot>, n: nat, c: Seq<char>) -> int
    decreases n,
{
    if n == 0 || n > opening.len() {
        0
    } else {
        let l = opening[n - 1];
        opening_total(opening, (n - 1) as nat, c) + if l.currency@ == c && c != eur_code() && l.quantity.units() != 0 {
            l.quantity.units()
        } else {
            0
        }
    }
}

/// The units of a currency that the first `n` replayed movements move.
pub open spec fn flow_total(flows: Seq<ForeignCashFlow>, n: nat, c: Seq<char>) -> int
    decreases n,
{
    if n == 0 {
        0
    } else {
        flow_total(flows, (n - 1) as nat, c) + if is_replayed(flows[n - 1]) && flows[n - 1].currency@ == c {
            flows[n - 1].amount.units()
        } else {
            0
        }
    }
}

/// The declared opening quantity of a currency plus its movements up to and including `j`.
pub open spec fn held_after(opening: Seq<OpeningLot>, flows: Seq<ForeignCashFlow>, j: nat, c: Seq<char>) -> int {
    opening_total(opening, opening.len(), c) + flow_total(flows, j + 1, c)
}

/// The statement's balance after the last of the first `n` movements that is replayed in
/// currency `c`, if there is one.
pub open spec fn last_balance(flows: Seq<ForeignCashFlow>, n: nat, c: Seq<char>) -> Option<Decimal>
    decreases n,
{
    if n == 0 {
        None
    } else if is_replayed(flows[n - 1]) && flows[n - 1].currency@ == c {
        Some(flows[n - 1].balance)
    } else {
        last_balance(flows, (n - 1) as nat, c)
    }
}

/// Each currency's ledger moves exactly its declared opening quantity plus its movements, and,
/// where the currency has a replayed movement, its last row ends at the statement's balance
/// after the last such movement.
pub open spec fn ledgers_reconcile(
    results: Seq<CurrencyFxResultView>,
    flows: Seq<ForeignCashFlow>,
    opening: Seq<OpeningLot>,
) -> bool {
    forall|k: int|
        0 <= k < results.len() ==> {
            let res = #[trigger] results[k];
            &&& ledger_units(res.ledger) == opening_total(opening, opening.len(), res.currency) + flow_total(
                flows,
                flows.len(),
                res.currency,
            )
            &&& (last_balance(flows, flows.len(), res.currency) matches Some(bal) ==> res.ledger.len() > 0
                && res.ledger.last().balance_after.units() == bal.units())
        }
}

/// Each book's ledger ends at the statement's balance after the last of the first `j` movements
/// replayed in its currency.
pub open spec fn balances_track(books: Seq<BookView>, flows: Seq<ForeignCashFlow>, j: nat) -> bool {
    forall|k: int|
        0 <= k < books.len() ==> (last_balance(flows, j, (#[trigger] books[k]).currency) matches Some(bal)
            ==> books[k].result.ledger.len() > 0 && books[k].result.ledger.last().balance_after.units()
            == bal.units())
}

/// Movement `j` is replayed and the statement's balance after it departs by more than a cent
/// from the declared opening quantity plus the movements so far.
pub open spec fn balance_departs(opening: Seq<OpeningLot>, flows: Seq<ForeignCashFlow>, j: int) -> bool {
    is_replayed(flows[j]) && abs_int(held_after(opening, flows, j as nat, flows[j].currency@) - flows[j].balance.units())
        > cent_units()
}

/// Each book's running balance is its currency's declared opening quantity plus its movements,
/// a currency without a book has neither, and no currency has two books.
pub open spec fn runnings_track(
    books: Seq<BookView>,
    opening: Seq<OpeningLot>,
    n: nat,
    flows: Seq<ForeignCashFlow>,
    j: nat,
) -> bool {
    &&& forall|k: int|
        0 <= k < books.len() ==> (#[trigger] books[k]).running.units() == opening_total(opening, n, books[k].currency)
            + flow_total(flows, j, books[k].currency)
    &&& forall|c: Seq<char>|
        !book_currencies(books).contains(c) ==> #[trigger] opening_total(opening, n, c) + flow_total(flows, j, c) == 0
    &&& forall|k1: int, k2: int|
        0 <= k1 < books.len() && 0 <= k2 < books.len() && k1 != k2 ==> (#[trigger] books[k1]).currency != (#[trigger] books[k2]).currency
}

proof fn lemma_with_book_tracks(
    books: Seq<BookView>,
    c: Seq<char>,
    opening: Seq<OpeningLot>,
    n: nat,
    flows: Seq<ForeignCashFlow>,
    j: nat,
)
    requires
        runnings_track(books, opening, n, flows, j),
        books_named(books),
    ensures
        runnings_track(with_book(books, c), opening, n, flows, j),
        book_of(books, c).currency == c,
        book_of(books, c).running.units() == opening_total(opening, n, c) + flow_total(flows, j, c),
{
    lemma_with_book_currencies(books, c);
    lemma_book_index_from(books, c, 0);
    let cs = book_currencies(books);
    if book_index(books, c) >= books.len() {
        Decimal::lemma_spec_zero();
        let nb = books.push(new_book(c));
        assert(!cs.contains(c)) by {
            if cs.contains(c) {
                let q = choose|q: int| 0 <= q < cs.len() && cs[q] == c;
                assert(books[q].currency == c);
            }
        }
        assert(opening_total(opening, n, c) + flow_total(flows, j, c) == 0);
        assert(book_currencies(nb) =~= cs.push(c));
        assert forall|d: Seq<char>| !book_currencies(nb).contains(d) implies #[trigger] opening_total(opening, n, d)
            + flow_total(flows, j, d) == 0 by {
            assert(!cs.contains(d)) by {
                if cs.contains(d) {
                    let q = choose|q: int| 0 <= q < cs.len() && cs[q] == d;
                    assert(book_currencies(nb)[q] == d);
                }
            }
        }
        assert forall|k1: int, k2: int|
            0 <= k1 < nb.len() && 0 <= k2 < nb.len() && k1 != k2 implies (#[trigger] nb[k1]).currency != (#[trigger] nb[k2]).currency by {
            if k1 == books.len() {
                assert(cs[k2] == books[k2].currency);
            }
            if k2 == books.len() {
                assert(cs[k1] == books[k1].currency);
            }
        }
        lemma_book_index_from(nb, c, 0);
    }
}

/// Seeding an opening lot adds its quantity to its currency's running balance.
proof fn lemma_open_lot_tracks(books: Seq<BookView>, lot: OpeningLot, opening: Seq<OpeningLot>, n: nat, flows: Seq<ForeignCashFlow>)
    requires
        n < opening.len(),
        opening[n as int] == lot,
        runnings_track(books, opening, n, flows, 0),
        books_named(books),
        !(lot.currency@ == eur_code() || lot.quantity.units() == 0) ==> book_of(books, lot.currency@).running.spec_add(
            lot.quantity,
        ).units() == book_of(books, lot.currency@).running.units() + lot.quantity.units(),
    ensures
        runnings_track(open_lot(books, lot), opening, n + 1, flows, 0),
{
    let c = lot.currency@;
    assert forall|d: Seq<char>| #[trigger] opening_total(opening, n + 1, d) == opening_total(opening, n, d) + if d == c
        && d != eur_code() && lot.quantity.units() != 0 {
        lot.quantity.units()
    } else {
        0
    } by {}
    if lot.currency@ == eur_code() || lot.quantity.units() == 0 {
    } else {
        lemma_with_book_tracks(books, c, opening, n, flows, 0);
        lemma_with_book_currencies(books, c);
        let bs = with_book(books, c);
        let i = book_index(bs, c) as int;
        let r = open_lot(books, lot);
        assert(book_currencies(r) =~= book_currencies(bs));
        assert forall|k: int| 0 <= k < r.len() implies (#[trigger] r[k]).running.units() == opening_total(opening, n + 1, r[k].currency)
            + flow_total(flows, 0, r[k].currency) by {
            if k != i {
                assert(r[k] == bs[k]);
                assert(bs[k].currency != bs[i].currency);
            }
        }
        assert forall|d: Seq<char>| !book_currencies(r).contains(d) implies #[trigger] opening_total(opening, n + 1, d)
            + flow_total(flows, 0, d) == 0 by {
            if d == c {
                assert(book_currencies(r)[i] == c);
            }
        }
        assert forall|k1: int, k2: int|
            0 <= k1 < r.len() && 0 <= k2 < r.len() && k1 != k2 implies (#[trigger] r[k1]).currency != (#[trigger] r[k2]).currency by {
            assert(r[k1].currency == bs[k1].currency);
            assert(r[k2].currency == bs[k2].currency);
        }
    }
}

/// A replayed movement adds its amount to its currency's running balance; it is refused as
/// inconsistent exactly when the statement's balance departs by more than a cent.
proof fn lemma_flow_step_tracks(
    books: Seq<BookView>,
    opening: Seq<OpeningLot>,
    flows: Seq<ForeignCashFlow>,
    references: Seq<Result<Decimal, String>>,
    j: nat,
    strict: bool,
)
    requires
        j < flows.len(),
        references.len() == flows.len(),
        runnings_track(books, opening, opening.len(), flows, j),
        books_named(books),
        is_replayed(flows[j as int]) ==> {
            let r = book_of(books, flows[j as int].currency@).running;
            let f = flows[j as int];
            &&& r.spec_add(f.amount).units() == r.units() + f.amount.units()
            &&& r.spec_add(f.amount).spec_sub(f.balance).spec_abs().units() == abs_int(
                r.units() + f.amount.units() - f.balance.units(),
            )
        },
    ensures
        (flow_step(books, flows[j as int], references[j as int], strict) == Err::<Seq<BookView>, FxErrorKind>(
            FxErrorKind::Inconsistent,
        )) == balance_departs(opening, flows, j as int),
        flow_step(books, flows[j as int], references[j as int], strict) matches Ok(next) ==> runnings_track(
            next,
            opening,
            opening.len(),
            flows,
            j + 1,
        ) && books_named(next),
{
    let f = flows[j as int];
    let c = f.currency@;
    assert forall|d: Seq<char>| #[trigger] flow_total(flows, j + 1, d) == flow_total(flows, j, d) + if is_replayed(f) && c
        == d {
        f.amount.units()
    } else {
        0
    } by {}
    if is_replayed(f) {
        lemma_with_book_tracks(books, c, opening, opening.len(), flows, j);
        let bs = with_book(books, c);
        let i = book_index(bs, c) as int;
        let b = bs[i];
        let running = b.running.spec_add(f.amount);
        match flow_step(books, f, references[j as int], strict) {
            Ok(next) => {
                lemma_with_book_currencies(books, c);
                let rate = movement_rate(f, references[j as int], strict)->Ok_0;
                lemma_consume_keeps_currency(b.lots, b.result, f.amount, rate, f, fuel_for(b.lots.len()));
                let (lots, result) = consume_spec(b.lots, b.result, f.amount, rate, f, fuel_for(b.lots.len()));
                assert(next == bs.update(i, BookView { currency: b.currency, lots, running, result }));
                assert forall|k: int| 0 <= k < next.len() implies (#[trigger] next[k]).result.currency == next[k].currency by {
                    if k != i {
                        assert(next[k] == bs[k]);
                    }
                }
                assert(book_currencies(next) =~= book_currencies(bs));
                assert forall|k: int| 0 <= k < next.len() implies (#[trigger] next[k]).running.units() == opening_total(
                    opening,
                    opening.len(),
                    next[k].currency,
                ) + flow_total(flows, j + 1, next[k].currency) by {
                    if k != i {
                        assert(next[k] == bs[k]);
                        assert(bs[k].currency != bs[i].currency);
                    }
                }
                assert forall|d: Seq<char>| !book_currencies(next).contains(d) implies #[trigger] opening_total(
                    opening,
                    opening.len(),
                    d,
                ) + flow_total(flows, j + 1, d) == 0 by {
                    if d == c {
                        assert(book_currencies(next)[i] == c);
                    }
                }
                assert forall|k1: int, k2: int|
                    0 <= k1 < next.len() && 0 <= k2 < next.len() && k1 != k2 implies (#[trigger] next[k1]).currency
                        != (#[trigger] next[k2]).currency by {
                    assert(next[k1].currency == bs[k1].currency);
                    assert(next[k2].currency == bs[k2].currency);
                }
            },
            Err(_) => {},
        }
    }
}

/// A replayed movement ends its currency's ledger at the statement's balance; other ledgers keep
/// their last rows.
proof fn lemma_flow_step_balances(
    books: Seq<BookView>,
    next: Seq<BookView>,
    opening: Seq<OpeningLot>,
    flows: Seq<ForeignCashFlow>,
    references: Seq<Result<Decimal, String>>,
    j: nat,
    strict: bool,
)
    requires
        j < flows.len(),
        references.len() == flows.len(),
        balances_track(books, flows, j),
        runnings_track(books, opening, opening.len(), flows, j),
        books_named(books),
        runnings_track(next, opening, opening.len(), flows, j + 1),
        flow_step(books, flows[j as int], references[j as int], strict) == Ok::<Seq<BookView>, FxErrorKind>(next),
        is_replayed(flows[j as int]) ==> {
            let nb = next[book_index(with_book(books, flows[j as int].currency@), flows[j as int].currency@) as int];
            nb.result.ledger.len() > 0 && nb.result.ledger.last().balance_after.units() == flows[j as int].balance.units()
        },
    ensures
        balances_track(next, flows, j + 1),
{
    let f = flows[j as int];
    let c = f.currency@;
    if !is_replayed(f) {
        assert forall|k: int| 0 <= k < next.len() implies (last_balance(flows, j + 1, (#[trigger] next[k]).currency) matches Some(bal)
            ==> next[k].result.ledger.len() > 0 && next[k].result.ledger.last().balance_after.units()
            == bal.units()) by {
            assert(last_balance(flows, j + 1, next[k].currency) == last_balance(flows, j, next[k].currency));
        }
    } else {
        lemma_with_book_tracks(books, c, opening, opening.len(), flows, j);
        let bs = with_book(books, c);
        let i = book_index(bs, c) as int;
        lemma_with_book_currencies(books, c);
        assert(bs[i].currency == c);
        let b = bs[i];
        let running = b.running.spec_add(f.amount);
        let rate = movement_rate(f, references[j as int], strict)->Ok_0;
        let (lots, result) = consume_spec(b.lots, b.result, f.amount, rate, f, fuel_for(b.lots.len()));
        assert(next == bs.update(i, BookView { currency: b.currency, lots, running, result }));
        assert(next[i].currency == c);
        assert forall|k: int| 0 <= k < next.len() implies (last_balance(flows, j + 1, (#[trigger] next[k]).currency) matches Some(bal)
            ==> next[k].result.ledger.len() > 0 && next[k].result.ledger.last().balance_after.units()
            == bal.units()) by {
            if k != i {
                assert(next[k] == bs[k]);
                assert(next[k].currency != next[i].currency);
                if k >= books.len() {
                    assert(bs == books.push(new_book(c)));
                    assert(bs[k].currency == c);
                }
                assert(bs[k] == books[k]);
                assert(last_balance(flows, j + 1, next[k].currency) == last_balance(flows, j, next[k].currency));
            }
        }
    }
}

/// Two rate lists agree on every movement that is valued at a reference rate.
pub open spec fn references_agree(
    flows: Seq<ForeignCashFlow>,
    r1: Seq<Result<Decimal, String>>,
    r2: Seq<Result<Decimal, String>>,
) -> bool {
    forall|i: int| 0 <= i < flows.len() && needs_reference_rate(#[trigger] flows[i]) ==> r1[i] == r2[i]
}

/// The replay reads a reference rate only for a movement valued at one.
pub proof fn lemma_replay_reads_needed_references(
    books: Seq<BookView>,
    flows: Seq<ForeignCashFlow>,
    r1: Seq<Result<Decimal, String>>,
    r2: Seq<Result<Decimal, String>>,
    n: nat,
    strict: bool,
)
    requires
        n <= flows.len(),
        references_agree(flows, r1, r2),
    ensures
        replay_flows(books, flows, r1, n, strict) == replay_flows(books, flows, r2, n, strict),
    decreases n,
{
    if n > 0 {
        lemma_replay_reads_needed_references(books, flows, r1, r2, (n - 1) as nat, strict);
        let f = flows[n - 1];
        if needs_reference_rate(f) {
            assert(r1[n - 1] == r2[n - 1]);
        } else {
            assert(movement_rate(f, r1[n - 1], strict) == movement_rate(f, r2[n - 1], strict) || !is_replayed(f));
        }
    }
}

/// A currency added to a list of currencies on its first appearance.
pub open spec fn with_currency(seen: Seq<Seq<char>>, c: Seq<char>) -> Seq<Seq<char>> {
    if seen.contains(c) {
        seen
    } else {
        seen.push(c)
    }
}

/// The currencies of the first `n` opening lots that are seeded (not EUR, not zero), in order of
/// first appearance.
pub open spec fn opening_currencies(opening: Seq<OpeningLot>, n: nat) -> Seq<Seq<char>>
    decreases n,
{
    if n == 0 || n > opening.len() {
        Seq::empty()
    } else {
        let s = opening_currencies(opening, (n - 1) as nat);
        let l = opening[n - 1];
        if l.currency@ == eur_code() || l.quantity.units() == 0 {
            s
        } else {
            with_currency(s, l.currency@)
        }
    }
}

/// `seen`, then the currencies of the first `n` replayed movements, in order of first appearance.
pub open spec fn flow_currencies(seen: Seq<Seq<char>>, flows: Seq<ForeignCashFlow>, n: nat) -> Seq<Seq<char>>
    decreases n,
{
    if n == 0 {
        seen
    } else {
        let s = flow_currencies(seen, flows, (n - 1) as nat);
        if is_replayed(flows[n - 1]) {
            with_currency(s, flows[n - 1].currency@)
        } else {
            s
        }
    }
}

pub open spec fn book_currencies(books: Seq<BookView>) -> Seq<Seq<char>> {
    books.map_values(|b: BookView| b.currency)
}

/// Each book's result names the book's currency.
pub open spec fn books_named(books: Seq<BookView>) -> bool {
    forall|i: int| 0 <= i < books.len() ==> (#[trigger] books[i]).result.currency == books[i].currency
}

proof fn lemma_book_index_from(books: Seq<BookView>, c: Seq<char>, i: nat)
    requires
        i <= books.len(),
    ensures
        book_index_from(books, c, i) < books.len() ==> books[book_index_from(books, c, i) as int].currency == c,
        book_index_from(books, c, i) >= i,
        book_index_from(books, c, i) <= books.len(),
        book_index_from(books, c, i) == books.len() ==> forall|j: int| i <= j < books.len() ==> books[j].currency != c,
    decreases books.len() - i,
{
    if i < books.len() && books[i as int].currency != c {
        lemma_book_index_from(books, c, i + 1);
    }
}

proof fn lemma_with_book_currencies(books: Seq<BookView>, c: Seq<char>)
    requires
        books_named(books),
    ensures
        book_currencies(with_book(books, c)) == with_currency(book_currencies(books), c),
        books_named(with_book(books, c)),
        book_index(with_book(books, c), c) < with_book(books, c).len(),
        with_book(books, c)[book_index(with_book(books, c), c) as int].currency == c,
{
    lemma_book_index_from(books, c, 0);
    let cs = book_currencies(books);
    if book_index(books, c) < books.len() {
        assert(cs[book_index(books, c) as int] == c);
        assert(cs.contains(c));
    } else {
        assert(!cs.contains(c)) by {
            if cs.contains(c) {
                let j = choose|j: int| 0 <= j < cs.len() && cs[j] == c;
                assert(books[j].currency == c);
            }
        }
        let nb = books.push(new_book(c));
        assert(book_currencies(nb) =~= cs.push(c));
        lemma_book_index_from(nb, c, 0);
        assert(nb[books.len() as int].currency == c);
    }
}

proof fn lemma_consume_keeps_currency(
    lots: Seq<Lot>,
    res: CurrencyFxResultView,
    remaining: Decimal,
    rate: Decimal,
    flow: ForeignCashFlow,
    fuel: nat,
)
    ensures
        consume_spec(lots, res, remaining, rate, flow, fuel).1.currency == res.currency,
    decreases fuel,
{
    if fuel > 0 && remaining.units() != 0 && !(lots.len() == 0 || (lots[0].qty.units() >= 0) == (remaining.units() >= 0)) {
        let front = lots[0];
        let units = consumed(front, remaining);
        let rest = remaining.spec_sub(remaining.spec_signum().spec_mul(units));
        lemma_consume_keeps_currency(
            consume_lots(lots, remaining),
            consume_result(res, front, remaining, rate, flow),
            rest,
            rate,
            flow,
            (fuel - 1) as nat,
        );
    }
}

proof fn lemma_open_lots_currencies(opening: Seq<OpeningLot>, n: nat)
    requires
        n <= opening.len(),
    ensures
        book_currencies(open_lots(opening, n)) == opening_currencies(opening, n),
        books_named(open_lots(opening, n)),
    decreases n,
{
    if n == 0 {
        assert(book_currencies(open_lots(opening, 0)) =~= Seq::<Seq<char>>::empty());
    } else {
        lemma_open_lots_currencies(opening, (n - 1) as nat);
        let books = open_lots(opening, (n - 1) as nat);
        let lot = opening[n - 1];
        if !(lot.currency@ == eur_code() || lot.quantity.units() == 0) {
            lemma_with_book_currencies(books, lot.currency@);
            let bs = with_book(books, lot.currency@);
            let i = book_index(bs, lot.currency@) as int;
            let r = open_lots(opening, n);
            assert(book_currencies(r) =~= book_currencies(bs));
            assert forall|j: int| 0 <= j < r.len() implies (#[trigger] r[j]).result.currency == r[j].currency by {
                if j != i {
                    assert(r[j] == bs[j]);
                }
            }
        }
    }
}

proof fn lemma_replay_currencies(
    books: Seq<BookView>,
    flows: Seq<ForeignCashFlow>,
    references: Seq<Result<Decimal, String>>,
    n: nat,
    strict: bool,
)
    requires
        n <= flows.len(),
        books_named(books),
    ensures
        replay_flows(books, flows, references, n, strict) matches Ok(bs) ==> book_currencies(bs) == flow_currencies(
            book_currencies(books),
            flows,
            n,
        ) && books_named(bs),
    decreases n,
{
    if n > 0 {
        lemma_replay_currencies(books, flows, references, (n - 1) as nat, strict);
        match replay_flows(books, flows, references, (n - 1) as nat, strict) {
            Ok(prev) => {
                let f = flows[n - 1];
                if is_replayed(f) {
                    lemma_with_book_currencies(prev, f.currency@);
                    let bs = with_book(prev, f.currency@);
                    let i = book_index(bs, f.currency@) as int;
                    let b = bs[i];
                    let running = b.running.spec_add(f.amount);
                    match movement_rate(f, references[n - 1], strict) {
                        Ok(rate) => {
                            if running.spec_sub(f.balance).spec_abs().units() <= cent_units() {
                                lemma_consume_keeps_currency(b.lots, b.result, f.amount, rate, f, fuel_for(b.lots.len()));
                                let (lots, result) = consume_spec(b.lots, b.result, f.amount, rate, f, fuel_for(b.lots.len()));
                                let r = bs.update(i, BookView { currency: b.currency, lots, running, result });
                                assert(book_currencies(r) =~= book_currencies(bs));
                                assert forall|j: int| 0 <= j < r.len() implies (#[trigger] r[j]).result.currency == r[j].currency by {
                                    if j != i {
                                        assert(r[j] == bs[j]);
                                    }
                                }
                            }
                        },
                        Err(_) => {},
                    }
                }
            },
            Err(_) => {},
        }
    }
}

/// The results of the FIFO list one entry per currency, in first-seen order: the currencies of the
/// seeded opening lots (not EUR, not zero), then those of the replayed movements (not EUR, not
/// zero), each once, and each entry names its currency.
pub proof fn results_list_each_currency_once_in_first_seen_order(
    flows: Seq<ForeignCashFlow>,
    opening: Seq<OpeningLot>,
    references: Seq<Result<Decimal, String>>,
    strict: bool,
)
    ensures
        fx_fifo_spec(flows, opening, references, strict) matches Ok(v) ==> v.map_values(
            |r: CurrencyFxResultView| r.currency,
        ) == flow_currencies(opening_currencies(opening, opening.len()), flows, flows.len()),
{
    lemma_open_lots_currencies(opening, opening.len());
    let start = open_lots(opening, opening.len());
    lemma_replay_currencies(start, flows, references, flows.len(), strict);
    match replay_flows(start, flows, references, flows.len(), strict) {
        Ok(bs) => {
            assert(books_results(bs).map_values(|r: CurrencyFxResultView| r.currency) =~= book_currencies(bs));
        },
        Err(_) => {},
    }
}

fn text(literal: &str) -> (r: String)
    ensures
        r@ == literal@,
{
    <String as StringExecFns>::from_str(literal)
}

/// The refusal of a movement after which the running balance differs from the statement's.
pub open spec fn inconsistent_text(flow: ForeignCashFlow, running: Decimal, strict: bool) -> Seq<char> {
    "Foreign-currency ledger for "@ + flow.currency@ + " is inconsistent on "@ + iso_text(flow.date)
        + ": movements sum to "@ + decimal_text(running.mant(), running.exp())
        + " but the statement balance is "@ + decimal_text(flow.balance.mant(), flow.balance.exp())
        + if strict {
        ". The Statement of Funds must reconcile from the opening balance in document order. \
             If the export does not begin at account opening, declare the carried-in "@
            + flow.currency@ + " balance via the portfolio's opening_foreign_currency config; out-of-order or \
             dropped rows are not supported."@
    } else {
        ". The Statement of Funds must start from a zero "@ + flow.currency@
            + " balance and be in document order; carried-in balances and out-of-order rows are \
             not supported."@
    }
}

/// The refusal of a conversion leg whose execution rate is not positive.
pub open spec fn non_positive_text(flow: ForeignCashFlow, eur_execution: Decimal, rate: Decimal) -> Seq<char> {
    "Malformed FOREX leg for "@ + flow.currency@ + " on "@ + iso_text(flow.date) + ": EUR execution "@
        + decimal_text(eur_execution.mant(), eur_execution.exp()) + " against movement "@
        + decimal_text(flow.amount.mant(), flow.amount.exp()) + " gives a non-positive rate "@
        + decimal_text(rate.mant(), rate.exp())
        + ". A real conversion's legs carry opposite signs; refusing rather than booking a \
         fabricated gain."@
}

/// The message of the refusal of a movement, given the books before it (see `flow_step`): the
/// inconsistent balance, the non-positive execution rate, or the text that came with a missing
/// reference rate.
pub open spec fn step_message(
    books: Seq<BookView>,
    flow: ForeignCashFlow,
    reference: Result<Decimal, String>,
    strict: bool,
) -> Seq<char> {
    let bs = with_book(books, flow.currency@);
    let running = bs[book_index(bs, flow.currency@) as int].running.spec_add(flow.amount);
    if running.spec_sub(flow.balance).spec_abs().units() > cent_units() {
        inconsistent_text(flow, running, strict)
    } else if flow.activity_code@ == forex_code() && flow.eur_execution is Some {
        let x = flow.eur_execution->0;
        non_positive_text(flow, x, x.spec_neg().spec_div(flow.amount))
    } else {
        match reference {
            Err(m) => m@,
            Ok(_) => Seq::empty(),
        }
    }
}

/// The message of a refusal at movement `j`: that of `step_message` on the books after the
/// opening lots and the movements before `j`.
pub open spec fn fx_error_message(
    flows: Seq<ForeignCashFlow>,
    opening: Seq<OpeningLot>,
    references: Seq<Result<Decimal, String>>,
    strict: bool,
    j: nat,
) -> Seq<char> {
    match replay_flows(open_lots(opening, opening.len()), flows, references, j, strict) {
        Ok(books) => step_message(books, flows[j as int], references[j as int], strict),
        Err(_) => Seq::empty(),
    }
}

fn inconsistent_message(flow: &ForeignCashFlow, running: &Decimal, strict: bool) -> (r: String)
    ensures
        r@ == inconsistent_text(*flow, *running, strict),
{
    let mut m = text("Foreign-currency ledger for ");
    m.append(flow.currency.as_str());
    m.append(" is inconsistent on ");
    m.append(flow.date.iso_text().as_str());
    m.append(": movements sum to ");
    m.append(running.to_text().as_str());
    m.append(" but the statement balance is ");
    m.append(flow.balance.to_text().as_str());
    if strict {
        m.append(
            ". The Statement of Funds must reconcile from the opening balance in document order. \
             If the export does not begin at account opening, declare the carried-in ",
        );
        m.append(flow.currency.as_str());
        m.append(
            " balance via the portfolio's opening_foreign_currency config; out-of-order or \
             dropped rows are not supported.",
        );
    } else {
        m.append(". The Statement of Funds must start from a zero ");
        m.append(flow.currency.as_str());
        m.append(
            " balance and be in document order; carried-in balances and out-of-order rows are \
             not supported.",
        );
    }
    m
}

fn non_positive_message(flow: &ForeignCashFlow, eur_execution: &Decimal, rate: &Decimal) -> (r: String)
    ensures
        r@ == non_positive_text(*flow, *eur_execution, *rate),
{
    let mut m = text("Malformed FOREX leg for ");
    m.append(flow.currency.as_str());
    m.append(" on ");
    m.append(flow.date.iso_text().as_str());
    m.append(": EUR execution ");
    m.append(eur_execution.to_text().as_str());
    m.append(" against movement ");
    m.append(flow.amount.to_text().as_str());
    m.append(" gives a non-positive rate ");
    m.append(rate.to_text().as_str());
    m.append(
        ". A real conversion's legs carry opposite signs; refusing rather than booking a \
         fabricated gain.",
    );
    m
}

proof fn lemma_bounds_step(n: int)
    requires
        0 <= n < 1_000_000,
    ensures
        -n * quantity_bound() >= -small_bound(),
        (n + 1) * quantity_bound() <= small_bound(),
        n * quantity_bound() + quantity_bound() == (n + 1) * quantity_bound(),
        -n * quantity_bound() - quantity_bound() == -(n + 1) * quantity_bound(),
        n * quantity_bound() >= 0,
        -(n + 1) * quantity_bound() >= -small_bound(),
{
    assert(-(n + 1) * quantity_bound() >= -small_bound()) by (nonlinear_arith)
        requires
            0 <= n < 1_000_000,
            small_bound() == 1_000_000 * quantity_bound(),
            quantity_bound() > 0,
    ;
    assert(-n * quantity_bound() >= -small_bound()) by (nonlinear_arith)
        requires
            0 <= n < 1_000_000,
            small_bound() == 1_000_000 * quantity_bound(),
            quantity_bound() > 0,
    ;
    assert((n + 1) * quantity_bound() <= small_bound()) by (nonlinear_arith)
        requires
            0 <= n < 1_000_000,
            small_bound() == 1_000_000 * quantity_bound(),
            quantity_bound() > 0,
    ;
    assert(n * quantity_bound() + quantity_bound() == (n + 1) * quantity_bound()) by (nonlinear_arith);
    assert(-n * quantity_bound() - quantity_bound() == -(n + 1) * quantity_bound()) by (nonlinear_arith);
    assert(n * quantity_bound() >= 0) by (nonlinear_arith)
        requires
            n >= 0,
            quantity_bound() > 0,
    ;
}

/// Register the book of `currency` and take it out of `books` for an update.
fn take_book(books: &mut Vec<Book>, currency: &String, count: usize) -> (r: (usize, Book))
    requires
        books_ok(books_view(old(books)@), count as int),
    ensures
        r.0 <= final(books)@.len(),
        books_view(final(books)@.insert(r.0 as int, r.1)) == with_book(
            books_view(old(books)@),
            currency@,
        ),
        r.0 as nat == book_index(with_book(books_view(old(books)@), currency@), currency@),
        r.1@ == with_book(books_view(old(books)@), currency@)[r.0 as int],
        book_ok(r.1@, count as int),
        books_ok(books_view(final(books)@), count as int),
{
    let ghost before = books@;
    proof {
        assert(count as int * quantity_bound() >= 0) by (nonlinear_arith)
            requires
                count >= 0,
                quantity_bound() > 0,
        ;
        assert(-(count as int) * quantity_bound() <= 0) by (nonlinear_arith)
            requires
                count >= 0,
                quantity_bound() > 0,
        ;
    }
    let k = register_currency(books, currency);
    let ghost all = books@;
    proof {
        if book_index(books_view(before), currency@) < before.len() {
            assert(all == before);
        }
        if book_index(books_view(before), currency@) >= before.len() {
            let nb = books_view(all)[k as int];
            assert(nb == new_book(currency@));
            assert(lots_ok(nb.lots));
            assert(realizations_ok(nb.result.taxable));
            assert(realizations_ok(nb.result.non_taxable));
        }
        assert(book_ok(books_view(all)[k as int], count as int));
    }
    let b = books.remove(k);
    proof {
        assert(books@.insert(k as int, b) =~= all);
        assert forall|t: int| 0 <= t < books@.len() implies book_ok(
            #[trigger] books_view(books@)[t],
            count as int,
        ) by {
            assert(books_view(books@)[t] == books@[t]@);
            if t < k {
                assert(books@[t] == all[t]);
                assert(books_view(all)[t] == all[t]@);
            } else {
                assert(books@[t] == all[t + 1]);
                assert(books_view(all)[t + 1] == all[t + 1]@);
            }
        }
    }
    (k, b)
}

/// Put an updated book back where it was taken from.
fn put_book(books: &mut Vec<Book>, k: usize, b: Book, count: usize)
    requires
        k <= old(books)@.len(),
        books_ok(books_view(old(books)@), count as int),
        book_ok(b@, count as int),
    ensures
        final(books)@ == old(books)@.insert(k as int, b),
        books_ok(books_view(final(books)@), count as int),
{
    books.insert(k, b);
    proof {
        assert forall|t: int| 0 <= t < books@.len() implies book_ok(
            #[trigger] books_view(books@)[t],
            count as int,
        ) by {
            assert(books_view(books@)[t] == books@[t]@);
            if t < k {
                assert(books@[t] == old(books)@[t]);
                assert(books_view(old(books)@)[t] == old(books)@[t]@);
            } else if t > k {
                assert(books@[t] == old(books)@[t - 1]);
                assert(books_view(old(books)@)[t - 1] == old(books)@[t - 1]@);
            }
        }
    }
}

proof fn lemma_view_insert(v: Seq<Book>, k: int, b: Book)
    requires
        0 <= k <= v.len(),
    ensures
        books_view(v.insert(k, b)) == books_view(v).insert(k, b@),
{
    assert(books_view(v.insert(k, b)) =~= books_view(v).insert(k, b@));
}

/// Seed the books with one declared opening lot.
fn open_one(books: &mut Vec<Book>, lot: &OpeningLot, eur: &String, count: usize)
    requires
        books_ok(books_view(old(books)@), count as int),
        count < 1_000_000,
        is_quantity(lot.quantity),
        is_rate(lot.eur_per_unit),
        eur@ == eur_code(),
    ensures
        books_view(final(books)@) == open_lot(books_view(old(books)@), *lot),
        books_ok(books_view(final(books)@), count as int + 1),
        !(lot.currency@ == eur_code() || lot.quantity.units() == 0) ==> book_of(books_view(old(books)@), lot.currency@).running.spec_add(
            lot.quantity,
        ).units() == book_of(books_view(old(books)@), lot.currency@).running.units() + lot.quantity.units(),
{
    proof {
        lemma_books_ok_mono(books_view(books@), count as int);
        lemma_bounds_step(count as int);
        reveal_strlit("OPENING");
    }
    if lot.currency == *eur || lot.quantity.is_zero() {
        return;
    }
    let ghost before = books@;
    let (k, mut b) = take_book(books, &lot.currency, count);
    let ghost rest = books@;
    let ghost taken = b;
    proof {
        lemma_books_ok_mono(books_view(rest), count as int);
        assert(book_ok(taken@, count as int));
        assert(is_small(b.running));
        assert(is_small(lot.quantity));
        assert(-small_bound() <= b.running.units() + lot.quantity.units() <= small_bound());
    }
    b.running = b.running.add(&lot.quantity);
    assert(b.running.units() == taken.running.units() + lot.quantity.units());
    let new_lot = Lot { qty: lot.quantity, rate: lot.eur_per_unit, date: lot.date };
    b.lots.push(new_lot);
    let row = FxLedgerRow {
        date: lot.date,
        transaction_id: String::new(),
        activity_code: text("OPENING"),
        units: lot.quantity,
        rate: lot.eur_per_unit,
        kind: FxLedgerKind::Acquisition,
        balance_after: lot.quantity,
    };
    let ghost old_ledger = b.result.ledger@;
    b.result.ledger.push(row);
    proof {
        lemma_ledger_push(old_ledger, row);
        lemma_ledger_units_push(ledger_view(old_ledger), row@);
        assert(row.transaction_id@ =~= seq![]);
        assert(lots_ok(b.lots@)) by {
            assert forall|t: int| 0 <= t < b.lots@.len() implies lot_ok(#[trigger] b.lots@[t]) by {
            }
        }
    }
    proof {
        assert(b@.running.units() == taken@.running.units() + lot.quantity.units());
        assert(b@.lots == taken@.lots.push(new_lot));
        assert(lot_ok(new_lot));
        assert(book_ok(b@, count as int + 1));
    }
    put_book(books, k, b, count + 1);
    proof {
        assert("OPENING"@ == opening_code());
        lemma_view_insert(rest, k as int, b);
        lemma_view_insert(rest, k as int, taken);
        let bs = with_book(books_view(before), lot.currency@);
        assert(books_view(rest).insert(k as int, b@) =~= bs.update(k as int, b@));
    }
}


/// Once the replay refuses a movement, the refusal is its result.
proof fn lemma_refusal_persists(
    books: Seq<BookView>,
    flows: Seq<ForeignCashFlow>,
    references: Seq<Result<Decimal, String>>,
    n: nat,
    m: nat,
    strict: bool,
)
    requires
        n <= m,
        replay_flows(books, flows, references, n, strict) is Err,
    ensures
        replay_flows(books, flows, references, m, strict) == replay_flows(books, flows, references, n, strict),
    decreases m - n,
{
    if n < m {
        lemma_refusal_persists(books, flows, references, n, (m - 1) as nat, strict);
    }
}

/// Replay one movement.
fn step_one(
    books: &mut Vec<Book>,
    flow: &ForeignCashFlow,
    reference: &Result<Decimal, String>,
    strict: bool,
    j: usize,
    count: usize,
    eur: &String,
    forex: &String,
) -> (r: Result<(), FxError>)
    requires
        books_ok(books_view(old(books)@), count as int),
        count < 1_000_000,
        is_quantity(flow.amount),
        is_quantity(flow.balance),
        flow.eur_execution is Some && flow.amount.units() != 0 ==> abs_int(
            flow.eur_execution->0.units(),
        ) <= 1_000_000 * abs_int(flow.amount.units()),
        *reference matches Ok(x) ==> is_rate(x),
        eur@ == eur_code(),
        forex@ == forex_code(),
    ensures
        r is Ok ==> flow_step(books_view(old(books)@), *flow, *reference, strict) == Ok::<
            Seq<BookView>,
            FxErrorKind,
        >(books_view(final(books)@)) && books_ok(books_view(final(books)@), count as int + 1),
        r matches Err(e) ==> flow_step(books_view(old(books)@), *flow, *reference, strict)
            == Err::<Seq<BookView>, FxErrorKind>(e.kind) && e.flow == j,
        r matches Err(e) ==> e.message@ == step_message(books_view(old(books)@), *flow, *reference, strict),
        r is Ok && strict ==> accepted_leg(*flow),
        r matches Err(e) && e.kind == FxErrorKind::NonPositiveRate ==> refused_leg(*flow),
        r matches Err(e) && e.kind == FxErrorKind::RateUnavailable ==> needs_reference_rate(*flow),
        r is Ok && is_replayed(*flow) ==> {
            let nb = books_view(final(books)@)[book_index(with_book(books_view(old(books)@), flow.currency@), flow.currency@) as int];
            nb.result.ledger.len() > 0 && nb.result.ledger.last().balance_after.units() == flow.balance.units()
        },
        is_replayed(*flow) ==> {
            let r = book_of(books_view(old(books)@), flow.currency@).running;
            &&& r.spec_add(flow.amount).units() == r.units() + flow.amount.units()
            &&& r.spec_add(flow.amount).spec_sub(flow.balance).spec_abs().units() == abs_int(
                r.units() + flow.amount.units() - flow.balance.units(),
            )
        },
{
    proof {
        lemma_books_ok_mono(books_view(books@), count as int);
        lemma_bounds_step(count as int);
    }
    if flow.currency == *eur || flow.amount.is_zero() {
        return Ok(());
    }
    let cent = Decimal::new(1, 2);
    let zero = Decimal::zero();
    proof {
        reveal_with_fuel(crate::decimal::pow10, 27);
        assert(cent.units() == cent_units());
    }
    let ghost before = books@;
    let (k, mut b) = take_book(books, &flow.currency, count);
    let ghost rest = books@;
    let ghost taken = b;
    proof {
        lemma_books_ok_mono(books_view(rest), count as int);
        assert(book_ok(taken@, count as int));
        assert(-small_bound() <= b.running.units() + flow.amount.units() <= small_bound());
    }
    let running = b.running.add(&flow.amount);
    proof {
        crate::decimal::lemma_difference_representable(running, flow.balance);
    }
    let gap = running.sub(&flow.balance).abs();
    if cent.lt(&gap) {
        return Err(
            FxError {
                flow: j,
                kind: FxErrorKind::Inconsistent,
                message: inconsistent_message(flow, &running, strict),
            },
        );
    }
    let rate = if flow.activity_code == *forex && flow.eur_execution.is_some() {
        let eur_execution = flow.eur_execution.unwrap();
        let negated = eur_execution.neg();
        proof {
            lemma_quotient_bounds(negated.units(), flow.amount.units(), 0);
        }
        let rate = negated.div(&flow.amount);
        proof {
            lemma_quotient_bounds(negated.units(), flow.amount.units(), rate.units());
            if representable_quotient(negated.units(), flow.amount.units()) {
                lemma_rate_sign(rate.units(), flow.amount.units(), eur_execution.units());
            }
        }
        if strict && rate.le(&zero) {
            return Err(
                FxError {
                    flow: j,
                    kind: FxErrorKind::NonPositiveRate,
                    message: non_positive_message(flow, &eur_execution, &rate),
                },
            );
        }
        rate
    } else {
        match reference {
            Ok(rate) => *rate,
            Err(message) => {
                return Err(
                    FxError { flow: j, kind: FxErrorKind::RateUnavailable, message: message.clone() },
                );
            },
        }
    };
    b.running = running;
    consume(&mut b.lots, &mut b.result, flow, rate);
    proof {
        assert(book_ok(b@, count as int + 1));
    }
    put_book(books, k, b, count + 1);
    proof {
        lemma_view_insert(rest, k as int, b);
        lemma_view_insert(rest, k as int, taken);
        let bs = with_book(books_view(before), flow.currency@);
        assert(books_view(rest).insert(k as int, b@) =~= bs.update(k as int, b@));
    }
    Ok(())
}

/// Seed the books with the declared opening lots, then replay the movements.
fn replay(
    flows: &[ForeignCashFlow],
    opening: &[OpeningLot],
    references: &[Result<Decimal, String>],
    strict: bool,
) -> (r: Result<Vec<Book>, FxError>)
    requires
        inputs_in_bounds(flows@, opening@, references@),
    ensures
        r matches Ok(books) ==> fx_replay(flows@, opening@, references@, strict) == Ok::<
            Seq<BookView>,
            (nat, FxErrorKind),
        >(books_view(books@)),
        r matches Err(e) ==> fx_replay(flows@, opening@, references@, strict) == Err::<
            Seq<BookView>,
            (nat, FxErrorKind),
        >((e.flow as nat, e.kind)),
        r matches Err(e) ==> e.message@ == fx_error_message(flows@, opening@, references@, strict, e.flow as nat),
        r is Ok ==> forall|j: int| 0 <= j < flows@.len() ==> !#[trigger] balance_departs(opening@, flows@, j),
        r matches Err(e) ==> (forall|j: int| 0 <= j < e.flow ==> !#[trigger] balance_departs(opening@, flows@, j)) && (
        e.kind == FxErrorKind::Inconsistent <==> balance_departs(opening@, flows@, e.flow as int)),
        r matches Ok(books) ==> books_ok(
            books_view(books@),
            (flows@.len() + opening@.len()) as int,
        ),
        r matches Ok(books) ==> ledgers_reconcile(books_results(books_view(books@)), flows@, opening@),
        r is Ok && strict ==> forall|j: int| 0 <= j < flows@.len() ==> #[trigger] accepted_leg(flows@[j]),
        r matches Err(e) ==> legs_before_refusal(flows@, e, strict),
{
    let eur = text("EUR");
    let forex = text("FOREX");
    proof {
        reveal_strlit("EUR");
        reveal_strlit("FOREX");
        assert(eur@ == eur_code());
        assert(forex@ == forex_code());
    }
    let mut books: Vec<Book> = Vec::new();
    let mut i: usize = 0;
    proof {
        assert(books_view(books@) =~= open_lots(opening@, 0));
        assert(book_currencies(books_view(books@)) =~= Seq::<Seq<char>>::empty());
    }
    while i < opening.len()
        invariant
            i <= opening.len(),
            inputs_in_bounds(flows@, opening@, references@),
            eur@ == eur_code(),
            books_view(books@) == open_lots(opening@, i as nat),
            books_ok(books_view(books@), i as int),
            runnings_track(books_view(books@), opening@, i as nat, flows@, 0),
        decreases opening.len() - i,
    {
        assert(is_quantity(opening@[i as int].quantity));
        let ghost bs0 = books_view(books@);
        proof {
            lemma_open_lots_currencies(opening@, i as nat);
        }
        open_one(&mut books, &opening[i], &eur, i);
        proof {
            lemma_open_lot_tracks(bs0, opening@[i as int], opening@, i as nat, flows@);
        }
        i = i + 1;
    }
    proof {
        lemma_open_lots_currencies(opening@, opening@.len());
    }
    let ghost start = books_view(books@);
    let mut j: usize = 0;
    while j < flows.len()
        invariant
            j <= flows.len(),
            inputs_in_bounds(flows@, opening@, references@),
            eur@ == eur_code(),
            forex@ == forex_code(),
            start == open_lots(opening@, opening@.len()),
            replay_flows(start, flows@, references@, j as nat, strict) == Ok::<
                Seq<BookView>,
                (nat, FxErrorKind),
            >(books_view(books@)),
            books_ok(books_view(books@), (opening@.len() + j) as int),
            runnings_track(books_view(books@), opening@, opening@.len(), flows@, j as nat),
            books_named(books_view(books@)),
            balances_track(books_view(books@), flows@, j as nat),
            forall|jj: int| 0 <= jj < j ==> !#[trigger] balance_departs(opening@, flows@, jj),
            strict ==> forall|jj: int| 0 <= jj < j ==> #[trigger] accepted_leg(flows@[jj]),
        decreases flows.len() - j,
    {
        let ghost bs0 = books_view(books@);
        assert(flows@[j as int] == flows[j as int]);
        assert(references@[j as int] matches Ok(x) ==> is_rate(x));
        match step_one(
            &mut books,
            &flows[j],
            &references[j],
            strict,
            j,
            opening.len() + j,
            &eur,
            &forex,
        ) {
            Ok(()) => {
                proof {
                    lemma_flow_step_tracks(bs0, opening@, flows@, references@, j as nat, strict);
                    lemma_flow_step_balances(bs0, books_view(books@), opening@, flows@, references@, j as nat, strict);
                }
            },
            Err(e) => {
                proof {
                    lemma_flow_step_tracks(bs0, opening@, flows@, references@, j as nat, strict);
                    assert(replay_flows(start, flows@, references@, (j + 1) as nat, strict) == Err::<
                        Seq<BookView>,
                        (nat, FxErrorKind),
                    >((j as nat, e.kind)));
                    lemma_refusal_persists(start, flows@, references@, (j + 1) as nat, flows@.len(), strict);
                    assert(e.message@ == fx_error_message(flows@, opening@, references@, strict, j as nat));
                }
                return Err(e);
            },
        }
        j = j + 1;
    }
    proof {
        let bv = books_view(books@);
        let res = books_results(bv);
        assert forall|k: int| 0 <= k < res.len() implies {
            let x = #[trigger] res[k];
            &&& ledger_units(x.ledger) == opening_total(opening@, opening@.len(), x.currency) + flow_total(
                flows@,
                flows@.len(),
                x.currency,
            )
            &&& (last_balance(flows@, flows@.len(), x.currency) matches Some(bal) ==> x.ledger.len() > 0
                && x.ledger.last().balance_after.units() == bal.units())
        } by {
            assert(res[k] == bv[k].result);
            assert(book_ok(bv[k], (opening@.len() + j) as int));
            assert(bv[k].result.currency == bv[k].currency);
        }
    }
    Ok(books)
}


/// The results of the books, in first-seen currency order.
fn into_results(books: Vec<Book>) -> (r: Vec<CurrencyFxResult>)
    ensures
        results_view(r@) == books_results(books_view(books@)),
{
    let ghost total = books_results(books_view(books@));
    let mut books = books;
    let mut out: Vec<CurrencyFxResult> = Vec::new();
    while books.len() > 0
        invariant
            results_view(out@) + books_results(books_view(books@)) == total,
        decreases books.len(),
    {
        let ghost before_books = books@;
        let ghost before_out = out@;
        let b = books.remove(0);
        out.push(b.result);
        proof {
            assert(results_view(out@) =~= results_view(before_out).push(b.result@));
            assert(books_results(books_view(before_books)) =~= seq![b.result@] + books_results(
                books_view(books@),
            ));
            assert(results_view(out@) + books_results(books_view(books@)) =~= results_view(
                before_out,
            ) + books_results(books_view(before_books)));
        }
    }
    proof {
        assert(books_results(books_view(books@)) =~= seq![]);
        assert(results_view(out@) =~= total);
    }
    out
}

/// Replay the cash-flow ledger through a per-currency signed-inventory FIFO, with the reference
/// rate of each movement given: `references[i]` is the EUR value of one unit of the currency of
/// `flows[i]` on its date (consulted only for a movement that needs it).
///
/// `opening` seeds each currency's inventory before the flows are replayed. EUR movements and zero
/// amounts are skipped. Results are returned in first-seen currency order. A movement whose
/// running balance does not reconcile with the statement, a FOREX leg whose execution rate is not
/// positive, and a missing reference rate are refused, at the first such movement.
pub fn compute_fx_fifo_with_rates(
    flows: &[ForeignCashFlow],
    opening: &[OpeningLot],
    references: &[Result<Decimal, String>],
) -> (r: Result<Vec<CurrencyFxResult>, FxError>)
    requires
        inputs_in_bounds(flows@, opening@, references@),
    ensures
        r matches Ok(v) ==> fx_fifo_spec(flows@, opening@, references@, true) == Ok::<
            Seq<CurrencyFxResultView>,
            (nat, FxErrorKind),
        >(results_view(v@)),
        r matches Err(e) ==> fx_fifo_spec(flows@, opening@, references@, true) == Err::<
            Seq<CurrencyFxResultView>,
            (nat, FxErrorKind),
        >((e.flow as nat, e.kind)),
        r matches Err(e) ==> e.message@ == fx_error_message(flows@, opening@, references@, true, e.flow as nat),
        r is Ok ==> forall|j: int| 0 <= j < flows@.len() ==> !#[trigger] balance_departs(opening@, flows@, j),
        r matches Err(e) ==> (forall|j: int| 0 <= j < e.flow ==> !#[trigger] balance_departs(opening@, flows@, j)) && (
        e.kind == FxErrorKind::Inconsistent <==> balance_departs(opening@, flows@, e.flow as int)),
        r matches Ok(v) ==> ledgers_reconcile(results_view(v@), flows@, opening@),
        r is Ok ==> forall|j: int| 0 <= j < flows@.len() ==> #[trigger] accepted_leg(flows@[j]),
        r matches Err(e) ==> legs_before_refusal(flows@, e, true),
{
    match replay(flows, opening, references, true) {
        Ok(books) => Ok(into_results(books)),
        Err(e) => Err(e),
    }
}

/// The replay with the FOREX-rate check on (`strict`) or off, for the jurisdictions that build their
/// own results on it. Every result's realizations stay within the amount bound, and there are at
/// most as many of them as rows.
pub(crate) fn replay_fx_fifo(
    flows: &[ForeignCashFlow],
    opening: &[OpeningLot],
    references: &[Result<Decimal, String>],
    strict: bool,
) -> (r: Result<Vec<CurrencyFxResult>, FxError>)
    requires
        inputs_in_bounds(flows@, opening@, references@),
    ensures
        r matches Ok(v) ==> fx_fifo_spec(flows@, opening@, references@, strict) == Ok::<
            Seq<CurrencyFxResultView>,
            (nat, FxErrorKind),
        >(results_view(v@)),
        r matches Err(e) ==> fx_fifo_spec(flows@, opening@, references@, strict) == Err::<
            Seq<CurrencyFxResultView>,
            (nat, FxErrorKind),
        >((e.flow as nat, e.kind)),
        r matches Err(e) ==> e.message@ == fx_error_message(flows@, opening@, references@, strict, e.flow as nat),
        r is Ok ==> forall|j: int| 0 <= j < flows@.len() ==> !#[trigger] balance_departs(opening@, flows@, j),
        r matches Err(e) ==> (forall|j: int| 0 <= j < e.flow ==> !#[trigger] balance_departs(opening@, flows@, j)) && (
        e.kind == FxErrorKind::Inconsistent <==> balance_departs(opening@, flows@, e.flow as int)),
        r matches Ok(v) ==> forall|i: int|
            0 <= i < v@.len() ==> realizations_ok(#[trigger] v@[i]@.non_taxable) && v@[i]@.non_taxable.len()
                <= flows@.len() + opening@.len(),
        r matches Ok(v) ==> ledgers_reconcile(results_view(v@), flows@, opening@),
        r is Ok && strict ==> forall|j: int| 0 <= j < flows@.len() ==> #[trigger] accepted_leg(flows@[j]),
        r matches Err(e) ==> legs_before_refusal(flows@, e, strict),
{
    match replay(flows, opening, references, strict) {
        Ok(books) => {
            let ghost bv = books_view(books@);
            let results = into_results(books);
            proof {
                assert forall|i: int| 0 <= i < results@.len() implies realizations_ok(
                    #[trigger] results@[i]@.non_taxable,
                ) && results@[i]@.non_taxable.len() <= flows@.len() + opening@.len() by {
                    assert(results_view(results@).len() == results@.len());
                    assert(books_results(bv).len() == bv.len());
                    assert(results_view(results@)[i] == results@[i]@);
                    assert(books_results(bv)[i] == bv[i].result);
                    assert(book_ok(bv[i], (flows@.len() + opening@.len()) as int));
                }
            }
            Ok(results)
        },
        Err(e) => Err(e),
    }
}

/// Whether a movement is valued at the reference rate.
fn uses_reference_rate(flow: &ForeignCashFlow, eur: &String, forex: &String) -> (r: bool)
    requires
        eur@ == eur_code(),
        forex@ == forex_code(),
    ensures
        r == needs_reference_rate(*flow),
{
    !(flow.currency == *eur || flow.amount.is_zero()) && !(flow.activity_code == *forex
        && flow.eur_execution.is_some())
}

/// Ask `ecb_rate` for the reference rate of every movement that is valued at one.
pub fn reference_rates<F: Fn(Date, &str) -> Result<Decimal, String>>(
    flows: &[ForeignCashFlow],
    ecb_rate: &F,
) -> (r: Vec<Result<Decimal, String>>)
    requires
        forall|d: Date, c: &str| #[trigger] call_requires(*ecb_rate, (d, c)),
    ensures
        r@.len() == flows@.len(),
        forall|i: int|
            0 <= i < flows@.len() && needs_reference_rate(#[trigger] flows@[i]) ==> exists|c: &str|
                c@ == flows@[i].currency@ && call_ensures(*ecb_rate, (flows@[i].date, c), r@[i]),
        forall|i: int|
            0 <= i < flows@.len() && !needs_reference_rate(#[trigger] flows@[i]) ==> r@[i] is Err,
{
    let eur = text("EUR");
    let forex = text("FOREX");
    proof {
        reveal_strlit("EUR");
        reveal_strlit("FOREX");
    }
    let mut out: Vec<Result<Decimal, String>> = Vec::new();
    let mut i: usize = 0;
    while i < flows.len()
        invariant
            i <= flows.len(),
            out@.len() == i,
            eur@ == eur_code(),
            forex@ == forex_code(),
            forall|d: Date, c: &str| #[trigger] call_requires(*ecb_rate, (d, c)),
            forall|t: int|
                0 <= t < i && needs_reference_rate(#[trigger] flows@[t]) ==> exists|c: &str|
                    c@ == flows@[t].currency@ && call_ensures(*ecb_rate, (flows@[t].date, c), out@[t]),
            forall|t: int|
                0 <= t < i && !needs_reference_rate(#[trigger] flows@[t]) ==> out@[t] is Err,
        decreases flows.len() - i,
    {
        let flow = &flows[i];
        let ghost before = out@;
        assert(flows@[i as int] == *flow);
        if uses_reference_rate(flow, &eur, &forex) {
            let currency = flow.currency.as_str();
            let rate = ecb_rate(flow.date, currency);
            out.push(rate);
            proof {
                assert(call_ensures(*ecb_rate, (flow.date, currency), out@[i as int]));
                assert(currency@ == flows@[i as int].currency@);
            }
        } else {
            out.push(Err(String::new()));
        }
        proof {
            assert forall|t: int| 0 <= t < i implies out@[t] == before[t] by {}
        }
        i = i + 1;
    }
    out
}

/// Replay the cash-flow ledger through a per-currency signed-inventory FIFO.
///
/// `ecb_rate(date, currency)` returns the central-bank reference rate as EUR per unit of
/// `currency`; it is asked for the movements valued at it. Otherwise as
/// `compute_fx_fifo_with_rates`, with the rates `ecb_rate` returned.
pub fn compute_fx_fifo<F: Fn(Date, &str) -> Result<Decimal, String>>(
    flows: &[ForeignCashFlow],
    opening: &[OpeningLot],
    ecb_rate: F,
) -> (r: Result<Vec<CurrencyFxResult>, FxError>)
    requires
        rows_in_bounds(flows@, opening@),
        forall|d: Date, c: &str| #[trigger] call_requires(ecb_rate, (d, c)),
        forall|d: Date, c: &str, out: Result<Decimal, String>|
            #[trigger] call_ensures(ecb_rate, (d, c), out) ==> (out matches Ok(x) ==> is_rate(x)),
    ensures
        exists|references: Seq<Result<Decimal, String>>|
            #![trigger fx_fifo_spec(flows@, opening@, references, true)]
            {
                &&& references.len() == flows@.len()
                &&& forall|i: int|
                    0 <= i < flows@.len() && needs_reference_rate(#[trigger] flows@[i])
                        ==> exists|c: &str|
                        c@ == flows@[i].currency@ && call_ensures(
                            ecb_rate,
                            (flows@[i].date, c),
                            references[i],
                        )
                &&& r matches Ok(v) ==> fx_fifo_spec(flows@, opening@, references, true) == Ok::<
                    Seq<CurrencyFxResultView>,
                    (nat, FxErrorKind),
                >(results_view(v@))
                &&& r matches Err(e) ==> fx_fifo_spec(flows@, opening@, references, true) == Err::<
                    Seq<CurrencyFxResultView>,
                    (nat, FxErrorKind),
                >((e.flow as nat, e.kind))
                &&& r matches Err(e) ==> e.message@ == fx_error_message(flows@, opening@, references, true, e.flow as nat)
            },
        r is Ok ==> forall|j: int| 0 <= j < flows@.len() ==> !#[trigger] balance_departs(opening@, flows@, j),
        r matches Err(e) ==> (forall|j: int| 0 <= j < e.flow ==> !#[trigger] balance_departs(opening@, flows@, j)) && (
        e.kind == FxErrorKind::Inconsistent <==> balance_departs(opening@, flows@, e.flow as int)),
        r matches Ok(v) ==> ledgers_reconcile(results_view(v@), flows@, opening@),
        r is Ok ==> forall|j: int| 0 <= j < flows@.len() ==> #[trigger] accepted_leg(flows@[j]),
        r matches Err(e) ==> legs_before_refusal(flows@, e, true),
{
    let references = reference_rates(flows, &ecb_rate);
    proof {
        assert forall|i: int| 0 <= i < references@.len() implies (#[trigger] references@[i] matches Ok(x) ==> is_rate(x)) by {
            if needs_reference_rate(flows@[i]) {
                let c = choose|c: &str| c@ == flows@[i].currency@ && call_ensures(ecb_rate, (flows@[i].date, c), references@[i]);
            }
        }
    }
    compute_fx_fifo_with_rates(flows, opening, references.as_slice())
}

} // verus!
